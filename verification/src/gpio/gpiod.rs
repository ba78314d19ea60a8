//! Port D: its pins and how to get them.

use vstd::prelude::*;
use crate::gpio::port::PORT_D;
use crate::gpio::Floating;
use crate::gpio::GpioExt;
use crate::gpio::Input;
use crate::gpio::PartiallyErasedPin;
use crate::gpio::Pin;
use crate::pac::Gpiod;
use crate::pac::Rcc;
use crate::rcc::Enable;
use crate::rcc::Reset;

verus! {

/// GPIO parts
pub struct Parts {
    /// Pin
    pub pd0: PD0,
    /// Pin
    pub pd1: PD1,
    /// Pin
    pub pd2: PD2,
    /// Pin
    pub pd3: PD3,
    /// Pin
    pub pd4: PD4,
    /// Pin
    pub pd5: PD5,
    /// Pin
    pub pd6: PD6,
    /// Pin
    pub pd7: PD7,
    /// Pin
    pub pd8: PD8,
    /// Pin
    pub pd9: PD9,
    /// Pin
    pub pd10: PD10,
    /// Pin
    pub pd11: PD11,
    /// Pin
    pub pd12: PD12,
    /// Pin
    pub pd13: PD13,
    /// Pin
    pub pd14: PD14,
    /// Pin
    pub pd15: PD15,
}

impl GpioExt for Gpiod {
    type Parts = Parts;

    fn split(self, rcc: &mut Rcc) -> (parts: Parts) {
        // Enable clock.
        Gpiod::enable(rcc);
        Gpiod::reset(rcc);
        Parts {
            pd0: Pin::new(),
            pd1: Pin::new(),
            pd2: Pin::new(),
            pd3: Pin::new(),
            pd4: Pin::new(),
            pd5: Pin::new(),
            pd6: Pin::new(),
            pd7: Pin::new(),
            pd8: Pin::new(),
            pd9: Pin::new(),
            pd10: Pin::new(),
            pd11: Pin::new(),
            pd12: Pin::new(),
            pd13: Pin::new(),
            pd14: Pin::new(),
            pd15: Pin::new(),
        }
    }
}

/// Common type for GPIOD related pins
pub type PDn<MODE> = PartiallyErasedPin<PORT_D, MODE>;

/// PD0 pin
pub type PD0<MODE = Input<Floating>> = Pin<PORT_D, 0, MODE>;

/// PD1 pin
pub type PD1<MODE = Input<Floating>> = Pin<PORT_D, 1, MODE>;

/// PD2 pin
pub type PD2<MODE = Input<Floating>> = Pin<PORT_D, 2, MODE>;

/// PD3 pin
pub type PD3<MODE = Input<Floating>> = Pin<PORT_D, 3, MODE>;

/// PD4 pin
pub type PD4<MODE = Input<Floating>> = Pin<PORT_D, 4, MODE>;

/// PD5 pin
pub type PD5<MODE = Input<Floating>> = Pin<PORT_D, 5, MODE>;

/// PD6 pin
pub type PD6<MODE = Input<Floating>> = Pin<PORT_D, 6, MODE>;

/// PD7 pin
pub type PD7<MODE = Input<Floating>> = Pin<PORT_D, 7, MODE>;

/// PD8 pin
pub type PD8<MODE = Input<Floating>> = Pin<PORT_D, 8, MODE>;

/// PD9 pin
pub type PD9<MODE = Input<Floating>> = Pin<PORT_D, 9, MODE>;

/// PD10 pin
pub type PD10<MODE = Input<Floating>> = Pin<PORT_D, 10, MODE>;

/// PD11 pin
pub type PD11<MODE = Input<Floating>> = Pin<PORT_D, 11, MODE>;

/// PD12 pin
pub type PD12<MODE = Input<Floating>> = Pin<PORT_D, 12, MODE>;

/// PD13 pin
pub type PD13<MODE = Input<Floating>> = Pin<PORT_D, 13, MODE>;

/// PD14 pin
pub type PD14<MODE = Input<Floating>> = Pin<PORT_D, 14, MODE>;

/// PD15 pin
pub type PD15<MODE = Input<Floating>> = Pin<PORT_D, 15, MODE>;

} // verus!
