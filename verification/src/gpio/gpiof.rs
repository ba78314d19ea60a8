//! Port F: its pins and how to get them.

use vstd::prelude::*;
use crate::gpio::port::PORT_F;
use crate::gpio::Floating;
use crate::gpio::GpioExt;
use crate::gpio::Input;
use crate::gpio::PartiallyErasedPin;
use crate::gpio::Pin;
use crate::pac::Gpiof;
use crate::pac::Rcc;
use crate::rcc::Enable;
use crate::rcc::Reset;

verus! {

/// GPIO parts
pub struct Parts {
    /// Pin
    pub pf0: PF0,
    /// Pin
    pub pf1: PF1,
    /// Pin
    pub pf2: PF2,
    /// Pin
    pub pf3: PF3,
    /// Pin
    pub pf4: PF4,
    /// Pin
    pub pf5: PF5,
    /// Pin
    pub pf6: PF6,
    /// Pin
    pub pf7: PF7,
    /// Pin
    pub pf8: PF8,
    /// Pin
    pub pf9: PF9,
    /// Pin
    pub pf10: PF10,
    /// Pin
    pub pf11: PF11,
    /// Pin
    pub pf12: PF12,
    /// Pin
    pub pf13: PF13,
    /// Pin
    pub pf14: PF14,
    /// Pin
    pub pf15: PF15,
}

impl GpioExt for Gpiof {
    type Parts = Parts;

    fn split(self, rcc: &mut Rcc) -> (parts: Parts) {
        // Enable clock.
        Gpiof::enable(rcc);
        Gpiof::reset(rcc);
        Parts {
            pf0: Pin::new(),
            pf1: Pin::new(),
            pf2: Pin::new(),
            pf3: Pin::new(),
            pf4: Pin::new(),
            pf5: Pin::new(),
            pf6: Pin::new(),
            pf7: Pin::new(),
            pf8: Pin::new(),
            pf9: Pin::new(),
            pf10: Pin::new(),
            pf11: Pin::new(),
            pf12: Pin::new(),
            pf13: Pin::new(),
            pf14: Pin::new(),
            pf15: Pin::new(),
        }
    }
}

/// Common type for GPIOF related pins
pub type PFn<MODE> = PartiallyErasedPin<PORT_F, MODE>;

/// PF0 pin
pub type PF0<MODE = Input<Floating>> = Pin<PORT_F, 0, MODE>;

/// PF1 pin
pub type PF1<MODE = Input<Floating>> = Pin<PORT_F, 1, MODE>;

/// PF2 pin
pub type PF2<MODE = Input<Floating>> = Pin<PORT_F, 2, MODE>;

/// PF3 pin
pub type PF3<MODE = Input<Floating>> = Pin<PORT_F, 3, MODE>;

/// PF4 pin
pub type PF4<MODE = Input<Floating>> = Pin<PORT_F, 4, MODE>;

/// PF5 pin
pub type PF5<MODE = Input<Floating>> = Pin<PORT_F, 5, MODE>;

/// PF6 pin
pub type PF6<MODE = Input<Floating>> = Pin<PORT_F, 6, MODE>;

/// PF7 pin
pub type PF7<MODE = Input<Floating>> = Pin<PORT_F, 7, MODE>;

/// PF8 pin
pub type PF8<MODE = Input<Floating>> = Pin<PORT_F, 8, MODE>;

/// PF9 pin
pub type PF9<MODE = Input<Floating>> = Pin<PORT_F, 9, MODE>;

/// PF10 pin
pub type PF10<MODE = Input<Floating>> = Pin<PORT_F, 10, MODE>;

/// PF11 pin
pub type PF11<MODE = Input<Floating>> = Pin<PORT_F, 11, MODE>;

/// PF12 pin
pub type PF12<MODE = Input<Floating>> = Pin<PORT_F, 12, MODE>;

/// PF13 pin
pub type PF13<MODE = Input<Floating>> = Pin<PORT_F, 13, MODE>;

/// PF14 pin
pub type PF14<MODE = Input<Floating>> = Pin<PORT_F, 14, MODE>;

/// PF15 pin
pub type PF15<MODE = Input<Floating>> = Pin<PORT_F, 15, MODE>;

} // verus!
