//! Port E: its pins and how to get them.

use vstd::prelude::*;
use crate::gpio::port::PORT_E;
use crate::gpio::Floating;
use crate::gpio::GpioExt;
use crate::gpio::Input;
use crate::gpio::PartiallyErasedPin;
use crate::gpio::Pin;
use crate::pac::Gpioe;
use crate::pac::Rcc;
use crate::rcc::Enable;
use crate::rcc::Reset;

verus! {

/// GPIO parts
pub struct Parts {
    /// Pin
    pub pe0: PE0,
    /// Pin
    pub pe1: PE1,
    /// Pin
    pub pe2: PE2,
    /// Pin
    pub pe3: PE3,
    /// Pin
    pub pe4: PE4,
    /// Pin
    pub pe5: PE5,
    /// Pin
    pub pe6: PE6,
    /// Pin
    pub pe7: PE7,
    /// Pin
    pub pe8: PE8,
    /// Pin
    pub pe9: PE9,
    /// Pin
    pub pe10: PE10,
    /// Pin
    pub pe11: PE11,
    /// Pin
    pub pe12: PE12,
    /// Pin
    pub pe13: PE13,
    /// Pin
    pub pe14: PE14,
    /// Pin
    pub pe15: PE15,
}

impl GpioExt for Gpioe {
    type Parts = Parts;

    fn split(self, rcc: &mut Rcc) -> (parts: Parts) {
        // Enable clock.
        Gpioe::enable(rcc);
        Gpioe::reset(rcc);
        Parts {
            pe0: Pin::new(),
            pe1: Pin::new(),
            pe2: Pin::new(),
            pe3: Pin::new(),
            pe4: Pin::new(),
            pe5: Pin::new(),
            pe6: Pin::new(),
            pe7: Pin::new(),
            pe8: Pin::new(),
            pe9: Pin::new(),
            pe10: Pin::new(),
            pe11: Pin::new(),
            pe12: Pin::new(),
            pe13: Pin::new(),
            pe14: Pin::new(),
            pe15: Pin::new(),
        }
    }
}

/// Common type for GPIOE related pins
pub type PEn<MODE> = PartiallyErasedPin<PORT_E, MODE>;

/// PE0 pin
pub type PE0<MODE = Input<Floating>> = Pin<PORT_E, 0, MODE>;

/// PE1 pin
pub type PE1<MODE = Input<Floating>> = Pin<PORT_E, 1, MODE>;

/// PE2 pin
pub type PE2<MODE = Input<Floating>> = Pin<PORT_E, 2, MODE>;

/// PE3 pin
pub type PE3<MODE = Input<Floating>> = Pin<PORT_E, 3, MODE>;

/// PE4 pin
pub type PE4<MODE = Input<Floating>> = Pin<PORT_E, 4, MODE>;

/// PE5 pin
pub type PE5<MODE = Input<Floating>> = Pin<PORT_E, 5, MODE>;

/// PE6 pin
pub type PE6<MODE = Input<Floating>> = Pin<PORT_E, 6, MODE>;

/// PE7 pin
pub type PE7<MODE = Input<Floating>> = Pin<PORT_E, 7, MODE>;

/// PE8 pin
pub type PE8<MODE = Input<Floating>> = Pin<PORT_E, 8, MODE>;

/// PE9 pin
pub type PE9<MODE = Input<Floating>> = Pin<PORT_E, 9, MODE>;

/// PE10 pin
pub type PE10<MODE = Input<Floating>> = Pin<PORT_E, 10, MODE>;

/// PE11 pin
pub type PE11<MODE = Input<Floating>> = Pin<PORT_E, 11, MODE>;

/// PE12 pin
pub type PE12<MODE = Input<Floating>> = Pin<PORT_E, 12, MODE>;

/// PE13 pin
pub type PE13<MODE = Input<Floating>> = Pin<PORT_E, 13, MODE>;

/// PE14 pin
pub type PE14<MODE = Input<Floating>> = Pin<PORT_E, 14, MODE>;

/// PE15 pin
pub type PE15<MODE = Input<Floating>> = Pin<PORT_E, 15, MODE>;

} // verus!
