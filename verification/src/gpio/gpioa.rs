//! Port A: its pins and how to get them.

use vstd::prelude::*;
use crate::gpio::port::PORT_A;
use crate::gpio::Floating;
use crate::gpio::GpioExt;
use crate::gpio::Input;
use crate::gpio::PartiallyErasedPin;
use crate::gpio::Pin;
use crate::pac::Gpioa;
use crate::pac::Rcc;
use crate::rcc::Enable;
use crate::rcc::Reset;

verus! {

/// GPIO parts
pub struct Parts {
    /// Pin
    pub pa0: PA0,
    /// Pin
    pub pa1: PA1,
    /// Pin
    pub pa2: PA2,
    /// Pin
    pub pa3: PA3,
    /// Pin
    pub pa4: PA4,
    /// Pin
    pub pa5: PA5,
    /// Pin
    pub pa6: PA6,
    /// Pin
    pub pa7: PA7,
    /// Pin
    pub pa8: PA8,
    /// Pin
    pub pa9: PA9,
    /// Pin
    pub pa10: PA10,
    /// Pin
    pub pa11: PA11,
    /// Pin
    pub pa12: PA12,
    /// Pin
    pub pa13: PA13<crate::gpio::Debugger>,
    /// Pin
    pub pa14: PA14<crate::gpio::Debugger>,
    /// Pin
    pub pa15: PA15<crate::gpio::Debugger>,
}

impl GpioExt for Gpioa {
    type Parts = Parts;

    fn split(self, rcc: &mut Rcc) -> (parts: Parts) {
        // Enable clock.
        Gpioa::enable(rcc);
        Gpioa::reset(rcc);
        Parts {
            pa0: Pin::new(),
            pa1: Pin::new(),
            pa2: Pin::new(),
            pa3: Pin::new(),
            pa4: Pin::new(),
            pa5: Pin::new(),
            pa6: Pin::new(),
            pa7: Pin::new(),
            pa8: Pin::new(),
            pa9: Pin::new(),
            pa10: Pin::new(),
            pa11: Pin::new(),
            pa12: Pin::new(),
            pa13: Pin::new(),
            pa14: Pin::new(),
            pa15: Pin::new(),
        }
    }
}

/// Common type for GPIOA related pins
pub type PAn<MODE> = PartiallyErasedPin<PORT_A, MODE>;

/// PA0 pin
pub type PA0<MODE = Input<Floating>> = Pin<PORT_A, 0, MODE>;

/// PA1 pin
pub type PA1<MODE = Input<Floating>> = Pin<PORT_A, 1, MODE>;

/// PA2 pin
pub type PA2<MODE = Input<Floating>> = Pin<PORT_A, 2, MODE>;

/// PA3 pin
pub type PA3<MODE = Input<Floating>> = Pin<PORT_A, 3, MODE>;

/// PA4 pin
pub type PA4<MODE = Input<Floating>> = Pin<PORT_A, 4, MODE>;

/// PA5 pin
pub type PA5<MODE = Input<Floating>> = Pin<PORT_A, 5, MODE>;

/// PA6 pin
pub type PA6<MODE = Input<Floating>> = Pin<PORT_A, 6, MODE>;

/// PA7 pin
pub type PA7<MODE = Input<Floating>> = Pin<PORT_A, 7, MODE>;

/// PA8 pin
pub type PA8<MODE = Input<Floating>> = Pin<PORT_A, 8, MODE>;

/// PA9 pin
pub type PA9<MODE = Input<Floating>> = Pin<PORT_A, 9, MODE>;

/// PA10 pin
pub type PA10<MODE = Input<Floating>> = Pin<PORT_A, 10, MODE>;

/// PA11 pin
pub type PA11<MODE = Input<Floating>> = Pin<PORT_A, 11, MODE>;

/// PA12 pin
pub type PA12<MODE = Input<Floating>> = Pin<PORT_A, 12, MODE>;

/// PA13 pin
pub type PA13<MODE = Input<Floating>> = Pin<PORT_A, 13, MODE>;

/// PA14 pin
pub type PA14<MODE = Input<Floating>> = Pin<PORT_A, 14, MODE>;

/// PA15 pin
pub type PA15<MODE = Input<Floating>> = Pin<PORT_A, 15, MODE>;

} // verus!
