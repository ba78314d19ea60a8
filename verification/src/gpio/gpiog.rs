//! Port G: its pins and how to get them.

use vstd::prelude::*;
use crate::gpio::port::PORT_G;
use crate::gpio::Floating;
use crate::gpio::GpioExt;
use crate::gpio::Input;
use crate::gpio::PartiallyErasedPin;
use crate::gpio::Pin;
use crate::pac::Gpiog;
use crate::pac::Rcc;
use crate::rcc::Enable;
use crate::rcc::Reset;

verus! {

/// GPIO parts
pub struct Parts {
    /// Pin
    pub pg0: PG0,
    /// Pin
    pub pg1: PG1,
    /// Pin
    pub pg2: PG2,
    /// Pin
    pub pg3: PG3,
    /// Pin
    pub pg4: PG4,
    /// Pin
    pub pg5: PG5,
    /// Pin
    pub pg6: PG6,
    /// Pin
    pub pg7: PG7,
    /// Pin
    pub pg8: PG8,
    /// Pin
    pub pg9: PG9,
    /// Pin
    pub pg10: PG10,
    /// Pin
    pub pg11: PG11,
    /// Pin
    pub pg12: PG12,
    /// Pin
    pub pg13: PG13,
    /// Pin
    pub pg14: PG14,
    /// Pin
    pub pg15: PG15,
}

impl GpioExt for Gpiog {
    type Parts = Parts;

    fn split(self, rcc: &mut Rcc) -> (parts: Parts) {
        // Enable clock.
        Gpiog::enable(rcc);
        Gpiog::reset(rcc);
        Parts {
            pg0: Pin::new(),
            pg1: Pin::new(),
            pg2: Pin::new(),
            pg3: Pin::new(),
            pg4: Pin::new(),
            pg5: Pin::new(),
            pg6: Pin::new(),
            pg7: Pin::new(),
            pg8: Pin::new(),
            pg9: Pin::new(),
            pg10: Pin::new(),
            pg11: Pin::new(),
            pg12: Pin::new(),
            pg13: Pin::new(),
            pg14: Pin::new(),
            pg15: Pin::new(),
        }
    }
}

/// Common type for GPIOG related pins
pub type PGn<MODE> = PartiallyErasedPin<PORT_G, MODE>;

/// PG0 pin
pub type PG0<MODE = Input<Floating>> = Pin<PORT_G, 0, MODE>;

/// PG1 pin
pub type PG1<MODE = Input<Floating>> = Pin<PORT_G, 1, MODE>;

/// PG2 pin
pub type PG2<MODE = Input<Floating>> = Pin<PORT_G, 2, MODE>;

/// PG3 pin
pub type PG3<MODE = Input<Floating>> = Pin<PORT_G, 3, MODE>;

/// PG4 pin
pub type PG4<MODE = Input<Floating>> = Pin<PORT_G, 4, MODE>;

/// PG5 pin
pub type PG5<MODE = Input<Floating>> = Pin<PORT_G, 5, MODE>;

/// PG6 pin
pub type PG6<MODE = Input<Floating>> = Pin<PORT_G, 6, MODE>;

/// PG7 pin
pub type PG7<MODE = Input<Floating>> = Pin<PORT_G, 7, MODE>;

/// PG8 pin
pub type PG8<MODE = Input<Floating>> = Pin<PORT_G, 8, MODE>;

/// PG9 pin
pub type PG9<MODE = Input<Floating>> = Pin<PORT_G, 9, MODE>;

/// PG10 pin
pub type PG10<MODE = Input<Floating>> = Pin<PORT_G, 10, MODE>;

/// PG11 pin
pub type PG11<MODE = Input<Floating>> = Pin<PORT_G, 11, MODE>;

/// PG12 pin
pub type PG12<MODE = Input<Floating>> = Pin<PORT_G, 12, MODE>;

/// PG13 pin
pub type PG13<MODE = Input<Floating>> = Pin<PORT_G, 13, MODE>;

/// PG14 pin
pub type PG14<MODE = Input<Floating>> = Pin<PORT_G, 14, MODE>;

/// PG15 pin
pub type PG15<MODE = Input<Floating>> = Pin<PORT_G, 15, MODE>;

} // verus!
