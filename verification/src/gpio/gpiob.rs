//! Port B: its pins and how to get them.

use vstd::prelude::*;
use crate::gpio::port::PORT_B;
use crate::gpio::Floating;
use crate::gpio::GpioExt;
use crate::gpio::Input;
use crate::gpio::PartiallyErasedPin;
use crate::gpio::Pin;
use crate::pac::Gpiob;
use crate::pac::Rcc;
use crate::rcc::Enable;
use crate::rcc::Reset;

verus! {

/// GPIO parts
pub struct Parts {
    /// Pin
    pub pb0: PB0,
    /// Pin
    pub pb1: PB1,
    /// Pin
    pub pb2: PB2,
    /// Pin
    pub pb3: PB3<crate::gpio::Debugger>,
    /// Pin
    pub pb4: PB4<crate::gpio::Debugger>,
    /// Pin
    pub pb5: PB5,
    /// Pin
    pub pb6: PB6,
    /// Pin
    pub pb7: PB7,
    /// Pin
    pub pb8: PB8,
    /// Pin
    pub pb9: PB9,
    /// Pin
    pub pb10: PB10,
    /// Pin
    pub pb11: PB11,
    /// Pin
    pub pb12: PB12,
    /// Pin
    pub pb13: PB13,
    /// Pin
    pub pb14: PB14,
    /// Pin
    pub pb15: PB15,
}

impl GpioExt for Gpiob {
    type Parts = Parts;

    fn split(self, rcc: &mut Rcc) -> (parts: Parts) {
        // Enable clock.
        Gpiob::enable(rcc);
        Gpiob::reset(rcc);
        Parts {
            pb0: Pin::new(),
            pb1: Pin::new(),
            pb2: Pin::new(),
            pb3: Pin::new(),
            pb4: Pin::new(),
            pb5: Pin::new(),
            pb6: Pin::new(),
            pb7: Pin::new(),
            pb8: Pin::new(),
            pb9: Pin::new(),
            pb10: Pin::new(),
            pb11: Pin::new(),
            pb12: Pin::new(),
            pb13: Pin::new(),
            pb14: Pin::new(),
            pb15: Pin::new(),
        }
    }
}

/// Common type for GPIOB related pins
pub type PBn<MODE> = PartiallyErasedPin<PORT_B, MODE>;

/// PB0 pin
pub type PB0<MODE = Input<Floating>> = Pin<PORT_B, 0, MODE>;

/// PB1 pin
pub type PB1<MODE = Input<Floating>> = Pin<PORT_B, 1, MODE>;

/// PB2 pin
pub type PB2<MODE = Input<Floating>> = Pin<PORT_B, 2, MODE>;

/// PB3 pin
pub type PB3<MODE = Input<Floating>> = Pin<PORT_B, 3, MODE>;

/// PB4 pin
pub type PB4<MODE = Input<Floating>> = Pin<PORT_B, 4, MODE>;

/// PB5 pin
pub type PB5<MODE = Input<Floating>> = Pin<PORT_B, 5, MODE>;

/// PB6 pin
pub type PB6<MODE = Input<Floating>> = Pin<PORT_B, 6, MODE>;

/// PB7 pin
pub type PB7<MODE = Input<Floating>> = Pin<PORT_B, 7, MODE>;

/// PB8 pin
pub type PB8<MODE = Input<Floating>> = Pin<PORT_B, 8, MODE>;

/// PB9 pin
pub type PB9<MODE = Input<Floating>> = Pin<PORT_B, 9, MODE>;

/// PB10 pin
pub type PB10<MODE = Input<Floating>> = Pin<PORT_B, 10, MODE>;

/// PB11 pin
pub type PB11<MODE = Input<Floating>> = Pin<PORT_B, 11, MODE>;

/// PB12 pin
pub type PB12<MODE = Input<Floating>> = Pin<PORT_B, 12, MODE>;

/// PB13 pin
pub type PB13<MODE = Input<Floating>> = Pin<PORT_B, 13, MODE>;

/// PB14 pin
pub type PB14<MODE = Input<Floating>> = Pin<PORT_B, 14, MODE>;

/// PB15 pin
pub type PB15<MODE = Input<Floating>> = Pin<PORT_B, 15, MODE>;

} // verus!
