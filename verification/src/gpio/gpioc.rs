//! Port C: its pins and how to get them.

use vstd::prelude::*;
use crate::gpio::port::PORT_C;
use crate::gpio::Floating;
use crate::gpio::GpioExt;
use crate::gpio::Input;
use crate::gpio::PartiallyErasedPin;
use crate::gpio::Pin;
use crate::pac::Gpioc;
use crate::pac::Rcc;
use crate::rcc::Enable;
use crate::rcc::Reset;

verus! {

/// GPIO parts
pub struct Parts {
    /// Pin
    pub pc0: PC0,
    /// Pin
    pub pc1: PC1,
    /// Pin
    pub pc2: PC2,
    /// Pin
    pub pc3: PC3,
    /// Pin
    pub pc4: PC4,
    /// Pin
    pub pc5: PC5,
    /// Pin
    pub pc6: PC6,
    /// Pin
    pub pc7: PC7,
    /// Pin
    pub pc8: PC8,
    /// Pin
    pub pc9: PC9,
    /// Pin
    pub pc10: PC10,
    /// Pin
    pub pc11: PC11,
    /// Pin
    pub pc12: PC12,
    /// Pin
    pub pc13: PC13,
    /// Pin
    pub pc14: PC14,
    /// Pin
    pub pc15: PC15,
}

impl GpioExt for Gpioc {
    type Parts = Parts;

    fn split(self, rcc: &mut Rcc) -> (parts: Parts) {
        // Enable clock.
        Gpioc::enable(rcc);
        Gpioc::reset(rcc);
        Parts {
            pc0: Pin::new(),
            pc1: Pin::new(),
            pc2: Pin::new(),
            pc3: Pin::new(),
            pc4: Pin::new(),
            pc5: Pin::new(),
            pc6: Pin::new(),
            pc7: Pin::new(),
            pc8: Pin::new(),
            pc9: Pin::new(),
            pc10: Pin::new(),
            pc11: Pin::new(),
            pc12: Pin::new(),
            pc13: Pin::new(),
            pc14: Pin::new(),
            pc15: Pin::new(),
        }
    }
}

/// Common type for GPIOC related pins
pub type PCn<MODE> = PartiallyErasedPin<PORT_C, MODE>;

/// PC0 pin
pub type PC0<MODE = Input<Floating>> = Pin<PORT_C, 0, MODE>;

/// PC1 pin
pub type PC1<MODE = Input<Floating>> = Pin<PORT_C, 1, MODE>;

/// PC2 pin
pub type PC2<MODE = Input<Floating>> = Pin<PORT_C, 2, MODE>;

/// PC3 pin
pub type PC3<MODE = Input<Floating>> = Pin<PORT_C, 3, MODE>;

/// PC4 pin
pub type PC4<MODE = Input<Floating>> = Pin<PORT_C, 4, MODE>;

/// PC5 pin
pub type PC5<MODE = Input<Floating>> = Pin<PORT_C, 5, MODE>;

/// PC6 pin
pub type PC6<MODE = Input<Floating>> = Pin<PORT_C, 6, MODE>;

/// PC7 pin
pub type PC7<MODE = Input<Floating>> = Pin<PORT_C, 7, MODE>;

/// PC8 pin
pub type PC8<MODE = Input<Floating>> = Pin<PORT_C, 8, MODE>;

/// PC9 pin
pub type PC9<MODE = Input<Floating>> = Pin<PORT_C, 9, MODE>;

/// PC10 pin
pub type PC10<MODE = Input<Floating>> = Pin<PORT_C, 10, MODE>;

/// PC11 pin
pub type PC11<MODE = Input<Floating>> = Pin<PORT_C, 11, MODE>;

/// PC12 pin
pub type PC12<MODE = Input<Floating>> = Pin<PORT_C, 12, MODE>;

/// PC13 pin
pub type PC13<MODE = Input<Floating>> = Pin<PORT_C, 13, MODE>;

/// PC14 pin
pub type PC14<MODE = Input<Floating>> = Pin<PORT_C, 14, MODE>;

/// PC15 pin
pub type PC15<MODE = Input<Floating>> = Pin<PORT_C, 15, MODE>;

} // verus!
