//! Power control.

use vstd::prelude::*;
use crate::pac::Pwr;
use crate::pac::Rcc;
use crate::rcc::after_enable;
use crate::rcc::after_reset;
use crate::rcc::Enable;
use crate::rcc::Reset;

verus! {

/// Extension trait that prepares the power control block for use
pub trait PwrExt {
    /// Enables the block's clock, resets the block and hands it out.
    fn constrain(self, rcc: &mut Rcc) -> (pwr: Pwr)
        ensures
            *final(rcc) == after_reset::<Pwr>(after_enable::<Pwr>(*old(rcc))),
    ;
}

impl PwrExt for Pwr {
    fn constrain(self, rcc: &mut Rcc) -> (pwr: Pwr) {
        Pwr::enable(rcc);
        Pwr::reset(rcc);
        self
    }
}

} // verus!
