//! Pins whose number is kept at run time.

use vstd::prelude::*;
use core::marker::PhantomData;
use crate::gpio::port::is_port;
use crate::gpio::port::PORT_A;
use crate::gpio::PinExt;

verus! {

/// Partially erased pin
///
/// - `MODE` is one of the pin modes (see [Modes](crate::gpio#modes) section).
/// - `P` is port name: `PORT_A` for GPIOA, `PORT_B` for GPIOB, etc.
pub struct PartiallyErasedPin<const P: u8, MODE> {
    pub(crate) i: u8,
    _mode: PhantomData<MODE>,
}

impl<const P: u8, MODE> PartiallyErasedPin<P, MODE> {
    /// A pin exists only on one of the ports A to G and with a number below 16.
    #[verifier::type_invariant]
    pub closed spec fn located(self) -> bool {
        is_port(P) && self.i < 16
    }

    pub(crate) fn new(i: u8) -> (pin: Self)
        requires
            is_port(P),
            i < 16,
        ensures
            pin.spec_pin_id() == i,
    {
        Self { i, _mode: PhantomData }
    }
}

impl<const P: u8, MODE> PinExt for PartiallyErasedPin<P, MODE> {
    type Mode = MODE;

    closed spec fn spec_pin_id(&self) -> u8 {
        self.i
    }

    open spec fn spec_port_id(&self) -> u8 {
        (P - PORT_A) as u8
    }

    fn pin_id(&self) -> (n: u8) {
        proof {
            use_type_invariant(self);
        }
        self.i
    }

    fn port_id(&self) -> (p: u8)
        ensures
            p == P - PORT_A,
    {
        proof {
            use_type_invariant(self);
        }
        P - PORT_A
    }
}

} // verus!
