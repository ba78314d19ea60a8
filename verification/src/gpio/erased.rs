//! Pins whose port and number are kept at run time.

use vstd::prelude::*;
use core::marker::PhantomData;
use crate::gpio::PinExt;

verus! {

/// Fully erased pin
///
/// `MODE` is one of the pin modes (see [Modes](crate::gpio#modes) section).
pub struct ErasedPin<MODE> {
    // Bits 0-3: Pin, Bits 4-7: Port
    pin_port: u8,
    _mode: PhantomData<MODE>,
}

/// The byte that holds a port's number above a pin's number.
pub open spec fn pin_port_of(port: u8, pin: u8) -> u8 {
    (port << 4u8) | pin
}

/// The pin's number and the port's number are read back from the byte that
/// holds both.
pub proof fn lemma_pin_port(port: u8, pin: u8)
    requires
        port < 16,
        pin < 16,
    ensures
        pin_port_of(port, pin) & 0x0fu8 == pin,
        pin_port_of(port, pin) >> 4u8 == port,
{
    assert((((port << 4u8) | pin) & 0x0fu8) == pin) by (bit_vector)
        requires
            port < 16,
            pin < 16,
    ;
    assert((((port << 4u8) | pin) >> 4u8) == port) by (bit_vector)
        requires
            port < 16,
            pin < 16,
    ;
}

impl<MODE> ErasedPin<MODE> {
    /// An erased pin lies on one of the seven ports.
    #[verifier::type_invariant]
    pub closed spec fn located(self) -> bool {
        self.pin_port >> 4u8 < 7
    }

    pub(crate) fn from_pin_port(pin_port: u8) -> (pin: Self)
        requires
            pin_port >> 4u8 < 7,
        ensures
            pin.spec_pin_port() == pin_port,
            pin.spec_pin_id() == pin_port & 0x0fu8,
            pin.spec_port_id() == pin_port >> 4u8,
    {
        Self { pin_port, _mode: PhantomData }
    }

    pub(crate) fn into_pin_port(self) -> (pin_port: u8)
        ensures
            pin_port == self.spec_pin_port(),
            pin_port & 0x0fu8 == self.spec_pin_id(),
            pin_port >> 4u8 == self.spec_port_id(),
            pin_port >> 4u8 < 7,
    {
        proof {
            use_type_invariant(&self);
        }
        self.pin_port
    }

    pub(crate) fn new(port: u8, pin: u8) -> (erased: Self)
        requires
            port < 7,
            pin < 16,
        ensures
            erased.spec_pin_id() == pin,
            erased.spec_port_id() == port,
    {
        proof {
            lemma_pin_port(port, pin);
        }
        Self { pin_port: (port << 4u8) | pin, _mode: PhantomData }
    }

    /// The byte that holds the port's number above the pin's number.
    pub closed spec fn spec_pin_port(self) -> u8 {
        self.pin_port
    }
}

impl<MODE> PinExt for ErasedPin<MODE> {
    type Mode = MODE;

    closed spec fn spec_pin_id(&self) -> u8 {
        self.pin_port & 0x0fu8
    }

    closed spec fn spec_port_id(&self) -> u8 {
        self.pin_port >> 4u8
    }

    fn pin_id(&self) -> (n: u8) {
        let pin_port: u8 = self.pin_port;
        assert(pin_port & 0x0fu8 < 16) by (bit_vector);
        pin_port & 0x0fu8
    }

    fn port_id(&self) -> (p: u8) {
        proof {
            use_type_invariant(self);
        }
        self.pin_port >> 4u8
    }
}

} // verus!
