//! Which pin can carry which peripheral signal.
//!
//! A peripheral's signals reach the pins through a multiplexer with a few
//! settings. Each setting is a type that implements [`Remap`]: it knows the
//! remap bits that select it and the pins that the peripheral is wired to
//! with it. A pin type implements [`RemapIO`] for a peripheral and a setting
//! only where the pin is in that setting's table, so a driver that asks for
//! `RemapIO` cannot be given a pin that is not connected.

use vstd::prelude::*;
use core::marker::PhantomData;
use crate::gpio::Pin;
use crate::pac::Afio;

pub mod spi1;
pub mod spi2;
pub mod spi3;
pub mod tim1;
pub mod tim2;
pub mod tim8;
pub mod uart4;
pub mod uart5;
pub mod uart6;
pub mod uart7;
pub mod usart1;
pub mod usart2;
pub mod usart3;

verus! {

/// A peripheral together with the pins that serve it
pub struct Remapper<MODULE, PINS> {
    _mod: PhantomData<MODULE>,
    _pins: PhantomData<PINS>,
}

/// A pin, by port and number, as far as its type tells.
pub trait Located {
    /// Name of the pin's port
    spec fn spec_port() -> u8;

    /// The pin's number within its port
    spec fn spec_number() -> u8;
}

impl<const P: u8, const N: u8, MODE> Located for Pin<P, N, MODE> {
    open spec fn spec_port() -> u8 {
        P
    }

    open spec fn spec_number() -> u8 {
        N
    }
}

/// A pin that the peripheral `PER` is wired to under the setting `Remapper`
pub trait RemapIO<PER, Remapper: Remap>: Located {
    /// The pin is in the setting's table.
    proof fn lemma_wired()
        ensures
            Remapper::wired(Self::spec_port(), Self::spec_number()),
    ;
}

/// One setting of a peripheral's pin multiplexer
pub trait Remap {
    /// The remap registers once the setting is selected: the peripheral's
    /// remap bits hold the setting's pattern, every other bit is as before.
    spec fn remapped(afio: Afio) -> Afio;

    /// Whether the peripheral is wired to pin `pin` of the port named `port`
    /// under this setting.
    spec fn wired(port: u8, pin: u8) -> bool;

    /// Selects the setting.
    fn remap(afio: &mut Afio)
        ensures
            *final(afio) == Self::remapped(*old(afio)),
    ;
}

/// A pin type with a `RemapIO` for a peripheral and a setting is in that
/// setting's table.
pub proof fn lemma_wired_pin<PIN: RemapIO<PER, R>, PER, R: Remap>()
    ensures
        R::wired(PIN::spec_port(), PIN::spec_number()),
{
    PIN::lemma_wired();
}

} // verus!
