//! Pins in the service of a peripheral.

use vstd::prelude::*;
use crate::pac::Gpio;

pub mod altmap;

verus! {

/// A pin that can be taken for the signal `S`: it is put into the signal's
/// alternate mode and wrapped.
pub trait IntoSignal<S>: Sized {
    /// The GPIO registers after the pin was put into the signal's alternate
    /// mode.
    spec fn taken(gpio: Gpio) -> Gpio;

    /// Puts the pin into the signal's alternate mode and takes it for the
    /// signal.
    fn into_signal(self, gpio: &mut Gpio) -> (signal: S)
        ensures
            *final(gpio) == Self::taken(*old(gpio)),
    ;
}

// CAN pins
pub trait CanCommon {
    type Rx;

    type Tx;
}

// Serial pins, for an input kind `Itype` and an output kind `Otype`
pub trait SerialAsync<Itype, Otype> {
    /// Receive
    type Rx;

    /// Transmit
    type Tx;
}

/// Synchronous mode
pub trait SerialSync<Itype, Otype> {
    /// Receive
    type Rx;

    /// Transmit
    type Tx;

    /// Clock
    type Ck;
}

/// Hardware flow control (RS232)
pub trait SerialRs232<Itype, Otype> {
    /// Receive
    type Rx;

    /// Transmit
    type Tx;

    /// Clear To Send
    type Cts;

    /// Request To Send
    type Rts;
}

// I2C pins
pub trait I2cCommon {
    type Scl;

    type Sda;

    type Smba;
}

// I2S pins
pub trait I2sCommon {
    type Ck: crate::gpio::PinSpeed;

    type Sd;

    type Ws: crate::gpio::ReadPin;
}

pub trait I2sMaster {
    type Mck;
}

pub trait I2sExtPin {
    type ExtSd;
}

// QuadSPI pins
pub trait QuadSpi {
    type Io0: crate::gpio::PinSpeed;

    type Io1: crate::gpio::PinSpeed;

    type Io2: crate::gpio::PinSpeed;

    type Io3: crate::gpio::PinSpeed;

    type Ncs: crate::gpio::PinSpeed;
}

// SPI pins
pub trait SpiCommon {
    type Miso;

    type Mosi;

    type Nss;

    type Sck;
}

// Timer pins
/// Input capture / Output compare channel `C`, for an output kind `Otype`
pub trait TimCPin<const C: u8, Otype> {
    type Ch;
}

/// Complementary output channel `C`, for an output kind `Otype`
pub trait TimNCPin<const C: u8, Otype> {
    type ChN;
}

/// Break input
pub trait TimBkin {
    type Bkin;
}

/// External trigger timer input
pub trait TimEtr {
    type Etr;
}

} // verus!
