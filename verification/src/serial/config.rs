//! How a serial port is to be set up.

use vstd::prelude::*;

verus! {

/// Number of data bits in a frame
#[derive(Debug, Clone, Copy, PartialEq, Eq, Structural)]
pub enum WordLength {
    DataBits8,
    DataBits9,
}

/// Parity generation and check
#[derive(Debug, Clone, Copy, PartialEq, Eq, Structural)]
pub enum Parity {
    ParityNone,
    ParityEven,
    ParityOdd,
}

/// Number of stop bits in a frame
#[allow(non_camel_case_types)]
#[derive(Debug, Clone, Copy, PartialEq, Eq, Structural)]
pub enum StopBits {
    /// 1 stop bit
    STOP1,
    /// 0.5 stop bits
    STOP0P5,
    /// 2 stop bits
    STOP2,
    /// 1.5 stop bits
    STOP1P5,
}

impl StopBits {
    /// The two bits that select the number of stop bits.
    pub open spec fn spec_bits(self) -> u8 {
        match self {
            StopBits::STOP1 => 0,
            StopBits::STOP0P5 => 1,
            StopBits::STOP2 => 2,
            StopBits::STOP1P5 => 3,
        }
    }

    /// The two bits that select the number of stop bits.
    #[verifier::when_used_as_spec(spec_bits)]
    pub fn bits(self) -> (bits: u8)
        ensures
            bits == self.spec_bits(),
    {
        match self {
            StopBits::STOP1 => 0,
            StopBits::STOP0P5 => 1,
            StopBits::STOP2 => 2,
            StopBits::STOP1P5 => 3,
        }
    }
}

/// Which directions are served by DMA
#[derive(Debug, Clone, Copy, PartialEq, Eq, Structural)]
pub enum DmaConfig {
    Disabled,
    Tx,
    Rx,
    TxRx,
}

/// Configuration of a serial port, with the baud rate in bits per second
#[derive(Debug, Clone, Copy, PartialEq, Eq, Structural)]
pub struct Config {
    pub baudrate: u32,
    pub wordlength: WordLength,
    pub parity: Parity,
    pub stopbits: StopBits,
    pub dma: DmaConfig,
}

/// A serial configuration that the port's clock cannot serve
#[derive(Debug, Copy, Clone, Eq, PartialEq, Structural)]
pub struct InvalidConfig;

} // verus!
