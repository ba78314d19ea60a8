//! CRC calculation unit: its engines, and the state of a 16-bit checksum
//! between two runs.

use vstd::prelude::*;
use crate::pac::Crc;
use crate::pac::Rcc;
use crate::rcc::after_enable;
use crate::rcc::after_reset;
use crate::rcc::Enable;
use crate::rcc::Reset;

verus! {

/// Extension trait that prepares the CRC unit for use
pub trait CrcExt {
    /// Enables the unit's clock, resets the unit and hands it out.
    fn constrain(self, rcc: &mut Rcc) -> (engine: CrcEngine)
        ensures
            *final(rcc) == after_reset::<Crc>(after_enable::<Crc>(*old(rcc))),
    ;
}

/// The CRC unit as a whole
pub struct CrcEngine {
    pub regs: Crc,
}

/// The 16-bit engine of the CRC unit
pub struct Crc16Engine {
    pub regs: Crc,
}

/// The 32-bit engine of the CRC unit
pub struct Crc32Engine {
    pub regs: Crc,
}

/// A 32-bit checksum in the making
pub struct Crc32Stream {
    pub engine: Crc32Engine,
}

impl CrcExt for Crc {
    fn constrain(self, rcc: &mut Rcc) -> (engine: CrcEngine)
        ensures
            engine.regs == self,
    {
        Crc::enable(rcc);
        Crc::reset(rcc);
        CrcEngine { regs: self }
    }
}

impl CrcEngine {
    /// Splits this CrcEngine into a Crc16 and Crc32 engine that can act independently.
    pub fn split(self) -> (engines: (Crc16Engine, Crc32Engine))
        ensures
            engines.0.regs == self.regs,
            engines.1.regs == self.regs,
    {
        (Crc16Engine { regs: Crc }, Crc32Engine { regs: self.regs })
    }
}

impl Crc32Stream {
    /// Ends the checksum and gives the engine back.
    pub fn finalize(self) -> (engine: Crc32Engine)
        ensures
            engine == self.engine,
    {
        self.engine
    }
}

/// Which end of each byte enters the checksum first
#[derive(Clone, Copy, PartialEq, Eq, Structural, Debug)]
pub enum CrcEndianness {
    StartFromMsb,
    StartFromLsb,
}

/// A 16-bit checksum that can be continued
#[derive(Clone, Copy, PartialEq, Eq, Structural, Debug)]
pub struct Crc16State {
    pub value: u16,
    pub endianness: CrcEndianness,
}

impl Crc16State {
    pub fn new(endianness: CrcEndianness) -> (state: Crc16State)
        ensures
            state == (Crc16State { value: 0, endianness }),
    {
        Self { value: 0, endianness }
    }

    pub fn new_le() -> (state: Crc16State)
        ensures
            state == (Crc16State { value: 0, endianness: CrcEndianness::StartFromLsb }),
    {
        Self { value: 0, endianness: CrcEndianness::StartFromLsb }
    }

    pub fn new_be() -> (state: Crc16State)
        ensures
            state == (Crc16State { value: 0, endianness: CrcEndianness::StartFromMsb }),
    {
        Self { value: 0, endianness: CrcEndianness::StartFromMsb }
    }
}

} // verus!
