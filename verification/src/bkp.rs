//! Registers that are not reset as long as Vbat or Vdd has power.
//!
//! The registers retain their values during wakes from standby mode or system resets. They also
//! retain their value when Vdd is switched off as long as V_BAT is powered.

use vstd::prelude::*;

verus! {

/// Number of data registers in the low bank
pub const LOW_REGISTERS: usize = 10;

/// Number of data registers in both banks
pub const DATA_REGISTERS: usize = 42;

/// The backup data registers: ten in the low bank, thirty-two in the high
/// bank.
pub struct BackupDomain {
    pub datl: [u16; 10],
    pub dath: [u16; 32],
}

impl BackupDomain {
    /// What the data register with the zero based index `register` holds.
    pub open spec fn data(&self, register: int) -> u16
        recommends
            0 <= register < DATA_REGISTERS,
    {
        if register < LOW_REGISTERS {
            self.datl@[register]
        } else {
            self.dath@[register - LOW_REGISTERS]
        }
    }

    /// Read a 16-bit value from one of the DR1 to DR42 registers part of the
    /// Backup Data Register. The register argument is a zero based index to the
    /// DRx registers: 0 is DR1, up to 41 for DR42.
    pub fn read_data_register(&self, register: usize) -> (value: u16)
        requires
            register < DATA_REGISTERS,
        ensures
            value == self.data(register as int),
    {
        if register < 10 {
            self.datl[register]
        } else {
            self.dath[register - 10]
        }
    }

    /// Write a 16-bit value to one of the DR1 to DR42 registers part of the
    /// Backup Data Register. The register argument is a zero based index to the
    /// DRx registers: 0 is DR1, up to 41 for DR42.
    pub fn write_data_register_low(&mut self, register: usize, data: u16)
        requires
            register < DATA_REGISTERS,
        ensures
            final(self).data(register as int) == data,
            forall|other: int|
                0 <= other < DATA_REGISTERS && other != register ==> final(self).data(other) == old(
                    self,
                ).data(other),
    {
        if register < 10 {
            self.datl[register] = data;
        } else {
            self.dath[register - 10] = data;
        }
    }
}

} // verus!
