//! Inter-integrated circuit bus: speed modes and the timing registers.

use vstd::prelude::*;
use vstd::std_specs::convert::FromSpecImpl;
use crate::pac::I2cBlock;
use crate::pac::I2cSts1;

verus! {

/// Ratio of the low to the high phase of the clock in fast mode
#[derive(Debug, Clone, Copy, Eq, PartialEq, Structural)]
pub enum DutyCycle {
    Ratio2to1,
    Ratio16to9,
}

/// Speed mode, with the bus frequency in Hz
#[derive(Debug, Clone, Copy, PartialEq, Eq, Structural)]
pub enum Mode {
    Standard { frequency: u32 },
    Fast { frequency: u32, duty_cycle: DutyCycle },
}

/// Greatest frequency of standard mode, in Hz
pub const STANDARD_MAX: u32 = 100_000;

impl Mode {
    pub fn standard(frequency: u32) -> (mode: Mode)
        ensures
            mode == (Mode::Standard { frequency }),
    {
        Self::Standard { frequency }
    }

    pub fn fast(frequency: u32, duty_cycle: DutyCycle) -> (mode: Mode)
        ensures
            mode == (Mode::Fast { frequency, duty_cycle }),
    {
        Self::Fast { frequency, duty_cycle }
    }

    /// The bus frequency of the mode.
    pub open spec fn spec_frequency(&self) -> u32 {
        match *self {
            Mode::Standard { frequency } => frequency,
            Mode::Fast { frequency, .. } => frequency,
        }
    }

    #[verifier::when_used_as_spec(spec_frequency)]
    pub fn get_frequency(&self) -> (frequency: u32)
        ensures
            frequency == self.spec_frequency(),
    {
        match *self {
            Self::Standard { frequency } => frequency,
            Self::Fast { frequency, .. } => frequency,
        }
    }
}

impl From<u32> for Mode {
    /// Standard mode up to 100 kHz, fast mode with a duty cycle of 2 to 1
    /// above.
    fn from(frequency: u32) -> (mode: Mode) {
        if frequency <= STANDARD_MAX {
            Self::Standard { frequency }
        } else {
            Self::Fast { frequency, duty_cycle: DutyCycle::Ratio2to1 }
        }
    }
}

impl FromSpecImpl<u32> for Mode {
    open spec fn obeys_from_spec() -> bool {
        true
    }

    open spec fn from_spec(frequency: u32) -> Mode {
        if frequency <= STANDARD_MAX {
            Mode::Standard { frequency }
        } else {
            Mode::Fast { frequency, duty_cycle: DutyCycle::Ratio2to1 }
        }
    }
}

/// What the timing registers are to hold
#[derive(Debug, Clone, Copy, PartialEq, Eq, Structural)]
pub struct Timing {
    /// Frequency of the peripheral clock in MHz
    pub clkfreq: u8,
    /// Maximum rise time, in periods of the peripheral clock, plus one
    pub tmrise: u8,
    /// Fast mode
    pub fsmode: bool,
    /// Duty cycle of 16 to 9
    pub duty: bool,
    /// Clock control: length of the clock's phases in periods of the
    /// peripheral clock
    pub clkctrl: u16,
}

/// The peripheral clocks that the bus can run from: 2 MHz up to less than
/// 51 MHz.
pub open spec fn clock_supported(pclk: int) -> bool {
    2 <= pclk / 1_000_000 <= 50
}

/// How many periods of the peripheral clock one unit of the bus clock's
/// phases takes: the bus period is 2 units in standard mode, 3 in fast mode
/// with a duty cycle of 2 to 1, and 25 with 16 to 9.
pub open spec fn phase_units(mode: Mode) -> int {
    match mode {
        Mode::Standard { .. } => 2,
        Mode::Fast { duty_cycle: DutyCycle::Ratio2to1, .. } => 3,
        Mode::Fast { duty_cycle: DutyCycle::Ratio16to9, .. } => 25,
    }
}

/// The least value of the clock control field: 4 in standard mode, 1 in fast
/// mode.
pub open spec fn least_clkctrl(mode: Mode) -> int {
    match mode {
        Mode::Standard { .. } => 4,
        Mode::Fast { .. } => 1,
    }
}

/// The clock control value for a mode and a peripheral clock, before it is
/// cut to the width of the field.
pub open spec fn clock_control(mode: Mode, pclk: int) -> int {
    let wanted = pclk / (mode.spec_frequency() * phase_units(mode));
    if wanted < least_clkctrl(mode) {
        least_clkctrl(mode)
    } else {
        wanted
    }
}

/// The rise time field: in standard mode 1000 ns, in fast mode 300 ns, in
/// periods of the peripheral clock and plus one.
pub open spec fn rise_time(mode: Mode, pclk: int) -> int {
    match mode {
        Mode::Standard { .. } => pclk / 1_000_000 + 1,
        Mode::Fast { .. } => (pclk / 1_000_000) * 300 / 1000 + 1,
    }
}

/// The timing registers for a mode and a peripheral clock.
pub open spec fn timing_of(mode: Mode, pclk: int) -> Timing {
    Timing {
        clkfreq: (pclk / 1_000_000) as u8,
        tmrise: rise_time(mode, pclk) as u8,
        fsmode: mode is Fast,
        duty: mode matches Mode::Fast { duty_cycle: DutyCycle::Ratio16to9, .. },
        clkctrl: (clock_control(mode, pclk) % 0x1_0000) as u16,
    }
}

/// Computes the timing registers for a mode and a peripheral clock in Hz.
///
/// The clock has to be one that the bus can run from, and the bus frequency
/// times the number of phase units must not be zero nor overflow.
pub fn timing(mode: Mode, pclk: u32) -> (timing: Timing)
    requires
        clock_supported(pclk as int),
        1 <= mode.spec_frequency() * phase_units(mode) <= u32::MAX,
    ensures
        timing == timing_of(mode, pclk as int),
        2 <= timing.clkfreq <= 50,
{
    let clock: u32 = pclk;
    let clc_mhz: u32 = clock / 1_000_000;
    let trise: u32 = match mode {
        Mode::Standard { .. } => clc_mhz + 1,
        Mode::Fast { .. } => clc_mhz * 300 / 1000 + 1,
    };
    match mode {
        Mode::Standard { frequency } => {
            let mut ccr: u32 = clock / (frequency * 2);
            if ccr < 0x04 {
                ccr = 0x04
            }
            Timing {
                clkfreq: clc_mhz as u8,
                tmrise: trise as u8,
                fsmode: false,
                duty: false,
                clkctrl: (ccr % 0x1_0000) as u16,
            }
        },
        Mode::Fast { frequency, duty_cycle } => match duty_cycle {
            DutyCycle::Ratio2to1 => {
                let mut ccr: u32 = clock / (frequency * 3);
                if ccr < 1 {
                    ccr = 1
                }
                Timing {
                    clkfreq: clc_mhz as u8,
                    tmrise: trise as u8,
                    fsmode: true,
                    duty: false,
                    clkctrl: (ccr % 0x1_0000) as u16,
                }
            },
            DutyCycle::Ratio16to9 => {
                let mut ccr: u32 = clock / (frequency * 25);
                if ccr < 1 {
                    ccr = 1
                }
                Timing {
                    clkfreq: clc_mhz as u8,
                    tmrise: trise as u8,
                    fsmode: true,
                    duty: true,
                    clkctrl: (ccr % 0x1_0000) as u16,
                }
            },
        },
    }
}

/// Whether the timing registers can be computed for a mode and a peripheral
/// clock in Hz: whether [`timing`] and [`init`] accept them.
pub fn has_timing(mode: Mode, pclk: u32) -> (ok: bool)
    ensures
        ok == (clock_supported(pclk as int) && 1 <= mode.spec_frequency() * phase_units(mode)
            <= u32::MAX),
{
    let clc_mhz: u32 = pclk / 1_000_000;
    let fits = match mode {
        Mode::Standard { frequency } => 1 <= frequency && frequency <= u32::MAX / 2,
        Mode::Fast { frequency, duty_cycle } => match duty_cycle {
            DutyCycle::Ratio2to1 => 1 <= frequency && frequency <= u32::MAX / 3,
            DutyCycle::Ratio16to9 => 1 <= frequency && frequency <= u32::MAX / 25,
        },
    };
    2 <= clc_mhz && clc_mhz <= 50 && fits
}

/// Sets an interface up for a mode and a peripheral clock in Hz: it is
/// disabled, its timing registers are written, and it is enabled again.
pub fn init(registers: &mut I2cBlock, mode: Mode, pclk: u32)
    requires
        clock_supported(pclk as int),
        1 <= mode.spec_frequency() * phase_units(mode) <= u32::MAX,
    ensures
        *final(registers) == (I2cBlock {
            en: true,
            clkfreq: timing_of(mode, pclk as int).clkfreq,
            tmrise: timing_of(mode, pclk as int).tmrise,
            fsmode: timing_of(mode, pclk as int).fsmode,
            duty: timing_of(mode, pclk as int).duty,
            clkctrl: timing_of(mode, pclk as int).clkctrl,
        }),
{
    // Make sure the I2C unit is disabled so we can configure it
    registers.en = false;
    let timing = timing(mode, pclk);
    // Configure bus frequency into I2C peripheral
    registers.clkfreq = timing.clkfreq;
    // Configure correct rise times
    registers.tmrise = timing.tmrise;
    // I2C clock control calculation
    registers.fsmode = timing.fsmode;
    registers.duty = timing.duty;
    registers.clkctrl = timing.clkctrl;
    // Enable the I2C processing
    registers.en = true;
}

/// Where an acknowledge failure happened
#[derive(Debug, Eq, PartialEq, Structural, Copy, Clone)]
pub enum NoAcknowledgeSource {
    /// The device did not acknowledge its address
    Address,
    /// The device did not acknowledge the data
    Data,
    /// Either the device did not acknowledge its address or the data, but
    /// it is unknown which
    Unknown,
}

/// I2C error
#[derive(Debug, Eq, PartialEq, Structural, Copy, Clone)]
#[non_exhaustive]
pub enum Error {
    Overrun,
    NoAcknowledge(NoAcknowledgeSource),
    Timeout,
    // Note: The Bus error type is not currently returned, but is maintained for compatibility.
    Bus,
    Crc,
    ArbitrationLoss,
}

impl Error {
    /// The error itself, with an acknowledge failure of unknown place put
    /// down to the address.
    pub fn nack_addr(self) -> (error: Error)
        ensures
            error == if self == Error::NoAcknowledge(NoAcknowledgeSource::Unknown) {
                Error::NoAcknowledge(NoAcknowledgeSource::Address)
            } else {
                self
            },
    {
        match self {
            Error::NoAcknowledge(NoAcknowledgeSource::Unknown) => {
                Error::NoAcknowledge(NoAcknowledgeSource::Address)
            },
            e => e,
        }
    }

    /// The error itself, with an acknowledge failure of unknown place put
    /// down to the data.
    pub fn nack_data(self) -> (error: Error)
        ensures
            error == if self == Error::NoAcknowledge(NoAcknowledgeSource::Unknown) {
                Error::NoAcknowledge(NoAcknowledgeSource::Data)
            } else {
                self
            },
    {
        match self {
            Error::NoAcknowledge(NoAcknowledgeSource::Unknown) => {
                Error::NoAcknowledge(NoAcknowledgeSource::Data)
            },
            e => e,
        }
    }
}

/// The error that a set of flags stands for: the first that is set of
/// timeout, packet error, overrun, acknowledge failure and lost
/// arbitration. A bus error is none: the hardware may report it wrongly.
pub open spec fn error_of(flags: I2cSts1) -> Option<Error> {
    if flags.timout {
        Some(Error::Timeout)
    } else if flags.pecerr {
        Some(Error::Crc)
    } else if flags.overrun {
        Some(Error::Overrun)
    } else if flags.ackfail {
        Some(Error::NoAcknowledge(NoAcknowledgeSource::Unknown))
    } else if flags.arlost {
        Some(Error::ArbitrationLoss)
    } else {
        None
    }
}

/// The flags once the first error among them is taken note of: that flag
/// is cleared and no other. Without an error the bus error flag is cleared.
pub open spec fn cleared(flags: I2cSts1) -> I2cSts1 {
    if flags.timout {
        I2cSts1 { timout: false, ..flags }
    } else if flags.pecerr {
        I2cSts1 { pecerr: false, ..flags }
    } else if flags.overrun {
        I2cSts1 { overrun: false, ..flags }
    } else if flags.ackfail {
        I2cSts1 { ackfail: false, ..flags }
    } else if flags.arlost {
        I2cSts1 { arlost: false, ..flags }
    } else {
        I2cSts1 { buserr: false, ..flags }
    }
}

/// Looks for an error among the flags and clears the flag that stands for
/// it. Without an error the flags come back as they were read.
pub fn check_and_clear_error_flags(flags: &mut I2cSts1) -> (checked: Result<I2cSts1, Error>)
    ensures
        *final(flags) == cleared(*old(flags)),
        checked == match error_of(*old(flags)) {
            Some(error) => Err::<I2cSts1, Error>(error),
            None => Ok::<I2cSts1, Error>(*old(flags)),
        },
{
    // Note that flags should only be cleared once they have been registered. If flags are
    // cleared otherwise, there may be an inherent race condition and flags may be missed.
    let sts1 = *flags;

    if sts1.timout {
        flags.timout = false;
        return Err(Error::Timeout);
    }
    if sts1.pecerr {
        flags.pecerr = false;
        return Err(Error::Crc);
    }
    if sts1.overrun {
        flags.overrun = false;
        return Err(Error::Overrun);
    }
    if sts1.ackfail {
        flags.ackfail = false;
        return Err(Error::NoAcknowledge(NoAcknowledgeSource::Unknown));
    }
    if sts1.arlost {
        flags.arlost = false;
        return Err(Error::ArbitrationLoss);
    }
    // The errata indicates that BERR may be incorrectly detected. It recommends ignoring and
    // clearing the BERR bit instead.
    if sts1.buserr {
        flags.buserr = false;
    }
    Ok(sts1)
}

} // verus!
