//! Pulse width modulation: period, prescaler and dead time of a timer.
//!
//! A timer counts the ticks of its clock, divided by `prescaler + 1`, from 0
//! to `period`. The functions of this module derive both registers from the
//! wanted frequency, and the dead time registers from the wanted dead time.

use vstd::prelude::*;
use core::marker::PhantomData;

verus! {

/// NPins is a trait that marks which GPIO pins may be used as complementary PWM channels; it should not be directly used.
pub trait NPins<TIM, CHANNEL> {

}

/// FaultPins is a trait that marks which GPIO pins may be used as PWM fault inputs; it should not be directly used.
pub trait FaultPins<TIM> {
    const INPUT: BreakInput;
}

/// Marker struct for PWM channel 1 on Pins trait and Pwm struct
pub struct C1;

/// Marker struct for PWM channel 2 on Pins trait and Pwm struct
pub struct C2;

/// Marker struct for PWM channel 3 on Pins trait and Pwm struct
pub struct C3;

/// Marker struct for PWM channel 4 on Pins trait and Pwm struct
pub struct C4;

/// Marker struct for pins and PWM channels that do not support complementary output
pub struct ComplementaryImpossible;

/// Marker struct for pins and PWM channels that support complementary output but are not using it
pub struct ComplementaryDisabled;

/// Marker struct for PWM channels that have complementary outputs enabled
pub struct ComplementaryEnabled;

/// Enum for IO polarity
#[derive(Clone, Copy, PartialEq, Eq, Structural, Debug)]
pub enum Polarity {
    ActiveHigh,
    ActiveLow,
}

/// Configuration enum to keep track of which break input corresponds with which FaultPins
#[derive(Clone, Copy, PartialEq, Eq, Structural, Debug)]
pub enum BreakInput {
    BreakIn,
    BreakIn2,
}

/// Keeps track of the count settings before PWM is finalized
#[derive(Clone, Copy, PartialEq, Eq, Structural, Debug)]
pub enum CountSettings {
    /// A frequency in Hz, from which period and prescaler are derived
    Frequency(u32),
    /// Period and prescaler as they are to be written
    Explicit { period: u16, prescaler: u16 },
}

/// Marker struct for active high IO polarity
pub struct ActiveHigh;

/// Marker struct for active low IO polarity
pub struct ActiveLow;

/// Whether a PWM signal is left-aligned, right-aligned, or center-aligned
#[derive(Copy, Clone, PartialEq, Eq, Structural, Debug)]
pub enum Alignment {
    Left,
    Right,
    Center,
}

/// Pwm represents one PWM channel of a timer
pub struct Pwm<TIM, CHANNEL, COMP, POL, NPOL> {
    _channel: PhantomData<CHANNEL>,
    _tim: PhantomData<TIM>,
    _complementary: PhantomData<COMP>,
    _polarity: PhantomData<POL>,
    _npolarity: PhantomData<NPOL>,
}

/// What a [`PwmBuilder`] has collected
#[derive(Copy, Clone, PartialEq, Eq, Structural, Debug)]
pub struct PwmSettings {
    pub alignment: Alignment,
    /// Frequency of the timer's clock in Hz
    pub base_freq: u32,
    pub count: CountSettings,
    /// If the FAULT type parameter is FaultEnabled, either bkin or bkin2 must be enabled
    pub bkin_enabled: bool,
    pub fault_polarity: Polarity,
    /// Dead time in nanoseconds
    pub deadtime: u32,
}

/// PwmBuilder is used to configure advanced PWM features
pub struct PwmBuilder<TIM, PINS, CHANNEL, FAULT, COMP> {
    _tim: PhantomData<TIM>,
    _pins: PhantomData<PINS>,
    _channel: PhantomData<CHANNEL>,
    _fault: PhantomData<FAULT>,
    _comp: PhantomData<COMP>,
    settings: PwmSettings,
}

impl<TIM, PINS, CHANNEL, FAULT, COMP> View for PwmBuilder<TIM, PINS, CHANNEL, FAULT, COMP> {
    type V = PwmSettings;

    closed spec fn view(&self) -> PwmSettings {
        self.settings
    }
}

/// Allows a PwmControl to monitor and control faults (break inputs) of a timer's PWM channels
pub trait FaultMonitor {
    /// Returns true if a fault is preventing PWM output
    fn is_fault_active(&self) -> bool;

    /// Enables PWM output, clearing fault state and immediately resuming PWM; if the break pin is still active, this can't clear the fault.
    fn clear_fault(&mut self);

    /// Disables PWM output, setting fault state; this can be used to stop all PWM from a timer in software detected faults
    fn set_fault(&mut self);
}

/// Exposes timer wide advanced features, such as [FaultMonitor](trait.FaultMonitor.html)
pub struct PwmControl<TIM, FAULT> {
    _tim: PhantomData<TIM>,
    _fault: PhantomData<FAULT>,
}

/// Marker struct indicating that a PwmControl is in charge of fault monitoring
pub struct FaultEnabled;

/// Marker struct indicating that a PwmControl does not handle fault monitoring
pub struct FaultDisabled;

/// Enabling and disabling of a channel's output
pub trait PwmPinEnable {
    fn ccer_enable(&mut self);

    fn ccer_disable(&mut self);
}

/// The frequency that the counter has to complete its runs at: twice the
/// PWM frequency where the signal is center-aligned, since the counter then
/// runs up and down in one period.
pub open spec fn count_frequency(freq: int, alignment: Alignment) -> int {
    if alignment == Alignment::Center {
        freq * 2
    } else {
        freq
    }
}

/// The number of clock ticks in one run of the counter, rounded to the
/// nearest whole number.
pub open spec fn ideal_period(base_freq: int, freq: int, alignment: Alignment) -> int {
    (base_freq + count_frequency(freq, alignment) / 2) / count_frequency(freq, alignment)
}

/// Clocks and frequencies for which the period can be computed in 32 bits:
/// the frequency is not zero, nothing overflows, and the period has at
/// least one tick.
pub open spec fn period_computable(base_freq: int, freq: int, alignment: Alignment) -> bool {
    &&& 1 <= count_frequency(freq, alignment) <= u32::MAX
    &&& base_freq + count_frequency(freq, alignment) / 2 <= u32::MAX
    &&& ideal_period(base_freq, freq, alignment) >= 1
}

/// The prescaler that brings a period of `ideal` ticks into 16 bits.
pub open spec fn prescale_16bit(ideal: int) -> int {
    (ideal - 1) / 0x1_0000
}

/// The period register of a 16-bit timer for a period of `ideal` ticks: the
/// number of prescaled ticks, rounded to the nearest, less one.
pub open spec fn period_16bit(ideal: int) -> int {
    (ideal + prescale_16bit(ideal) / 2) / (prescale_16bit(ideal) + 1) - 1
}

/// Period and prescaler calculator for 32-bit timers
/// Returns (arr, psc)
pub fn calculate_frequency_32bit(base_freq: u32, freq: u32, alignment: Alignment) -> (registers: (
    u32,
    u16,
))
    requires
        period_computable(base_freq as int, freq as int, alignment),
    ensures
        registers.0 == ideal_period(base_freq as int, freq as int, alignment) - 1,
        registers.1 == 0,
{
    let divisor: u32 = if let Alignment::Center = alignment {
        freq * 2
    } else {
        freq
    };

    // Round to the nearest period
    let arr: u32 = (base_freq + (divisor / 2)) / divisor - 1;

    (arr, 0)
}

/// With the prescaler that is picked for it, every period fits into 16 bits.
pub proof fn lemma_period_16bit_fits(ideal: int)
    requires
        1 <= ideal <= u32::MAX,
    ensures
        0 <= prescale_16bit(ideal) <= 0xFFFF,
        0 <= period_16bit(ideal) <= 0xFFFF,
{
    let s = prescale_16bit(ideal);
    assert(0x1_0000 * s <= ideal - 1 < 0x1_0000 * s + 0x1_0000);
    let n = ideal + s / 2;
    let d = s + 1;
    assert(n / d <= 0x1_0000 && n / d >= 1) by (nonlinear_arith)
        requires
            d == s + 1,
            0 <= s <= 0xFFFF,
            n == ideal + s / 2,
            0x1_0000 * s + 1 <= ideal <= 0x1_0000 * s + 0x1_0000,
    {
        assert(n < 0x1_0001 * d);
        assert(n >= d);
    }
}

/// Period and prescaler calculator for 16-bit timers
/// Returns (arr, psc)
/// Returns as (u32, u16) to be compatible but arr will always be a valid u16
pub fn calculate_frequency_16bit(base_freq: u32, freq: u32, alignment: Alignment) -> (registers: (
    u32,
    u16,
))
    requires
        period_computable(base_freq as int, freq as int, alignment),
        ideal_period(base_freq as int, freq as int, alignment) + 0x7FFF <= u32::MAX,
    ensures
        registers.0 == period_16bit(ideal_period(base_freq as int, freq as int, alignment)),
        registers.1 == prescale_16bit(ideal_period(base_freq as int, freq as int, alignment)),
        registers.0 <= 0xFFFF,
{
    let ideal_period: u32 = calculate_frequency_32bit(base_freq, freq, alignment).0 + 1;
    proof {
        lemma_period_16bit_fits(ideal_period as int);
    }

    // Division factor is (PSC + 1)
    let prescale: u32 = (ideal_period - 1) / 0x1_0000;

    // This will always fit in a 16-bit value because u32::MAX / (1 << 16) fits in a 16 bit
    // Round to the nearest period
    let period: u32 = (ideal_period + (prescale / 2)) / (prescale + 1) - 1;

    (period, prescale as u16)
}

/// Greatest dead time, in ticks of the timer's clock times nanoseconds per
/// second, that the dead time generator can produce
pub const DEADTIME_MAX: u64 = 4_032_000_000_000;

/// The dead time in ticks of the timer's clock for a dead time in
/// nanoseconds and a clock in Hz: their product divided by 10^9, where each
/// of the divisions by 10^5 and by 10^4 is a multiplication and a shift.
pub open spec fn deadtime_ticks(base_freq: int, deadtime: int) -> int {
    ((((deadtime * base_freq) * 42950) / 0x1_0000_0000) * 429497) / 0x1_0000_0000
}

/// The divider of the dead time generator's clock for a dead time in ticks.
pub open spec fn deadtime_divider(ticks: int) -> int {
    if ticks <= 1008 {
        1
    } else if ticks <= 2016 {
        2
    } else {
        4
    }
}

/// The dead time, in ticks of its clock, that the dead time generator
/// produces for a value of its register.
pub open spec fn deadtime_of(dtg: int) -> int {
    if dtg < 128 {
        dtg
    } else if dtg < 192 {
        2 * (64 + dtg % 64)
    } else if dtg < 224 {
        8 * (32 + dtg % 32)
    } else {
        16 * (32 + dtg % 32)
    }
}

/// The dead time that the generator produces for a value of its register.
pub fn actual_deadtime(dtg: u32) -> (ticks: u32)
    requires
        dtg <= 255,
    ensures
        ticks == deadtime_of(dtg as int),
        ticks <= 1008,
{
    assert(dtg & 0x3F == dtg % 64) by (bit_vector);
    assert(dtg & 0x1F == dtg % 32) by (bit_vector);
    if dtg < 128 {
        dtg
    } else if dtg < 192 {
        2 * (64 + (dtg & 0x3F))
    } else if dtg < 224 {
        8 * (32 + (dtg & 0x1F))
    } else {
        16 * (32 + (dtg & 0x1F))
    }
}

/// Deadtime calculator helper function
/// Returns (BDTR.DTG, CR1.CKD)
///
/// The register value is the least one that gives at least the requested
/// dead time.
pub fn calculate_deadtime(base_freq: u32, deadtime: u32) -> (registers: (u8, u8))
    requires
        deadtime * base_freq <= DEADTIME_MAX,
    ensures
        registers.1 == deadtime_divider(deadtime_ticks(base_freq as int, deadtime as int)),
        deadtime_of(registers.0 as int) >= deadtime_ticks(base_freq as int, deadtime as int)
            / deadtime_divider(deadtime_ticks(base_freq as int, deadtime as int)),
        forall|smaller: int|
            0 <= smaller < registers.0 ==> deadtime_of(smaller) < deadtime_ticks(
                base_freq as int,
                deadtime as int,
            ) / deadtime_divider(deadtime_ticks(base_freq as int, deadtime as int)),
{
    // tDTS is based on tCK_INT which is before the prescaler
    // It uses its own separate prescaler CR1.CKD
    // ticks = ns * GHz = ns * Hz / 1e9
    // Divide by 100000 then 10000 by multiplying and shifting
    // This can't overflow because both values being multiplied are u32
    assert(deadtime as u64 * base_freq as u64 <= DEADTIME_MAX) by (nonlinear_arith)
        requires
            deadtime * base_freq <= DEADTIME_MAX,
            0 <= deadtime,
            0 <= base_freq,
    ;
    let deadtime_ticks: u64 = deadtime as u64 * base_freq as u64;
    let deadtime_ticks: u64 = deadtime_ticks * 42950;
    let deadtime_ticks: u32 = (deadtime_ticks / 0x1_0000_0000) as u32;
    let deadtime_ticks: u64 = deadtime_ticks as u64 * 429497;
    let deadtime_ticks: u32 = (deadtime_ticks / 0x1_0000_0000) as u32;
    assert(deadtime_ticks <= 4032);
    let ghost total = deadtime_ticks as int;
    assert(total == self::deadtime_ticks(base_freq as int, deadtime as int));

    // Choose CR1 CKD divider of 1, 2, or 4 to determine tDTS
    let (deadtime_ticks, ckd): (u32, u8) = if deadtime_ticks <= 1008 {
        (deadtime_ticks, 1)
    } else if deadtime_ticks <= 2016 {
        (deadtime_ticks / 2, 2)
    } else {
        (deadtime_ticks / 4, 4)
    };

    // Choose BDTR DTG bits to match deadtime_ticks
    // We want the smallest value of DTG that gives a deadtime >= the requested deadtime
    let mut dtg: u32 = 0;
    while dtg < 255
        invariant
            dtg <= 255,
            deadtime_ticks <= 1008,
            total == self::deadtime_ticks(base_freq as int, deadtime as int),
            ckd == deadtime_divider(total),
            deadtime_ticks == total / deadtime_divider(total),
            forall|smaller: int| 0 <= smaller < dtg ==> deadtime_of(smaller) < deadtime_ticks,
        decreases 255 - dtg,
    {
        if actual_deadtime(dtg) >= deadtime_ticks {
            return (dtg as u8, ckd);
        }
        dtg = dtg + 1;
    }
    assert(deadtime_of(255) == 1008);
    (255, ckd)
}

impl<TIM, PINS, CHANNEL, FAULT, COMP> PwmBuilder<TIM, PINS, CHANNEL, FAULT, COMP> {
    /// A builder for a timer whose clock runs at `base_freq` Hz, set to
    /// `freq` Hz and left-aligned, without break input and dead time.
    pub fn new(base_freq: u32, freq: u32) -> (builder: Self)
        ensures
            builder@ == (PwmSettings {
                alignment: Alignment::Left,
                base_freq,
                count: CountSettings::Frequency(freq),
                bkin_enabled: false,
                fault_polarity: Polarity::ActiveLow,
                deadtime: 0,
            }),
    {
        PwmBuilder {
            _tim: PhantomData,
            _pins: PhantomData,
            _channel: PhantomData,
            _fault: PhantomData,
            _comp: PhantomData,
            settings: PwmSettings {
                alignment: Alignment::Left,
                base_freq,
                count: CountSettings::Frequency(freq),
                bkin_enabled: false,
                fault_polarity: Polarity::ActiveLow,
                deadtime: 0,
            },
        }
    }

    /// What the builder has collected.
    pub fn settings(&self) -> (settings: PwmSettings)
        ensures
            settings == self@,
    {
        self.settings
    }

    /// Period and prescaler as they are to be written to a 16-bit timer.
    pub fn count_registers(&self) -> (registers: (u32, u16))
        requires
            self@.count matches CountSettings::Frequency(freq) ==> period_computable(
                self@.base_freq as int,
                freq as int,
                self@.alignment,
            ) && ideal_period(self@.base_freq as int, freq as int, self@.alignment) + 0x7FFF
                <= u32::MAX,
        ensures
            self@.count matches CountSettings::Explicit { period, prescaler } ==> registers == (
                period as u32,
                prescaler,
            ),
            self@.count matches CountSettings::Frequency(freq) ==> registers.0 == period_16bit(
                ideal_period(self@.base_freq as int, freq as int, self@.alignment),
            ) && registers.1 == prescale_16bit(
                ideal_period(self@.base_freq as int, freq as int, self@.alignment),
            ),
            registers.0 <= 0xFFFF,
    {
        match self.settings.count {
            CountSettings::Explicit { period, prescaler } => (period as u32, prescaler),
            CountSettings::Frequency(freq) => calculate_frequency_16bit(
                self.settings.base_freq,
                freq,
                self.settings.alignment,
            ),
        }
    }

    /// Dead time register and dead time clock divider as they are to be
    /// written.
    pub fn deadtime_registers(&self) -> (registers: (u8, u8))
        requires
            self@.deadtime * self@.base_freq <= DEADTIME_MAX,
        ensures
            registers.1 == deadtime_divider(
                deadtime_ticks(self@.base_freq as int, self@.deadtime as int),
            ),
            deadtime_of(registers.0 as int) >= deadtime_ticks(
                self@.base_freq as int,
                self@.deadtime as int,
            ) / deadtime_divider(deadtime_ticks(self@.base_freq as int, self@.deadtime as int)),
            forall|smaller: int|
                0 <= smaller < registers.0 ==> deadtime_of(smaller) < deadtime_ticks(
                    self@.base_freq as int,
                    self@.deadtime as int,
                ) / deadtime_divider(
                    deadtime_ticks(self@.base_freq as int, self@.deadtime as int),
                ),
    {
        calculate_deadtime(self.settings.base_freq, self.settings.deadtime)
    }

    /// Set the PWM frequency; will overwrite the previous prescaler and period
    /// The requested frequency will be rounded to the nearest achievable frequency; the actual frequency may be higher or lower than requested.
    pub fn frequency(self, freq: u32) -> (builder: Self)
        ensures
            builder@ == (PwmSettings { count: CountSettings::Frequency(freq), ..self@ }),
    {
        let mut builder = self;
        builder.settings.count = CountSettings::Frequency(freq);
        builder
    }

    /// Set the prescaler; PWM count runs at base_frequency/(prescaler+1)
    pub fn prescaler(self, prescaler: u16) -> (builder: Self)
        ensures
            builder@ == (PwmSettings {
                count: CountSettings::Explicit {
                    period: match self@.count {
                        CountSettings::Frequency(_) => 65535,
                        CountSettings::Explicit { period, .. } => period,
                    },
                    prescaler,
                },
                ..self@
            }),
    {
        let mut builder = self;
        let period: u16 = match builder.settings.count {
            CountSettings::Frequency(_) => 65535,
            CountSettings::Explicit { period, prescaler: _ } => period,
        };
        builder.settings.count = CountSettings::Explicit { period, prescaler };
        builder
    }

    /// Set the period; PWM count runs from 0 to period, repeating every (period+1) counts
    pub fn period(self, period: u16) -> (builder: Self)
        ensures
            builder@ == (PwmSettings {
                count: CountSettings::Explicit {
                    period,
                    prescaler: match self@.count {
                        CountSettings::Frequency(_) => 0,
                        CountSettings::Explicit { prescaler, .. } => prescaler,
                    },
                },
                ..self@
            }),
    {
        let mut builder = self;
        let prescaler: u16 = match builder.settings.count {
            CountSettings::Frequency(_) => 0,
            CountSettings::Explicit { period: _, prescaler } => prescaler,
        };
        builder.settings.count = CountSettings::Explicit { period, prescaler };
        builder
    }

    /// Set the deadtime, in nanoseconds, for complementary PWM channels of this timer
    pub fn with_deadtime(self, deadtime: u32) -> (builder: Self)
        ensures
            builder@ == (PwmSettings { deadtime, ..self@ }),
    {
        let mut builder = self;
        builder.settings.deadtime = deadtime;
        builder
    }

    pub fn left_aligned(self) -> (builder: Self)
        ensures
            builder@ == (PwmSettings { alignment: Alignment::Left, ..self@ }),
    {
        let mut builder = self;
        builder.settings.alignment = Alignment::Left;
        builder
    }

    pub fn center_aligned(self) -> (builder: Self)
        ensures
            builder@ == (PwmSettings { alignment: Alignment::Center, ..self@ }),
    {
        let mut builder = self;
        builder.settings.alignment = Alignment::Center;
        builder
    }

    pub fn right_aligned(self) -> (builder: Self)
        ensures
            builder@ == (PwmSettings { alignment: Alignment::Right, ..self@ }),
    {
        let mut builder = self;
        builder.settings.alignment = Alignment::Right;
        builder
    }
}

} // verus!
