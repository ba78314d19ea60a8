//! Timers
//!
//! A count down timer divides its clock by a prescaler and counts up to a
//! reload value. Both are 16 bits wide. This module derives them from the
//! number of clock ticks that a timeout lasts.

use vstd::prelude::*;
use crate::pac::Rcc;
use crate::rcc::after_enable;
use crate::rcc::after_reset;
use crate::rcc::BusTimerClock;
use crate::rcc::Clocks;
use crate::rcc::Enable;
use crate::rcc::Reset;
use crate::sealed::Sealed;
use crate::width::checked_u16;
use crate::width::widened_u32;

verus! {

/// Timer wrapper
pub struct Timer<TIM> {
    pub tim: TIM,
    /// Frequency of the timer's clock in Hz
    pub clk: u32,
}

/// Hardware timers
pub struct CountDownTimer<TIM> {
    pub tim: TIM,
    /// Frequency of the timer's clock in Hz
    pub clk: u32,
}

/// Interrupt events
#[derive(Debug, Eq, PartialEq, Structural, Copy, Clone)]
pub enum Event {
    /// CountDownTimer timed out / count down ended
    TimeOut,
}

/// Trigger output source
#[derive(Debug, Eq, PartialEq, Structural, Copy, Clone)]
pub enum TriggerSource {
    /// Timer reset - UG as trigger output
    Reset,
    /// Timer enable - CNT_EN as trigger output
    Enable,
    /// Update event - Update event as trigger output
    Update,
    /// Compare Pulse - Positive pulse if CC1IF is setted
    ComparePulse,
    /// Compare1 - OC1REFC as trigger output
    Compare1,
    /// Compare2 - OC2REFC as trigger output
    Compare2,
    /// Compare3 - OC3REFC as trigger output
    Compare3,
    /// Compare4 - OC4REFC as trigger output
    Compare4,
}

impl TriggerSource {
    /// The three bits that select the source.
    pub open spec fn spec_bits(self) -> u8 {
        match self {
            TriggerSource::Reset => 0b000,
            TriggerSource::Enable => 0b001,
            TriggerSource::Update => 0b010,
            TriggerSource::ComparePulse => 0b011,
            TriggerSource::Compare1 => 0b100,
            TriggerSource::Compare2 => 0b101,
            TriggerSource::Compare3 => 0b110,
            TriggerSource::Compare4 => 0b111,
        }
    }

    /// The three bits that select the source.
    #[verifier::when_used_as_spec(spec_bits)]
    pub fn bits(self) -> (bits: u8)
        ensures
            bits == self.spec_bits(),
    {
        match self {
            TriggerSource::Reset => 0b000,
            TriggerSource::Enable => 0b001,
            TriggerSource::Update => 0b010,
            TriggerSource::ComparePulse => 0b011,
            TriggerSource::Compare1 => 0b100,
            TriggerSource::Compare2 => 0b101,
            TriggerSource::Compare3 => 0b110,
            TriggerSource::Compare4 => 0b111,
        }
    }
}

/// Timer error
#[derive(Debug, Eq, PartialEq, Structural, Copy, Clone)]
pub enum Error {
    /// CountDownTimer is disabled
    Disabled,
}

/// A timer peripheral
pub trait Instance: Sealed + Enable + Reset + BusTimerClock {

}

impl Instance for crate::pac::Tim1 {

}

impl Instance for crate::pac::Tim2 {

}

impl Instance for crate::pac::Tim3 {

}

impl Instance for crate::pac::Tim4 {

}

impl Instance for crate::pac::Tim5 {

}

impl Instance for crate::pac::Tim6 {

}

impl Instance for crate::pac::Tim7 {

}

impl Instance for crate::pac::Tim8 {

}

impl<TIM> Timer<TIM> where TIM: Instance {
    /// Initialize timer: enables its clock, resets it and takes note of the
    /// frequency that it runs at.
    pub fn new(tim: TIM, clocks: &Clocks, rcc: &mut Rcc) -> (timer: Self)
        requires
            TIM::spec_timer_clock(*clocks) <= u32::MAX,
        ensures
            timer.tim == tim,
            timer.clk == TIM::spec_timer_clock(*clocks),
            *final(rcc) == after_reset::<TIM>(after_enable::<TIM>(*old(rcc))),
    {
        // Enable and reset the timer peripheral
        TIM::enable(rcc);
        TIM::reset(rcc);
        Self { clk: TIM::timer_clock(clocks), tim }
    }
}

/// The prescaler register for a timeout of `ticks` clock ticks: the counter
/// counts every `psc + 1`-th tick, so that the reload value fits into 16
/// bits.
pub open spec fn prescaler_of(ticks: int) -> int {
    (ticks - 1) / 0x1_0000
}

/// The reload register for a timeout of `ticks` clock ticks.
pub open spec fn reload_of(ticks: int) -> int {
    ticks / (prescaler_of(ticks) + 1)
}

/// The timeouts that a count down timer can be started with: at least one
/// tick, with a prescaler below 65535 and a reload value that fits into 16
/// bits. A timeout of a whole multiple of 65536 ticks has none.
pub open spec fn countable(ticks: int) -> bool {
    &&& 1 <= ticks
    &&& prescaler_of(ticks) < 0xFFFF
    &&& reload_of(ticks) <= 0xFFFF
}

/// Whether a count down timer can be started with a timeout of `ticks`
/// clock ticks.
pub fn is_countable(ticks: u32) -> (ok: bool)
    ensures
        ok == countable(ticks as int),
{
    if ticks < 1 {
        return false;
    }
    let psc: u32 = (ticks - 1) / 0x1_0000;
    psc < 0xFFFF && ticks / (psc + 1) <= 0xFFFF
}

/// Derives prescaler and reload register from the number of clock ticks
/// that a timeout lasts.
pub fn countdown_registers(ticks: u32) -> (registers: (u16, u16))
    requires
        countable(ticks as int),
    ensures
        registers.0 == prescaler_of(ticks as int),
        registers.1 == reload_of(ticks as int),
{
    let psc: u16 = match checked_u16((ticks - 1) / 0x1_0000) {
        Some(psc) => psc,
        None => {
            proof {
                assert(false);
            }
            0
        },
    };
    let arr: u16 = match checked_u16(ticks / widened_u32(psc + 1)) {
        Some(arr) => arr,
        None => {
            proof {
                assert(false);
            }
            0
        },
    };
    (psc, arr)
}

/// A monotonic non-decreasing timer
///
/// It counts the cycles of the core, and so stands still while the core is
/// stopped.
#[derive(Clone, Copy)]
pub struct MonoTimer {
    frequency: u32,
}

impl MonoTimer {
    /// Creates a new `Monotonic` timer that runs at the frequency of the AHB
    /// clock.
    pub fn new(clocks: &Clocks) -> (timer: MonoTimer)
        ensures
            timer.spec_frequency() == clocks.hclk,
    {
        MonoTimer { frequency: clocks.hclk }
    }

    /// The frequency at which the monotonic timer is operating at.
    pub closed spec fn spec_frequency(self) -> u32 {
        self.frequency
    }

    /// Returns the frequency at which the monotonic timer is operating at
    #[verifier::when_used_as_spec(spec_frequency)]
    pub fn frequency(self) -> (hz: u32)
        ensures
            hz == self.spec_frequency(),
    {
        self.frequency
    }

    /// An instant of the time when the cycle counter reads `cycle_count`.
    pub fn now(self, cycle_count: u32) -> (instant: Instant)
        ensures
            instant.now == cycle_count,
    {
        Instant { now: cycle_count }
    }
}

/// A measurement of a monotonically non-decreasing clock
#[derive(Clone, Copy)]
pub struct Instant {
    pub now: u32,
}

impl Instant {
    /// Ticks elapsed since the `Instant` was created, when the cycle counter
    /// reads `cycle_count`: their difference modulo 2^32.
    pub fn elapsed(self, cycle_count: u32) -> (ticks: u32)
        ensures
            ticks == (cycle_count - self.now) as int % 0x1_0000_0000,
    {
        cycle_count.wrapping_sub(self.now)
    }
}

} // verus!
