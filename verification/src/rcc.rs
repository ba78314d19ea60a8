//! Clock configuration.
//!
//! [`CFGR`] collects the requested frequencies. [`CFGR::freeze`] derives the
//! PLL setting and the bus prescalers from them, writes them to the clock
//! control block and returns the frequencies that result as [`Clocks`].
//!
//! The PLL multiplies its input by a whole factor, and the bus prescalers
//! divide by a few fixed values: the frequencies that result may differ from
//! the requested ones. Check [`Clocks`] where accuracy matters.

use vstd::prelude::*;
use crate::bb;
use crate::pac::Ahbpres;
use crate::pac::Apb1pres;
use crate::pac::Flash;
use crate::pac::FlashAc;
use crate::pac::Rcc;
use crate::pac::RccCfg;
use crate::pac::RccCfg2;
use crate::pac::RccCfg3;
use crate::pac::RccCtrl;
use crate::pac::Sclksw;
use crate::sealed::Sealed;
use commit::ClockStep;
use pll::MainPll;
use tree::ClockRequest;

pub mod commit;
pub mod enable;
pub mod pll;
pub mod tree;

verus! {

/// Built-in high speed clock frequency
pub const HSI: u32 = 16_000_000;

/// Minimum system clock frequency
pub const SYSCLK_MIN: u32 = 32_000_000;

/// Maximum system clock frequency
pub const SYSCLK_MAX: u32 = 144_000_000;

/// Maximum APB2 peripheral clock frequency
pub const PCLK2_MAX: u32 = SYSCLK_MAX / 2;

/// Maximum APB1 peripheral clock frequency
pub const PCLK1_MAX: u32 = SYSCLK_MAX / 4;

/// System clock frequency that each flash wait state covers
pub const FLASH_LATENCY_STEP: u32 = 24_000_000;

/// Name of a peripheral bus
#[derive(Clone, Copy, PartialEq, Eq, Structural, Debug)]
pub enum BusName {
    /// Advanced High-performance Bus
    Ahb,
    /// Advanced Peripheral Bus 1
    Apb1,
    /// Advanced Peripheral Bus 2
    Apb2,
}

/// The clock enable register of a bus in `rcc`.
pub open spec fn pclken_of(bus: BusName, rcc: Rcc) -> u32 {
    match bus {
        BusName::Ahb => rcc.ahbpclken,
        BusName::Apb1 => rcc.apb1pclken,
        BusName::Apb2 => rcc.apb2pclken,
    }
}

/// The reset register of a bus in `rcc`.
pub open spec fn prst_of(bus: BusName, rcc: Rcc) -> u32 {
    match bus {
        BusName::Ahb => rcc.ahbprst,
        BusName::Apb1 => rcc.apb1prst,
        BusName::Apb2 => rcc.apb2prst,
    }
}

/// The enable and reset registers of one peripheral bus.
pub trait BusRegisters {
    /// The bus's name.
    spec fn spec_name() -> BusName;

    /// The bus's name.
    fn name() -> (name: BusName)
        ensures
            name == Self::spec_name(),
    ;

    /// The bus's clock enable register in `rcc`.
    spec fn spec_pclken(rcc: Rcc) -> u32;

    /// `rcc` with `word` in the bus's clock enable register.
    spec fn with_pclken(rcc: Rcc, word: u32) -> Rcc;

    /// The bus's reset register in `rcc`.
    spec fn spec_prst(rcc: Rcc) -> u32;

    /// `rcc` with `word` in the bus's reset register.
    spec fn with_prst(rcc: Rcc, word: u32) -> Rcc;

    /// A register holds what was last put into it, and putting a word into
    /// the enable register leaves the reset register alone, and the other
    /// way round.
    proof fn lemma_registers(rcc: Rcc, word: u32)
        ensures
            Self::spec_pclken(Self::with_pclken(rcc, word)) == word,
            Self::spec_prst(Self::with_prst(rcc, word)) == word,
            Self::spec_prst(Self::with_pclken(rcc, word)) == Self::spec_prst(rcc),
            Self::spec_pclken(Self::with_prst(rcc, word)) == Self::spec_pclken(rcc),
            Self::with_pclken(rcc, Self::spec_pclken(rcc)) == rcc,
            Self::with_prst(rcc, Self::spec_prst(rcc)) == rcc,
            Self::spec_pclken(rcc) == pclken_of(Self::spec_name(), rcc),
            Self::spec_prst(rcc) == prst_of(Self::spec_name(), rcc),
    ;

    /// Of two words put into a register one after the other, the second
    /// stays.
    proof fn lemma_overwrite(rcc: Rcc, first: u32, second: u32)
        ensures
            Self::with_pclken(Self::with_pclken(rcc, first), second) == Self::with_pclken(
                rcc,
                second,
            ),
            Self::with_prst(Self::with_prst(rcc, first), second) == Self::with_prst(rcc, second),
    ;

    /// Reads the bus's clock enable register.
    fn read_pclken(rcc: &Rcc) -> (word: u32)
        ensures
            word == Self::spec_pclken(*rcc),
    ;

    /// The bus's clock enable register.
    fn pclken(rcc: &mut Rcc) -> (register: &mut u32)
        ensures
            *register == Self::spec_pclken(*old(rcc)),
            *final(rcc) == Self::with_pclken(*old(rcc), *final(register)),
    ;

    /// The bus's reset register.
    fn prst(rcc: &mut Rcc) -> (register: &mut u32)
        ensures
            *register == Self::spec_prst(*old(rcc)),
            *final(rcc) == Self::with_prst(*old(rcc), *final(register)),
    ;
}

/// Advanced Peripheral Bus 1 (APB1) registers
pub struct APB1 {
    _0: (),
}

/// Advanced Peripheral Bus 2 (APB2) registers
pub struct APB2 {
    _0: (),
}

/// Advanced High-performance Bus (AHB) registers
pub struct AHB {
    _0: (),
}

impl BusRegisters for APB1 {
    open spec fn spec_name() -> BusName {
        BusName::Apb1
    }

    fn name() -> (name: BusName) {
        BusName::Apb1
    }

    open spec fn spec_pclken(rcc: Rcc) -> u32 {
        rcc.apb1pclken
    }

    open spec fn with_pclken(rcc: Rcc, word: u32) -> Rcc {
        Rcc { apb1pclken: word, ..rcc }
    }

    open spec fn spec_prst(rcc: Rcc) -> u32 {
        rcc.apb1prst
    }

    open spec fn with_prst(rcc: Rcc, word: u32) -> Rcc {
        Rcc { apb1prst: word, ..rcc }
    }

    proof fn lemma_registers(rcc: Rcc, word: u32) {
    }

    proof fn lemma_overwrite(rcc: Rcc, first: u32, second: u32) {
    }

    fn read_pclken(rcc: &Rcc) -> (word: u32) {
        rcc.apb1pclken
    }

    fn pclken(rcc: &mut Rcc) -> (register: &mut u32) {
        &mut rcc.apb1pclken
    }

    fn prst(rcc: &mut Rcc) -> (register: &mut u32) {
        &mut rcc.apb1prst
    }
}

impl BusRegisters for APB2 {
    open spec fn spec_name() -> BusName {
        BusName::Apb2
    }

    fn name() -> (name: BusName) {
        BusName::Apb2
    }

    open spec fn spec_pclken(rcc: Rcc) -> u32 {
        rcc.apb2pclken
    }

    open spec fn with_pclken(rcc: Rcc, word: u32) -> Rcc {
        Rcc { apb2pclken: word, ..rcc }
    }

    open spec fn spec_prst(rcc: Rcc) -> u32 {
        rcc.apb2prst
    }

    open spec fn with_prst(rcc: Rcc, word: u32) -> Rcc {
        Rcc { apb2prst: word, ..rcc }
    }

    proof fn lemma_registers(rcc: Rcc, word: u32) {
    }

    proof fn lemma_overwrite(rcc: Rcc, first: u32, second: u32) {
    }

    fn read_pclken(rcc: &Rcc) -> (word: u32) {
        rcc.apb2pclken
    }

    fn pclken(rcc: &mut Rcc) -> (register: &mut u32) {
        &mut rcc.apb2pclken
    }

    fn prst(rcc: &mut Rcc) -> (register: &mut u32) {
        &mut rcc.apb2prst
    }
}

impl BusRegisters for AHB {
    open spec fn spec_name() -> BusName {
        BusName::Ahb
    }

    fn name() -> (name: BusName) {
        BusName::Ahb
    }

    open spec fn spec_pclken(rcc: Rcc) -> u32 {
        rcc.ahbpclken
    }

    open spec fn with_pclken(rcc: Rcc, word: u32) -> Rcc {
        Rcc { ahbpclken: word, ..rcc }
    }

    open spec fn spec_prst(rcc: Rcc) -> u32 {
        rcc.ahbprst
    }

    open spec fn with_prst(rcc: Rcc, word: u32) -> Rcc {
        Rcc { ahbprst: word, ..rcc }
    }

    proof fn lemma_registers(rcc: Rcc, word: u32) {
    }

    proof fn lemma_overwrite(rcc: Rcc, first: u32, second: u32) {
    }

    fn read_pclken(rcc: &Rcc) -> (word: u32) {
        rcc.ahbpclken
    }

    fn pclken(rcc: &mut Rcc) -> (register: &mut u32) {
        &mut rcc.ahbpclken
    }

    fn prst(rcc: &mut Rcc) -> (register: &mut u32) {
        &mut rcc.ahbprst
    }
}

/// Bus associated to peripheral
pub trait RccBus: Sealed + Sized {
    /// Bus type;
    type Bus: BusRegisters;

    /// The peripheral's bit in its bus's enable and reset registers.
    spec fn spec_bit() -> u32;

    /// The peripheral's bit in its bus's enable and reset registers.
    fn bit() -> (bit: u32)
        ensures
            bit == Self::spec_bit(),
            bit < 32,
    ;

    /// The bit lies within the register.
    proof fn lemma_bit()
        ensures
            Self::spec_bit() < 32,
    ;
}

/// Whether the clock of the peripheral `P` is enabled in `rcc`.
pub open spec fn enabled<P: RccBus>(rcc: Rcc) -> bool {
    bb::is_set(P::Bus::spec_pclken(rcc), P::spec_bit())
}

/// `rcc` after the clock of the peripheral `P` was enabled: its bit is set,
/// and nothing else has changed.
pub open spec fn after_enable<P: RccBus>(rcc: Rcc) -> Rcc {
    P::Bus::with_pclken(rcc, bb::with_set(P::Bus::spec_pclken(rcc), P::spec_bit()))
}

/// `rcc` after the clock of the peripheral `P` was disabled: its bit is
/// clear, and nothing else has changed.
pub open spec fn after_disable<P: RccBus>(rcc: Rcc) -> Rcc {
    P::Bus::with_pclken(rcc, bb::with_cleared(P::Bus::spec_pclken(rcc), P::spec_bit()))
}

/// `rcc` after the peripheral `P` was reset: its reset bit is clear, and
/// nothing else has changed.
pub open spec fn after_reset<P: RccBus>(rcc: Rcc) -> Rcc {
    P::Bus::with_prst(rcc, bb::with_cleared(P::Bus::spec_prst(rcc), P::spec_bit()))
}

/// Enable/disable peripheral
pub trait Enable: RccBus {
    /// Enables peripheral
    ///
    /// On the device the peripheral's registers answer only a few cycles
    /// after this write: a data synchronisation barrier has to follow it.
    fn enable(rcc: &mut Rcc)
        ensures
            *final(rcc) == after_enable::<Self>(*old(rcc)),
            enabled::<Self>(*final(rcc)),
    {
        let bit: u32 = Self::bit();
        proof {
            Self::Bus::lemma_registers(*rcc, bb::with_set(Self::Bus::spec_pclken(*rcc), bit));
        }
        bb::set(Self::Bus::pclken(rcc), bit);
    }

    /// Disables peripheral
    fn disable(rcc: &mut Rcc)
        ensures
            *final(rcc) == after_disable::<Self>(*old(rcc)),
            !enabled::<Self>(*final(rcc)),
    {
        let bit: u32 = Self::bit();
        proof {
            Self::Bus::lemma_registers(*rcc, bb::with_cleared(Self::Bus::spec_pclken(*rcc), bit));
        }
        bb::clear(Self::Bus::pclken(rcc), bit);
    }

    /// Check if peripheral enabled
    fn is_enabled(rcc: &Rcc) -> (on: bool)
        ensures
            on == enabled::<Self>(*rcc),
    {
        let bit: u32 = Self::bit();
        bb::read(Self::Bus::read_pclken(rcc), bit)
    }

    /// Check if peripheral disabled
    fn is_disabled(rcc: &Rcc) -> (off: bool)
        ensures
            off == !enabled::<Self>(*rcc),
    {
        !Self::is_enabled(rcc)
    }
}

/// Low power enable/disable peripheral
pub trait LPEnable: RccBus {
    /// Enables peripheral in low power mode
    fn enable_in_low_power(rcc: &mut Rcc);

    /// Disables peripheral in low power mode
    fn disable_in_low_power(rcc: &mut Rcc);

    /// Check if peripheral enabled in low power mode
    fn is_enabled_in_low_power(rcc: &Rcc) -> bool;

    /// Check if peripheral disabled in low power mode
    fn is_disabled_in_low_power(rcc: &Rcc) -> bool {
        !Self::is_enabled_in_low_power(rcc)
    }
}

/// Reset peripheral
pub trait Reset: RccBus {
    /// Resets peripheral: sets its reset bit and clears it again.
    fn reset(rcc: &mut Rcc)
        ensures
            *final(rcc) == after_reset::<Self>(*old(rcc)),
            !bb::is_set(Self::Bus::spec_prst(*final(rcc)), Self::spec_bit()),
    {
        let bit: u32 = Self::bit();
        let ghost before = Self::Bus::spec_prst(*rcc);
        let ghost pulsed = bb::with_set(before, bit);
        proof {
            Self::Bus::lemma_registers(*rcc, pulsed);
            Self::Bus::lemma_registers(*rcc, bb::with_cleared(before, Self::spec_bit()));
            Self::Bus::lemma_registers(
                Self::Bus::with_prst(*rcc, pulsed),
                bb::with_cleared(pulsed, Self::spec_bit()),
            );
            lemma_pulse(before, bit);
        }
        bb::set(Self::Bus::prst(rcc), bit);
        bb::clear(Self::Bus::prst(rcc), bit);
        assert(*rcc == Self::Bus::with_prst(
            Self::Bus::with_prst(*old(rcc), pulsed),
            bb::with_cleared(pulsed, Self::spec_bit()),
        ));
        proof {
            Self::Bus::lemma_overwrite(
                *old(rcc),
                pulsed,
                bb::with_cleared(pulsed, Self::spec_bit()),
            );
        }
    }
}

/// Setting a bit and clearing it again leaves what clearing alone leaves.
pub proof fn lemma_pulse(word: u32, bit: u32)
    requires
        bit < 32,
    ensures
        bb::with_cleared(bb::with_set(word, bit), bit) == bb::with_cleared(word, bit),
{
    assert(((word | (1u32 << bit)) & !(1u32 << bit)) == (word & !(1u32 << bit))) by (bit_vector)
        requires
            bit < 32,
    ;
}

/// A peripheral's clock is enabled after `enable` and disabled after
/// `disable`, whatever the block held before.
pub proof fn lemma_enable_then_enabled<P: Enable>(rcc: Rcc)
    ensures
        enabled::<P>(after_enable::<P>(rcc)),
        !enabled::<P>(after_disable::<P>(rcc)),
{
    P::lemma_bit();
    let word = P::Bus::spec_pclken(rcc);
    P::Bus::lemma_registers(rcc, bb::with_set(word, P::spec_bit()));
    P::Bus::lemma_registers(rcc, bb::with_cleared(word, P::spec_bit()));
    bb::lemma_set(word, P::spec_bit());
    bb::lemma_clear(word, P::spec_bit());
}

/// Enabling or disabling a peripheral leaves every other peripheral of its
/// bus as it was.
pub proof fn lemma_enable_keeps_others<P: Enable, Q: RccBus<Bus = P::Bus>>(rcc: Rcc)
    requires
        P::spec_bit() != Q::spec_bit(),
    ensures
        enabled::<Q>(after_enable::<P>(rcc)) == enabled::<Q>(rcc),
        enabled::<Q>(after_disable::<P>(rcc)) == enabled::<Q>(rcc),
{
    P::lemma_bit();
    Q::lemma_bit();
    let word = P::Bus::spec_pclken(rcc);
    P::Bus::lemma_registers(rcc, bb::with_set(word, P::spec_bit()));
    P::Bus::lemma_registers(rcc, bb::with_cleared(word, P::spec_bit()));
    bb::lemma_set(word, P::spec_bit());
    bb::lemma_clear(word, P::spec_bit());
}

/// Enabling twice is enabling once, and so for disabling and for a reset.
pub proof fn lemma_enable_idempotent<P: Enable + Reset>(rcc: Rcc)
    ensures
        after_enable::<P>(after_enable::<P>(rcc)) == after_enable::<P>(rcc),
        after_disable::<P>(after_disable::<P>(rcc)) == after_disable::<P>(rcc),
        after_reset::<P>(after_reset::<P>(rcc)) == after_reset::<P>(rcc),
{
    P::lemma_bit();
    let bit = P::spec_bit();
    let word = P::Bus::spec_pclken(rcc);
    let rst = P::Bus::spec_prst(rcc);
    P::Bus::lemma_registers(rcc, bb::with_set(word, bit));
    P::Bus::lemma_registers(rcc, bb::with_cleared(word, bit));
    P::Bus::lemma_registers(rcc, bb::with_cleared(rst, bit));
    P::Bus::lemma_overwrite(
        rcc,
        bb::with_set(word, bit),
        bb::with_set(bb::with_set(word, bit), bit),
    );
    P::Bus::lemma_overwrite(
        rcc,
        bb::with_cleared(word, bit),
        bb::with_cleared(bb::with_cleared(word, bit), bit),
    );
    P::Bus::lemma_overwrite(
        rcc,
        bb::with_cleared(rst, bit),
        bb::with_cleared(bb::with_cleared(rst, bit), bit),
    );
    assert(((word | (1u32 << bit)) | (1u32 << bit)) == (word | (1u32 << bit))) by (bit_vector);
    assert(((word & !(1u32 << bit)) & !(1u32 << bit)) == (word & !(1u32 << bit)))
        by (bit_vector);
    assert(((rst & !(1u32 << bit)) & !(1u32 << bit)) == (rst & !(1u32 << bit))) by (bit_vector);
}

/// Extension trait that constrains the `Rcc` peripheral
pub trait RccExt {
    /// Constrains the `Rcc` peripheral so it plays nicely with the other abstractions
    fn constrain(self) -> (rcc: RccCon)
        ensures
            rcc.cfgr@ == ClockRequest::none(),
    ;
}

/// Frozen clock frequencies, in Hz
///
/// The existence of this value indicates that the clock configuration can no longer be changed
#[derive(Clone, Copy, PartialEq, Eq, Structural, Debug)]
pub struct Clocks {
    pub hclk: u32,
    pub pclk1: u32,
    pub pclk2: u32,
    pub sysclk: u32,
}

impl Clocks {
    /// Returns the frequency of the AHB
    pub fn hclk(&self) -> (hz: u32)
        ensures
            hz == self.hclk,
    {
        self.hclk
    }

    /// Returns the frequency of the APB1
    pub fn pclk1(&self) -> (hz: u32)
        ensures
            hz == self.pclk1,
    {
        self.pclk1
    }

    /// Returns the frequency of the APB2
    pub fn pclk2(&self) -> (hz: u32)
        ensures
            hz == self.pclk2,
    {
        self.pclk2
    }

    /// Returns the system (core) frequency
    pub fn sysclk(&self) -> (hz: u32)
        ensures
            hz == self.sysclk,
    {
        self.sysclk
    }
}

/// Frequency on bus that peripheral is connected in
pub trait BusClock {
    /// The frequency for given clocks.
    spec fn spec_clock(clocks: Clocks) -> u32;

    /// Calculates frequency depending on `Clock` state
    fn clock(clocks: &Clocks) -> (hz: u32)
        ensures
            hz == Self::spec_clock(*clocks),
    ;
}

/// Frequency on bus that timer is connected in
pub trait BusTimerClock {
    /// The timer base frequency for given clocks.
    spec fn spec_timer_clock(clocks: Clocks) -> int;

    /// Calculates base frequency of timer depending on `Clock` state
    fn timer_clock(clocks: &Clocks) -> (hz: u32)
        requires
            Self::spec_timer_clock(*clocks) <= u32::MAX,
        ensures
            hz == Self::spec_timer_clock(*clocks),
    ;
}

impl<T> BusClock for T where T: RccBus, T::Bus: BusClock {
    open spec fn spec_clock(clocks: Clocks) -> u32 {
        T::Bus::spec_clock(clocks)
    }

    fn clock(clocks: &Clocks) -> (hz: u32) {
        T::Bus::clock(clocks)
    }
}

impl BusClock for AHB {
    open spec fn spec_clock(clocks: Clocks) -> u32 {
        clocks.hclk
    }

    fn clock(clocks: &Clocks) -> (hz: u32) {
        clocks.hclk
    }
}

impl BusClock for APB1 {
    open spec fn spec_clock(clocks: Clocks) -> u32 {
        clocks.pclk1
    }

    fn clock(clocks: &Clocks) -> (hz: u32) {
        clocks.pclk1
    }
}

impl BusClock for APB2 {
    open spec fn spec_clock(clocks: Clocks) -> u32 {
        clocks.pclk2
    }

    fn clock(clocks: &Clocks) -> (hz: u32) {
        clocks.pclk2
    }
}

impl BusTimerClock for APB1 {
    open spec fn spec_timer_clock(clocks: Clocks) -> int {
        clocks.pclk1 as int
    }

    fn timer_clock(clocks: &Clocks) -> (hz: u32) {
        clocks.pclk1()
    }
}

impl BusTimerClock for APB2 {
    open spec fn spec_timer_clock(clocks: Clocks) -> int {
        clocks.pclk2 as int
    }

    fn timer_clock(clocks: &Clocks) -> (hz: u32) {
        clocks.pclk2()
    }
}

impl BusTimerClock for crate::pac::Tim1 {
    open spec fn spec_timer_clock(clocks: Clocks) -> int {
        2 * clocks.pclk2
    }

    fn timer_clock(clocks: &Clocks) -> (hz: u32) {
        APB2::timer_clock(clocks) * 2
    }
}

impl BusTimerClock for crate::pac::Tim8 {
    open spec fn spec_timer_clock(clocks: Clocks) -> int {
        2 * clocks.pclk2
    }

    fn timer_clock(clocks: &Clocks) -> (hz: u32) {
        APB2::timer_clock(clocks) * 2
    }
}

impl BusTimerClock for crate::pac::Tim2 {
    open spec fn spec_timer_clock(clocks: Clocks) -> int {
        clocks.pclk1 as int
    }

    fn timer_clock(clocks: &Clocks) -> (hz: u32) {
        APB1::timer_clock(clocks)
    }
}

impl BusTimerClock for crate::pac::Tim3 {
    open spec fn spec_timer_clock(clocks: Clocks) -> int {
        clocks.pclk1 as int
    }

    fn timer_clock(clocks: &Clocks) -> (hz: u32) {
        APB1::timer_clock(clocks)
    }
}

impl BusTimerClock for crate::pac::Tim4 {
    open spec fn spec_timer_clock(clocks: Clocks) -> int {
        clocks.pclk1 as int
    }

    fn timer_clock(clocks: &Clocks) -> (hz: u32) {
        APB1::timer_clock(clocks)
    }
}

impl BusTimerClock for crate::pac::Tim5 {
    open spec fn spec_timer_clock(clocks: Clocks) -> int {
        clocks.pclk1 as int
    }

    fn timer_clock(clocks: &Clocks) -> (hz: u32) {
        APB1::timer_clock(clocks)
    }
}

impl BusTimerClock for crate::pac::Tim6 {
    open spec fn spec_timer_clock(clocks: Clocks) -> int {
        clocks.pclk1 as int
    }

    fn timer_clock(clocks: &Clocks) -> (hz: u32) {
        APB1::timer_clock(clocks)
    }
}

impl BusTimerClock for crate::pac::Tim7 {
    open spec fn spec_timer_clock(clocks: Clocks) -> int {
        clocks.pclk1 as int
    }

    fn timer_clock(clocks: &Clocks) -> (hz: u32) {
        APB1::timer_clock(clocks)
    }
}

/// Constrained Rcc peripheral
pub struct RccCon {
    pub cfgr: CFGR,
}

impl RccExt for Rcc {
    fn constrain(self) -> (rcc: RccCon) {
        RccCon {
            cfgr: CFGR {
                hse: None,
                hse_bypass: false,
                hclk: None,
                pclk1: None,
                pclk2: None,
                sysclk: None,
            },
        }
    }
}

/// Requested clock configuration, built up step by step and then frozen.
pub struct CFGR {
    hse: Option<u32>,
    hse_bypass: bool,
    hclk: Option<u32>,
    pclk1: Option<u32>,
    pclk2: Option<u32>,
    sysclk: Option<u32>,
}

#[derive(Clone, Copy, PartialEq, Eq, Structural, Debug)]
struct PllSetup {
    use_pll: bool,
    pllsysclk: Option<u32>,
}

impl View for CFGR {
    type V = ClockRequest;

    closed spec fn view(&self) -> ClockRequest {
        ClockRequest {
            hse: self.hse,
            hse_bypass: self.hse_bypass,
            hclk: self.hclk,
            pclk1: self.pclk1,
            pclk2: self.pclk2,
            sysclk: self.sysclk,
        }
    }
}

impl CFGR {
    /// Uses HSE (external oscillator) of `freq` Hz instead of HSI (internal RC oscillator) as
    /// the clock source.
    pub fn use_hse(self, freq: u32) -> (cfgr: CFGR)
        ensures
            cfgr@ == (ClockRequest { hse: Some(freq), ..self@ }),
    {
        let mut cfgr = self;
        cfgr.hse = Some(freq);
        cfgr
    }

    /// Bypasses the high-speed external oscillator and uses an external clock input on the OSC_IN
    /// pin.
    ///
    /// For this configuration, the OSC_IN pin should be connected to a clock source with a
    /// frequency specified in the call to use_hse(), and the OSC_OUT pin should not be connected.
    ///
    /// This function has no effect unless use_hse() is also called.
    pub fn bypass_hse_oscillator(self) -> (cfgr: CFGR)
        ensures
            cfgr@ == (ClockRequest { hse_bypass: true, ..self@ }),
    {
        CFGR { hse_bypass: true, ..self }
    }

    /// Asks for an AHB clock of `freq` Hz.
    pub fn hclk(self, freq: u32) -> (cfgr: CFGR)
        ensures
            cfgr@ == (ClockRequest { hclk: Some(freq), ..self@ }),
    {
        let mut cfgr = self;
        cfgr.hclk = Some(freq);
        cfgr
    }

    /// Asks for an APB1 clock of `freq` Hz.
    pub fn pclk1(self, freq: u32) -> (cfgr: CFGR)
        ensures
            cfgr@ == (ClockRequest { pclk1: Some(freq), ..self@ }),
    {
        let mut cfgr = self;
        cfgr.pclk1 = Some(freq);
        cfgr
    }

    /// Asks for an APB2 clock of `freq` Hz.
    pub fn pclk2(self, freq: u32) -> (cfgr: CFGR)
        ensures
            cfgr@ == (ClockRequest { pclk2: Some(freq), ..self@ }),
    {
        let mut cfgr = self;
        cfgr.pclk2 = Some(freq);
        cfgr
    }

    /// Asks for a system clock of `freq` Hz.
    pub fn sysclk(self, freq: u32) -> (cfgr: CFGR)
        ensures
            cfgr@ == (ClockRequest { sysclk: Some(freq), ..self@ }),
    {
        let mut cfgr = self;
        cfgr.sysclk = Some(freq);
        cfgr
    }

    fn pll_setup(&self, pllsrcclk: u32, pllsysclk: Option<u32>, rcc: &mut Rcc) -> (plls: PllSetup)
        requires
            pllsysclk matches Some(target) ==> pll::solvable(
                pllsrcclk as int,
                self@.hse is Some,
                target as int,
            ),
        ensures
            pllsysclk is None ==> plls == (PllSetup { use_pll: false, pllsysclk: None })
                && *final(rcc) == *old(rcc),
            pllsysclk matches Some(target) ==> ({
                &&& plls.use_pll
                &&& plls.pllsysclk matches Some(achieved)
                &&& achieved == pll::output(pllsrcclk as int, self@.hse is Some, target as int)
                &&& *final(rcc) == (Rcc {
                    cfg: pll::pll_cfg(pllsrcclk as int, self@.hse is Some, target as int),
                    ..*old(rcc)
                })
            }),
    {
        let main_pll = MainPll::fast_setup(pllsrcclk, self.hse.is_some(), pllsysclk, rcc);
        PllSetup { use_pll: main_pll.use_pll, pllsysclk: main_pll.pllsysclk }
    }

    fn flash_setup(sysclk: u32, flash: &mut Flash)
        requires
            sysclk >= 1,
        ensures
            *final(flash) == (Flash {
                ac: FlashAc {
                    latency: tree::flash_wait_states(sysclk as int) as u8,
                    prftbfe: true,
                    icahen: true,
                },
            }),
    {
        flash.ac.latency = tree::flash_latency(sysclk);
        flash.ac.prftbfe = true;
        flash.ac.icahen = true;
    }

    /// The system clock that the request leads to, or `None` where the PLL
    /// is needed and has no solution.
    fn resolve_sysclk(&self) -> (sysclk: Option<u32>)
        ensures
            sysclk is Some <==> (self@.on_pll() ==> pll::solvable(
                self@.pll_source(),
                self@.hse is Some,
                self@.target(),
            )),
            sysclk matches Some(f) ==> f == self@.sysclk(),
    {
        let pllsrcclk: u32 = match self.hse {
            Some(f) => f,
            None => HSI,
        };
        let target: u32 = match self.sysclk {
            Some(f) => f,
            None => pllsrcclk,
        };
        if target != pllsrcclk {
            if !pll::is_solvable(pllsrcclk, self.hse.is_some(), target) {
                return None;
            }
            proof {
                pll::lemma_output_closest(pllsrcclk as int, self.hse is Some, target as int);
            }
            let presc: u32 = pll::choose_prescaler(pllsrcclk, self.hse.is_some(), target);
            let vco_in: u32 = pllsrcclk / presc;
            Some(vco_in * (target / vco_in))
        } else {
            Some(target)
        }
    }

    /// The frequencies that the request leads to, or `None` where they
    /// cannot be computed. No register is touched.
    pub fn clocks(&self) -> (clocks: Option<Clocks>)
        ensures
            clocks is Some <==> self@.computable(),
            clocks matches Some(c) ==> c == self@.clocks(),
    {
        let sysclk: u32 = match self.resolve_sysclk() {
            Some(f) => f,
            None => {
                return None;
            },
        };
        let hclk: u32 = match tree::ahb_stage(sysclk, self.hclk) {
            Some((_, hclk)) => hclk,
            None => {
                return None;
            },
        };
        let pclk1: u32 = match tree::apb_stage(hclk, self.pclk1, PCLK1_MAX) {
            Some((_, pclk)) => pclk,
            None => {
                return None;
            },
        };
        let pclk2: u32 = match tree::apb_stage(hclk, self.pclk2, PCLK2_MAX) {
            Some((_, pclk)) => pclk,
            None => {
                return None;
            },
        };
        match self.hse {
            Some(f) => {
                if f <= 32_000_000 && f < 1_000_000 {
                    return None;
                }
            },
            None => {},
        }
        Some(Clocks { hclk, pclk1, pclk2, sysclk })
    }

    /// The steps that bring the request to the hardware, in the order in
    /// which they have to be taken.
    pub fn steps(&self) -> (steps: Vec<ClockStep>)
        requires
            self@.computable(),
        ensures
            steps@ == self@.steps(),
    {
        let pllsrcclk: u32 = match self.hse {
            Some(f) => f,
            None => HSI,
        };
        let target: u32 = match self.sysclk {
            Some(f) => f,
            None => pllsrcclk,
        };
        let sysclk_on_pll = target != pllsrcclk;
        let mut staged = Rcc {
            ctrl: RccCtrl { hseen: false, hsebp: false, hserdf: false, pllen: false, pllrdf: false },
            cfg: RccCfg::reset_value(),
            cfg2: RccCfg2 { adc1msel: false, adc1mpres: 0, adchpres: 0, adcpllpres: 0 },
            cfg3: RccCfg3 { trng1msel: false, trng1mpres: 0 },
            ahbpclken: 0,
            apb1pclken: 0,
            apb2pclken: 0,
            ahbprst: 0,
            apb1prst: 0,
            apb2prst: 0,
        };
        let mut steps: Vec<ClockStep> = Vec::new();
        let plls = self.pll_setup(
            pllsrcclk,
            if sysclk_on_pll {
                Some(target)
            } else {
                None
            },
            &mut staged,
        );
        let sysclk: u32 = if sysclk_on_pll {
            match plls.pllsysclk {
                Some(f) => f,
                None => target,
            }
        } else {
            target
        };
        if plls.use_pll {
            steps.push(
                ClockStep::WritePll {
                    pllmulfct_h: staged.cfg.pllmulfct_h,
                    pllmulfct: staged.cfg.pllmulfct,
                    pllhsepres: staged.cfg.pllhsepres,
                    pllsrc: staged.cfg.pllsrc,
                },
            );
        }
        let (hpre_bits, ppre1_bits, ppre2_bits, clocks) = self.divide(sysclk);
        steps.push(ClockStep::SetFlashLatency { latency: tree::flash_latency(sysclk) });
        assert(steps@ == self@.preparing_steps());
        if self.hse.is_some() {
            steps.push(ClockStep::EnableHse { bypass: self.hse_bypass });
            steps.push(ClockStep::AwaitHseReady);
        }
        if plls.use_pll {
            steps.push(ClockStep::EnablePll);
            steps.push(ClockStep::AwaitPllReady);
        }
        assert(steps@ == self@.starting_steps());
        steps.push(
            ClockStep::SetPrescalers {
                ahbpres: hpre_bits,
                apb1pres: ppre1_bits,
                apb2pres: ppre2_bits,
            },
        );
        steps.push(ClockStep::Delay { cycles: commit::PRESCALER_DELAY });
        let usb_pres: u8 = tree::usb_prescaler(clocks.hclk);
        steps.push(ClockStep::SetUsbPrescaler { usbpres: usb_pres });
        let (adc_1m_sel, adc_1m_pres) = tree::adc_1m_setup(self.hse);
        steps.push(ClockStep::SetAdc1m { adc1msel: adc_1m_sel, adc1mpres: adc_1m_pres });
        let (trng_1m_sel, trng_1m_pres) = tree::trng_1m_setup(self.hse);
        steps.push(ClockStep::SetAdcPrescalers { adchpres: 1, adcpllpres: 17 });
        steps.push(ClockStep::SetTrng1m { trng1msel: trng_1m_sel, trng1mpres: trng_1m_pres });
        steps.push(ClockStep::SetUsbPrescaler { usbpres: usb_pres });
        steps.push(
            ClockStep::SelectSysclk {
                sclksw: if sysclk_on_pll {
                    Sclksw::Pll
                } else if self.hse.is_some() {
                    Sclksw::Hse
                } else {
                    Sclksw::Hsi
                },
            },
        );
        steps
    }

    /// Whether the request leads to clocks within the device's limits:
    /// whether [`CFGR::freeze`] accepts it.
    pub fn is_valid(&self) -> (ok: bool)
        ensures
            ok == self@.valid(),
    {
        let pllsrcclk: u32 = match self.hse {
            Some(f) => f,
            None => HSI,
        };
        let target: u32 = match self.sysclk {
            Some(f) => f,
            None => pllsrcclk,
        };
        match self.clocks() {
            None => false,
            Some(clocks) => {
                proof {
                    tree::lemma_hclk_divides(self@);
                    tree::lemma_pclk_divides(self@);
                }
                SYSCLK_MIN <= clocks.sysclk && clocks.sysclk <= SYSCLK_MAX && clocks.pclk1
                    <= PCLK1_MAX && clocks.pclk2 <= PCLK2_MAX && (target == pllsrcclk
                    || MainPll::factor(pllsrcclk, self.hse.is_some(), target) <= pll::PLL_MUL_MAX)
            },
        }
    }

    /// Whether every step from the request to the clocks can be computed:
    /// whether [`CFGR::freeze_unchecked`] accepts it.
    pub fn is_computable(&self) -> (ok: bool)
        ensures
            ok == self@.computable(),
    {
        self.clocks().is_some()
    }

    /// Initialises the hardware according to CFGR state returning a Clocks instance.
    ///
    /// The request has to be valid: see [`CFGR::is_valid`].
    pub fn freeze(self, rcc: &mut Rcc, flash: &mut Flash) -> (clocks: Clocks)
        requires
            self@.valid(),
        ensures
            clocks == self@.clocks(),
            *final(rcc) == self@.committed(*old(rcc)),
            *final(flash) == self@.flash_committed(*old(flash)),
            SYSCLK_MIN <= clocks.sysclk <= SYSCLK_MAX,
            clocks.pclk1 <= PCLK1_MAX,
            clocks.pclk2 <= PCLK2_MAX,
    {
        self.freeze_internal(false, rcc, flash)
    }

    /// Initialises the hardware according to CFGR state returning a Clocks instance.
    /// Allows overclocking.
    ///
    /// This method does not check if the clocks are bigger or smaller than the officially
    /// recommended. The request has to be computable: see [`CFGR::is_computable`].
    pub fn freeze_unchecked(self, rcc: &mut Rcc, flash: &mut Flash) -> (clocks: Clocks)
        requires
            self@.computable(),
        ensures
            clocks == self@.clocks(),
            *final(rcc) == self@.committed(*old(rcc)),
            *final(flash) == self@.flash_committed(*old(flash)),
    {
        self.freeze_internal(true, rcc, flash)
    }

    fn freeze_internal(self, unchecked: bool, rcc: &mut Rcc, flash: &mut Flash) -> (clocks: Clocks)
        requires
            self@.computable(),
            !unchecked ==> self@.valid(),
        ensures
            clocks == self@.clocks(),
            *final(rcc) == self@.committed(*old(rcc)),
            *final(flash) == self@.flash_committed(*old(flash)),
            !unchecked ==> SYSCLK_MIN <= clocks.sysclk <= SYSCLK_MAX && clocks.pclk1 <= PCLK1_MAX
                && clocks.pclk2 <= PCLK2_MAX,
    {
        let pllsrcclk: u32 = match self.hse {
            Some(f) => f,
            None => HSI,
        };
        let sysclk: u32 = match self.sysclk {
            Some(f) => f,
            None => pllsrcclk,
        };
        let sysclk_on_pll = sysclk != pllsrcclk;

        let plls = self.pll_setup(
            pllsrcclk,
            if sysclk_on_pll {
                Some(sysclk)
            } else {
                None
            },
            rcc,
        );
        let sysclk: u32 = if sysclk_on_pll {
            match plls.pllsysclk {
                Some(f) => f,
                None => sysclk,
            }
        } else {
            sysclk
        };

        let (hpre_bits, ppre1_bits, ppre2_bits, clocks) = self.divide(sysclk);

        Self::flash_setup(sysclk, flash);

        // Enable HSE and PLL as far as they are used. On the device each
        // ready flag has to be awaited before the next step.
        if self.hse.is_some() {
            if self.hse_bypass {
                rcc.ctrl.hsebp = true;
            }
            rcc.ctrl.hseen = true;
        }
        if plls.use_pll {
            rcc.ctrl.pllen = true;
        }
        // Set scaling factors. On the device they take effect up to 16 AHB
        // cycles after the write.

        rcc.cfg.apb2pres = ppre2_bits;
        rcc.cfg.apb1pres = ppre1_bits;
        rcc.cfg.ahbpres = hpre_bits;

        rcc.cfg.usbpres = tree::usb_prescaler(clocks.hclk);

        let (adc_1m_sel, adc_1m_pres) = tree::adc_1m_setup(self.hse);
        rcc.cfg2 = RccCfg2 {
            adc1msel: adc_1m_sel,
            adc1mpres: adc_1m_pres,
            adchpres: 1,
            adcpllpres: 17,
        };

        let (trng_1m_sel, trng_1m_pres) = tree::trng_1m_setup(self.hse);
        rcc.cfg3 = RccCfg3 { trng1msel: trng_1m_sel, trng1mpres: trng_1m_pres };

        // Select system clock source
        rcc.cfg.sclksw = if sysclk_on_pll {
            Sclksw::Pll
        } else if self.hse.is_some() {
            Sclksw::Hse
        } else {
            Sclksw::Hsi
        };

        clocks
    }

    /// Derives the bus prescalers and the bus clocks from the system clock
    /// that results.
    fn divide(&self, sysclk: u32) -> (tree: (Ahbpres, Apb1pres, Apb1pres, Clocks))
        requires
            self@.computable(),
            sysclk == self@.sysclk(),
        ensures
            tree.0 == self@.ahb_prescaler(),
            tree.1 == self@.apb1_prescaler(),
            tree.2 == self@.apb2_prescaler(),
            tree.3 == self@.clocks(),
            tree.3.sysclk == self@.sysclk(),
            tree.3.hclk == self@.hclk(),
            tree.3.pclk1 == self@.pclk1(),
            tree.3.pclk2 == self@.pclk2(),
    {
        let hclk: u32 = match self.hclk {
            Some(f) => f,
            None => sysclk,
        };
        let hpre_bits = tree::ahb_prescaler_for(sysclk, hclk);
        let hpre_div: u32 = hpre_bits.divisor();

        // Calculate real AHB clock
        let hclk: u32 = sysclk / hpre_div;

        let pclk1: u32 = match self.pclk1 {
            Some(f) => f,
            None => if hclk < PCLK1_MAX {
                hclk
            } else {
                PCLK1_MAX
            },
        };
        let ppre1_bits = tree::apb_prescaler_for(hclk, pclk1);

        // Calculate real APB1 clock
        let pclk1: u32 = hclk / ppre1_bits.divisor();

        let pclk2: u32 = match self.pclk2 {
            Some(f) => f,
            None => if hclk < PCLK2_MAX {
                hclk
            } else {
                PCLK2_MAX
            },
        };
        let ppre2_bits = tree::apb_prescaler_for(hclk, pclk2);

        // Calculate real APB2 clock
        let pclk2: u32 = hclk / ppre2_bits.divisor();

        (hpre_bits, ppre1_bits, ppre2_bits, Clocks { hclk, pclk1, pclk2, sysclk })
    }
}

} // verus!
