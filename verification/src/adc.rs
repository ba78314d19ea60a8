//! Analog to digital converter configuration.
//!
//! The types of this module say how a converter is to be set up. Each choice
//! knows the bits that select it in the converter's registers.

use vstd::prelude::*;
use vstd::std_specs::convert::FromSpecImpl;

verus! {

/// Vref internal signal, used for calibration
pub struct Vref;

/// Vbat internal signal, used for monitoring the battery (if used)
pub struct Vbat;

/// Core temperature internal signal
pub struct Temperature;

/// The place in the sequence a given channel should be captured
#[allow(non_camel_case_types)]
#[derive(Copy, Clone, PartialEq, Eq, Structural, PartialOrd, Ord, Debug)]
pub enum RegularSequence {
    /// 1
    One,
    /// 2
    Two,
    /// 3
    Three,
    /// 4
    Four,
    /// 5
    Five,
    /// 6
    Six,
    /// 7
    Seven,
    /// 8
    Eight,
    /// 9
    Nine,
    /// 10
    Ten,
    /// 11
    Eleven,
    /// 12
    Twelve,
    /// 13
    Thirteen,
    /// 14
    Fourteen,
    /// 15
    Fifteen,
    /// 16
    Sixteen,
}

impl RegularSequence {
    /// The bits that select this choice.
    pub open spec fn spec_bits(self) -> u8 {
        match self {
            RegularSequence::One => 0,
            RegularSequence::Two => 1,
            RegularSequence::Three => 2,
            RegularSequence::Four => 3,
            RegularSequence::Five => 4,
            RegularSequence::Six => 5,
            RegularSequence::Seven => 6,
            RegularSequence::Eight => 7,
            RegularSequence::Nine => 8,
            RegularSequence::Ten => 9,
            RegularSequence::Eleven => 10,
            RegularSequence::Twelve => 11,
            RegularSequence::Thirteen => 12,
            RegularSequence::Fourteen => 13,
            RegularSequence::Fifteen => 14,
            RegularSequence::Sixteen => 15,
        }
    }

    /// The choice that the bits `bits` select.
    pub open spec fn spec_from(bits: u8) -> RegularSequence
        recommends
            bits <= 15,
    {
        if bits == 0 {
            RegularSequence::One
        } else if bits == 1 {
            RegularSequence::Two
        } else if bits == 2 {
            RegularSequence::Three
        } else if bits == 3 {
            RegularSequence::Four
        } else if bits == 4 {
            RegularSequence::Five
        } else if bits == 5 {
            RegularSequence::Six
        } else if bits == 6 {
            RegularSequence::Seven
        } else if bits == 7 {
            RegularSequence::Eight
        } else if bits == 8 {
            RegularSequence::Nine
        } else if bits == 9 {
            RegularSequence::Ten
        } else if bits == 10 {
            RegularSequence::Eleven
        } else if bits == 11 {
            RegularSequence::Twelve
        } else if bits == 12 {
            RegularSequence::Thirteen
        } else if bits == 13 {
            RegularSequence::Fourteen
        } else if bits == 14 {
            RegularSequence::Fifteen
        } else {
            RegularSequence::Sixteen
        }
    }

    /// The choice that the bits `bits` select. There is none for bits above 15.
    pub fn from(bits: u8) -> (choice: RegularSequence)
        requires
            bits <= 15,
        ensures
            choice == Self::spec_from(bits),
            choice.spec_bits() == bits,
    {
        match bits {
            0 => RegularSequence::One,
            1 => RegularSequence::Two,
            2 => RegularSequence::Three,
            3 => RegularSequence::Four,
            4 => RegularSequence::Five,
            5 => RegularSequence::Six,
            6 => RegularSequence::Seven,
            7 => RegularSequence::Eight,
            8 => RegularSequence::Nine,
            9 => RegularSequence::Ten,
            10 => RegularSequence::Eleven,
            11 => RegularSequence::Twelve,
            12 => RegularSequence::Thirteen,
            13 => RegularSequence::Fourteen,
            14 => RegularSequence::Fifteen,
            _ => RegularSequence::Sixteen,
        }
    }
}

impl From<RegularSequence> for u8 {
    fn from(s: RegularSequence) -> (bits: u8) {
        match s {
            RegularSequence::One => 0,
            RegularSequence::Two => 1,
            RegularSequence::Three => 2,
            RegularSequence::Four => 3,
            RegularSequence::Five => 4,
            RegularSequence::Six => 5,
            RegularSequence::Seven => 6,
            RegularSequence::Eight => 7,
            RegularSequence::Nine => 8,
            RegularSequence::Ten => 9,
            RegularSequence::Eleven => 10,
            RegularSequence::Twelve => 11,
            RegularSequence::Thirteen => 12,
            RegularSequence::Fourteen => 13,
            RegularSequence::Fifteen => 14,
            RegularSequence::Sixteen => 15,
        }
    }
}

impl FromSpecImpl<RegularSequence> for u8 {
    open spec fn obeys_from_spec() -> bool {
        true
    }

    open spec fn from_spec(s: RegularSequence) -> u8 {
        s.spec_bits()
    }
}

/// The place in the sequence a given channel should be captured
#[allow(non_camel_case_types)]
#[derive(Copy, Clone, PartialEq, Eq, Structural, PartialOrd, Ord, Debug)]
pub enum InjectedSequence {
    /// 1
    One,
    /// 2
    Two,
    /// 3
    Three,
    /// 4
    Four,
}

impl InjectedSequence {
    /// The bits that select this choice.
    pub open spec fn spec_bits(self) -> u8 {
        match self {
            InjectedSequence::One => 0,
            InjectedSequence::Two => 1,
            InjectedSequence::Three => 2,
            InjectedSequence::Four => 3,
        }
    }

    /// The choice that the bits `bits` select.
    pub open spec fn spec_from(bits: u8) -> InjectedSequence
        recommends
            bits <= 3,
    {
        if bits == 0 {
            InjectedSequence::One
        } else if bits == 1 {
            InjectedSequence::Two
        } else if bits == 2 {
            InjectedSequence::Three
        } else {
            InjectedSequence::Four
        }
    }

    /// The choice that the bits `bits` select. There is none for bits above 3.
    pub fn from(bits: u8) -> (choice: InjectedSequence)
        requires
            bits <= 3,
        ensures
            choice == Self::spec_from(bits),
            choice.spec_bits() == bits,
    {
        match bits {
            0 => InjectedSequence::One,
            1 => InjectedSequence::Two,
            2 => InjectedSequence::Three,
            _ => InjectedSequence::Four,
        }
    }
}

impl From<InjectedSequence> for u8 {
    fn from(s: InjectedSequence) -> (bits: u8) {
        match s {
            InjectedSequence::One => 0,
            InjectedSequence::Two => 1,
            InjectedSequence::Three => 2,
            InjectedSequence::Four => 3,
        }
    }
}

impl FromSpecImpl<InjectedSequence> for u8 {
    open spec fn obeys_from_spec() -> bool {
        true
    }

    open spec fn from_spec(s: InjectedSequence) -> u8 {
        s.spec_bits()
    }
}

/// The number of cycles to sample a given channel for
#[allow(non_camel_case_types)]
#[derive(Copy, Clone, PartialEq, Eq, Structural, Debug)]
pub enum SampleTime {
    /// 3 cycles
    Cycles_3,
    /// 15 cycles
    Cycles_15,
    /// 28 cycles
    Cycles_28,
    /// 56 cycles
    Cycles_56,
    /// 84 cycles
    Cycles_84,
    /// 112 cycles
    Cycles_112,
    /// 144 cycles
    Cycles_144,
    /// 480 cycles
    Cycles_480,
}

impl SampleTime {
    /// The bits that select this choice.
    pub open spec fn spec_bits(self) -> u8 {
        match self {
            SampleTime::Cycles_3 => 0,
            SampleTime::Cycles_15 => 1,
            SampleTime::Cycles_28 => 2,
            SampleTime::Cycles_56 => 3,
            SampleTime::Cycles_84 => 4,
            SampleTime::Cycles_112 => 5,
            SampleTime::Cycles_144 => 6,
            SampleTime::Cycles_480 => 7,
        }
    }

    /// The choice that the bits `bits` select.
    pub open spec fn spec_from(bits: u8) -> SampleTime
        recommends
            bits <= 7,
    {
        if bits == 0 {
            SampleTime::Cycles_3
        } else if bits == 1 {
            SampleTime::Cycles_15
        } else if bits == 2 {
            SampleTime::Cycles_28
        } else if bits == 3 {
            SampleTime::Cycles_56
        } else if bits == 4 {
            SampleTime::Cycles_84
        } else if bits == 5 {
            SampleTime::Cycles_112
        } else if bits == 6 {
            SampleTime::Cycles_144
        } else {
            SampleTime::Cycles_480
        }
    }

    /// The choice that the bits `bits` select. There is none for bits above 7.
    pub fn from(bits: u8) -> (choice: SampleTime)
        requires
            bits <= 7,
        ensures
            choice == Self::spec_from(bits),
            choice.spec_bits() == bits,
    {
        match bits {
            0 => SampleTime::Cycles_3,
            1 => SampleTime::Cycles_15,
            2 => SampleTime::Cycles_28,
            3 => SampleTime::Cycles_56,
            4 => SampleTime::Cycles_84,
            5 => SampleTime::Cycles_112,
            6 => SampleTime::Cycles_144,
            _ => SampleTime::Cycles_480,
        }
    }
}

impl From<SampleTime> for u8 {
    fn from(s: SampleTime) -> (bits: u8) {
        match s {
            SampleTime::Cycles_3 => 0,
            SampleTime::Cycles_15 => 1,
            SampleTime::Cycles_28 => 2,
            SampleTime::Cycles_56 => 3,
            SampleTime::Cycles_84 => 4,
            SampleTime::Cycles_112 => 5,
            SampleTime::Cycles_144 => 6,
            SampleTime::Cycles_480 => 7,
        }
    }
}

impl FromSpecImpl<SampleTime> for u8 {
    open spec fn obeys_from_spec() -> bool {
        true
    }

    open spec fn from_spec(s: SampleTime) -> u8 {
        s.spec_bits()
    }
}

/// Clock config for the ADC
/// Check the datasheet for the maximum speed the ADC supports
#[allow(non_camel_case_types)]
#[derive(Copy, Clone, PartialEq, Eq, Structural, Debug)]
pub enum Clock {
    /// PCLK2 (APB2) divided by 2
    Pclk2_div_2,
    /// PCLK2 (APB2) divided by 4
    Pclk2_div_4,
    /// PCLK2 (APB2) divided by 6
    Pclk2_div_6,
    /// PCLK2 (APB2) divided by 8
    Pclk2_div_8,
}

impl Clock {
    /// The bits that select this choice.
    pub open spec fn spec_bits(self) -> u8 {
        match self {
            Clock::Pclk2_div_2 => 0,
            Clock::Pclk2_div_4 => 1,
            Clock::Pclk2_div_6 => 2,
            Clock::Pclk2_div_8 => 3,
        }
    }
}

impl From<Clock> for u8 {
    fn from(s: Clock) -> (bits: u8) {
        match s {
            Clock::Pclk2_div_2 => 0,
            Clock::Pclk2_div_4 => 1,
            Clock::Pclk2_div_6 => 2,
            Clock::Pclk2_div_8 => 3,
        }
    }
}

impl FromSpecImpl<Clock> for u8 {
    open spec fn obeys_from_spec() -> bool {
        true
    }

    open spec fn from_spec(s: Clock) -> u8 {
        s.spec_bits()
    }
}

/// Resolution to sample at
#[allow(non_camel_case_types)]
#[derive(Copy, Clone, PartialEq, Eq, Structural, Debug)]
pub enum Resolution {
    /// 12-bit
    Twelve,
    /// 10-bit
    Ten,
    /// 8-bit
    Eight,
    /// 6-bit
    Six,
}

impl Resolution {
    /// The bits that select this choice.
    pub open spec fn spec_bits(self) -> u8 {
        match self {
            Resolution::Twelve => 3,
            Resolution::Ten => 2,
            Resolution::Eight => 1,
            Resolution::Six => 0,
        }
    }
}

impl From<Resolution> for u8 {
    fn from(s: Resolution) -> (bits: u8) {
        match s {
            Resolution::Twelve => 3,
            Resolution::Ten => 2,
            Resolution::Eight => 1,
            Resolution::Six => 0,
        }
    }
}

impl FromSpecImpl<Resolution> for u8 {
    open spec fn obeys_from_spec() -> bool {
        true
    }

    open spec fn from_spec(s: Resolution) -> u8 {
        s.spec_bits()
    }
}

/// Possible external triggers the ADC can listen to
#[allow(non_camel_case_types)]
#[derive(Copy, Clone, PartialEq, Eq, Structural, Debug)]
pub enum ExternalTrigger {
    /// TIM1 compare channel 1
    Tim_1_cc_1,
    /// TIM1 compare channel 2
    Tim_1_cc_2,
    /// TIM1 compare channel 3
    Tim_1_cc_3,
    /// TIM2 compare channel 2
    Tim_2_cc_2,
    /// TIM2 compare channel 3
    Tim_2_cc_3,
    /// TIM2 compare channel 4
    Tim_2_cc_4,
    /// TIM2 trigger out
    Tim_2_trgo,
    /// TIM3 compare channel 1
    Tim_3_cc_1,
    /// TIM3 trigger out
    Tim_3_trgo,
    /// TIM4 compare channel 4
    Tim_4_cc_4,
    /// TIM5 compare channel 1
    Tim_5_cc_1,
    /// TIM5 compare channel 2
    Tim_5_cc_2,
    /// TIM5 compare channel 3
    Tim_5_cc_3,
    /// External interrupt line 11
    Exti_11,
}

impl ExternalTrigger {
    /// The bits that select this choice.
    pub open spec fn spec_bits(self) -> u8 {
        match self {
            ExternalTrigger::Tim_1_cc_1 => 0,
            ExternalTrigger::Tim_1_cc_2 => 1,
            ExternalTrigger::Tim_1_cc_3 => 2,
            ExternalTrigger::Tim_2_cc_2 => 3,
            ExternalTrigger::Tim_2_cc_3 => 4,
            ExternalTrigger::Tim_2_cc_4 => 5,
            ExternalTrigger::Tim_2_trgo => 6,
            ExternalTrigger::Tim_3_cc_1 => 7,
            ExternalTrigger::Tim_3_trgo => 8,
            ExternalTrigger::Tim_4_cc_4 => 9,
            ExternalTrigger::Tim_5_cc_1 => 10,
            ExternalTrigger::Tim_5_cc_2 => 11,
            ExternalTrigger::Tim_5_cc_3 => 12,
            ExternalTrigger::Exti_11 => 15,
        }
    }
}

impl From<ExternalTrigger> for u8 {
    fn from(s: ExternalTrigger) -> (bits: u8) {
        match s {
            ExternalTrigger::Tim_1_cc_1 => 0,
            ExternalTrigger::Tim_1_cc_2 => 1,
            ExternalTrigger::Tim_1_cc_3 => 2,
            ExternalTrigger::Tim_2_cc_2 => 3,
            ExternalTrigger::Tim_2_cc_3 => 4,
            ExternalTrigger::Tim_2_cc_4 => 5,
            ExternalTrigger::Tim_2_trgo => 6,
            ExternalTrigger::Tim_3_cc_1 => 7,
            ExternalTrigger::Tim_3_trgo => 8,
            ExternalTrigger::Tim_4_cc_4 => 9,
            ExternalTrigger::Tim_5_cc_1 => 10,
            ExternalTrigger::Tim_5_cc_2 => 11,
            ExternalTrigger::Tim_5_cc_3 => 12,
            ExternalTrigger::Exti_11 => 15,
        }
    }
}

impl FromSpecImpl<ExternalTrigger> for u8 {
    open spec fn obeys_from_spec() -> bool {
        true
    }

    open spec fn from_spec(s: ExternalTrigger) -> u8 {
        s.spec_bits()
    }
}

/// Possible trigger modes
#[derive(Copy, Clone, PartialEq, Eq, Structural, Debug)]
pub enum TriggerMode {
    /// Don't listen to external trigger
    Disabled,
    /// Listen for rising edges of external trigger
    RisingEdge,
}

impl TriggerMode {
    /// The bit that selects this choice.
    pub open spec fn spec_bit(self) -> bool {
        match self {
            TriggerMode::Disabled => false,
            TriggerMode::RisingEdge => true,
        }
    }
}

impl From<TriggerMode> for bool {
    fn from(s: TriggerMode) -> (bit: bool) {
        match s {
            TriggerMode::Disabled => false,
            TriggerMode::RisingEdge => true,
        }
    }
}

impl FromSpecImpl<TriggerMode> for bool {
    open spec fn obeys_from_spec() -> bool {
        true
    }

    open spec fn from_spec(s: TriggerMode) -> bool {
        s.spec_bit()
    }
}

/// Data register alignment
#[derive(Copy, Clone, PartialEq, Eq, Structural, Debug)]
pub enum Align {
    /// Right align output data
    Right,
    /// Left align output data
    Left,
}

impl Align {
    /// The bit that selects this choice.
    pub open spec fn spec_bit(self) -> bool {
        match self {
            Align::Right => false,
            Align::Left => true,
        }
    }
}

impl From<Align> for bool {
    fn from(s: Align) -> (bit: bool) {
        match s {
            Align::Right => false,
            Align::Left => true,
        }
    }
}

impl FromSpecImpl<Align> for bool {
    open spec fn obeys_from_spec() -> bool {
        true
    }

    open spec fn from_spec(s: Align) -> bool {
        s.spec_bit()
    }
}

/// Scan enable/disable
#[derive(Copy, Clone, PartialEq, Eq, Structural, Debug)]
pub enum Scan {
    /// Scan mode disabled
    Disabled,
    /// Scan mode enabled
    Enabled,
}

impl Scan {
    /// The bit that selects this choice.
    pub open spec fn spec_bit(self) -> bool {
        match self {
            Scan::Disabled => false,
            Scan::Enabled => true,
        }
    }
}

impl From<Scan> for bool {
    fn from(s: Scan) -> (bit: bool) {
        match s {
            Scan::Disabled => false,
            Scan::Enabled => true,
        }
    }
}

impl FromSpecImpl<Scan> for bool {
    open spec fn obeys_from_spec() -> bool {
        true
    }

    open spec fn from_spec(s: Scan) -> bool {
        s.spec_bit()
    }
}

/// Continuous mode enable/disable
#[derive(Copy, Clone, PartialEq, Eq, Structural, Debug)]
pub enum Continuous {
    /// Single mode, continuous disabled
    Single,
    /// Continuous mode enabled
    Continuous,
}

impl Continuous {
    /// The bit that selects this choice.
    pub open spec fn spec_bit(self) -> bool {
        match self {
            Continuous::Single => false,
            Continuous::Continuous => true,
        }
    }
}

impl From<Continuous> for bool {
    fn from(s: Continuous) -> (bit: bool) {
        match s {
            Continuous::Single => false,
            Continuous::Continuous => true,
        }
    }
}

impl FromSpecImpl<Continuous> for bool {
    open spec fn obeys_from_spec() -> bool {
        true
    }

    open spec fn from_spec(s: Continuous) -> bool {
        s.spec_bit()
    }
}

/// DMA mode
#[derive(Copy, Clone, PartialEq, Eq, Structural, Debug)]
pub enum Dma {
    /// No DMA, disabled
    Disabled,
    /// Single DMA, DMA will be disabled after each conversion sequence
    Single,
}

/// End-of-conversion interrupt enabled/disabled
#[derive(Copy, Clone, PartialEq, Eq, Structural, Debug)]
pub enum Eoc {
    /// End-of-conversion interrupt disabled
    Disabled,
    /// End-of-conversion interrupt enabled per conversion
    Conversion,
    /// End-of-conversion interrupt enabled per sequence
    Sequence,
}

/// Configuration for the adc.
/// There are some additional parameters on the adc peripheral that can be
/// added here when needed but this covers several basic usecases.
#[derive(Copy, Clone, PartialEq, Eq, Debug)]
pub struct AdcConfig {
    pub clock: Clock,
    pub resolution: Resolution,
    pub align: Align,
    pub scan: Scan,
    pub external_trigger: (TriggerMode, ExternalTrigger),
    pub continuous: Continuous,
    pub dma: Dma,
    pub end_of_conversion_interrupt: Eoc,
    pub default_sample_time: SampleTime,
    pub vdda: Option<u32>,
}

impl AdcConfig {
    /// change the clock field
    pub fn clock(self, clock: Clock) -> (config: AdcConfig)
        ensures
            config == (AdcConfig { clock, ..self }),
    {
        let mut config = self;
        config.clock = clock;
        config
    }

    /// change the resolution field
    pub fn resolution(self, resolution: Resolution) -> (config: AdcConfig)
        ensures
            config == (AdcConfig { resolution, ..self }),
    {
        let mut config = self;
        config.resolution = resolution;
        config
    }

    /// change the align field
    pub fn align(self, align: Align) -> (config: AdcConfig)
        ensures
            config == (AdcConfig { align, ..self }),
    {
        let mut config = self;
        config.align = align;
        config
    }

    /// change the scan field
    pub fn scan(self, scan: Scan) -> (config: AdcConfig)
        ensures
            config == (AdcConfig { scan, ..self }),
    {
        let mut config = self;
        config.scan = scan;
        config
    }

    /// change the external_trigger field
    pub fn external_trigger(self, trigger_mode: TriggerMode, trigger: ExternalTrigger) -> (config:
        AdcConfig)
        ensures
            config == (AdcConfig { external_trigger: (trigger_mode, trigger), ..self }),
    {
        let mut config = self;
        config.external_trigger = (trigger_mode, trigger);
        config
    }

    /// change the continuous field
    pub fn continuous(self, continuous: Continuous) -> (config: AdcConfig)
        ensures
            config == (AdcConfig { continuous, ..self }),
    {
        let mut config = self;
        config.continuous = continuous;
        config
    }

    /// change the dma field
    pub fn dma(self, dma: Dma) -> (config: AdcConfig)
        ensures
            config == (AdcConfig { dma, ..self }),
    {
        let mut config = self;
        config.dma = dma;
        config
    }

    /// change the end_of_conversion_interrupt field
    pub fn end_of_conversion_interrupt(self, end_of_conversion_interrupt: Eoc) -> (config: AdcConfig)
        ensures
            config == (AdcConfig { end_of_conversion_interrupt, ..self }),
    {
        let mut config = self;
        config.end_of_conversion_interrupt = end_of_conversion_interrupt;
        config
    }

    /// change the default_sample_time field
    pub fn default_sample_time(self, default_sample_time: SampleTime) -> (config: AdcConfig)
        ensures
            config == (AdcConfig { default_sample_time, ..self }),
    {
        let mut config = self;
        config.default_sample_time = default_sample_time;
        config
    }

    /// Specify the reference voltage for the ADC.
    ///
    /// # Args
    /// * `vdda_mv` - The ADC reference voltage in millivolts.
    pub fn reference_voltage(self, vdda_mv: u32) -> (config: AdcConfig)
        ensures
            config == (AdcConfig { vdda: Some(vdda_mv), ..self }),
    {
        let mut config = self;
        config.vdda = Some(vdda_mv);
        config
    }
}

impl Default for AdcConfig {
    fn default() -> (config: AdcConfig)
        ensures
            config == (AdcConfig {
                clock: Clock::Pclk2_div_2,
                resolution: Resolution::Twelve,
                align: Align::Right,
                scan: Scan::Disabled,
                external_trigger: (TriggerMode::Disabled, ExternalTrigger::Tim_1_cc_1),
                continuous: Continuous::Single,
                dma: Dma::Disabled,
                end_of_conversion_interrupt: Eoc::Disabled,
                default_sample_time: SampleTime::Cycles_480,
                vdda: None,
            }),
    {
        AdcConfig {
            clock: Clock::Pclk2_div_2,
            resolution: Resolution::Twelve,
            align: Align::Right,
            scan: Scan::Disabled,
            external_trigger: (TriggerMode::Disabled, ExternalTrigger::Tim_1_cc_1),
            continuous: Continuous::Single,
            dma: Dma::Disabled,
            end_of_conversion_interrupt: Eoc::Disabled,
            default_sample_time: SampleTime::Cycles_480,
            vdda: None,
        }
    }
}

impl Resolution {
    /// The least value that a sample cannot reach at this resolution.
    pub open spec fn spec_max_sample(self) -> u32 {
        match self {
            Resolution::Twelve => 4096,
            Resolution::Ten => 1024,
            Resolution::Eight => 256,
            Resolution::Six => 64,
        }
    }

    /// The least value that a sample cannot reach at this resolution.
    #[verifier::when_used_as_spec(spec_max_sample)]
    pub fn max_sample(self) -> (limit: u32)
        ensures
            limit == self.spec_max_sample(),
    {
        match self {
            Resolution::Twelve => 4096,
            Resolution::Ten => 1024,
            Resolution::Eight => 256,
            Resolution::Six => 64,
        }
    }
}

/// Analog to Digital Converter
pub struct Adc<ADC> {
    /// Current config of the ADC, kept up to date by the various set methods
    pub config: AdcConfig,
    /// The adc peripheral
    pub adc_reg: ADC,
    /// Exclusive limit for the sample value possible for the configured resolution.
    pub max_sample: u32,
}

impl<ADC> Adc<ADC> {
    /// Takes note of the sampling resolution. Its bits still have to be
    /// written to the converter.
    pub fn set_resolution(&mut self, resolution: Resolution)
        ensures
            final(self).max_sample == resolution.spec_max_sample(),
            final(self).config == (AdcConfig { resolution, ..old(self).config }),
            final(self).adc_reg == old(self).adc_reg,
    {
        self.max_sample = resolution.max_sample();
        self.config.resolution = resolution;
    }

    /// Sets the default sample time that is used for one-shot conversions.
    pub fn set_default_sample_time(&mut self, sample_time: SampleTime)
        ensures
            final(self).max_sample == old(self).max_sample,
            final(self).config == (AdcConfig {
                default_sample_time: sample_time,
                ..old(self).config
            }),
            final(self).adc_reg == old(self).adc_reg,
    {
        self.config.default_sample_time = sample_time;
    }
}

} // verus!
