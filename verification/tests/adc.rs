use n32g4xx_hal::adc::Adc;
use n32g4xx_hal::adc::AdcConfig;
use n32g4xx_hal::adc::Align;
use n32g4xx_hal::adc::Clock;
use n32g4xx_hal::adc::Continuous;
use n32g4xx_hal::adc::Dma;
use n32g4xx_hal::adc::Eoc;
use n32g4xx_hal::adc::ExternalTrigger;
use n32g4xx_hal::adc::InjectedSequence;
use n32g4xx_hal::adc::RegularSequence;
use n32g4xx_hal::adc::Resolution;
use n32g4xx_hal::adc::SampleTime;
use n32g4xx_hal::adc::Scan;
use n32g4xx_hal::adc::TriggerMode;

#[test]
fn default_configuration() {
    let config = AdcConfig::default();
    assert_eq!(config.clock, Clock::Pclk2_div_2);
    assert_eq!(config.resolution, Resolution::Twelve);
    assert_eq!(config.align, Align::Right);
    assert_eq!(config.scan, Scan::Disabled);
    assert_eq!(config.external_trigger, (TriggerMode::Disabled, ExternalTrigger::Tim_1_cc_1));
    assert_eq!(config.continuous, Continuous::Single);
    assert_eq!(config.dma, Dma::Disabled);
    assert_eq!(config.end_of_conversion_interrupt, Eoc::Disabled);
    assert_eq!(config.default_sample_time, SampleTime::Cycles_480);
    assert_eq!(config.vdda, None);
}

#[test]
fn builder_sets_one_field_each() {
    let config = AdcConfig::default()
        .clock(Clock::Pclk2_div_8)
        .resolution(Resolution::Eight)
        .align(Align::Left)
        .scan(Scan::Enabled)
        .external_trigger(TriggerMode::RisingEdge, ExternalTrigger::Exti_11)
        .continuous(Continuous::Continuous)
        .dma(Dma::Single)
        .end_of_conversion_interrupt(Eoc::Sequence)
        .default_sample_time(SampleTime::Cycles_3)
        .reference_voltage(3300);
    assert_eq!(
        config,
        AdcConfig {
            clock: Clock::Pclk2_div_8,
            resolution: Resolution::Eight,
            align: Align::Left,
            scan: Scan::Enabled,
            external_trigger: (TriggerMode::RisingEdge, ExternalTrigger::Exti_11),
            continuous: Continuous::Continuous,
            dma: Dma::Single,
            end_of_conversion_interrupt: Eoc::Sequence,
            default_sample_time: SampleTime::Cycles_3,
            vdda: Some(3300),
        }
    );
    assert_eq!(AdcConfig::default().scan(Scan::Enabled), AdcConfig {
        scan: Scan::Enabled,
        ..AdcConfig::default()
    });
}

#[test]
fn sequence_bits_round_trip() {
    for bits in 0..=15u8 {
        assert_eq!(u8::from(RegularSequence::from(bits)), bits);
    }
    for bits in 0..=3u8 {
        assert_eq!(u8::from(InjectedSequence::from(bits)), bits);
    }
    for bits in 0..=7u8 {
        assert_eq!(u8::from(SampleTime::from(bits)), bits);
    }
    assert_eq!(RegularSequence::from(0), RegularSequence::One);
    assert_eq!(RegularSequence::from(15), RegularSequence::Sixteen);
    assert_eq!(InjectedSequence::from(2), InjectedSequence::Three);
    assert_eq!(SampleTime::from(5), SampleTime::Cycles_112);
    assert!(RegularSequence::Two < RegularSequence::Ten);
}

#[test]
fn register_bits_of_the_choices() {
    assert_eq!(u8::from(Clock::Pclk2_div_2), 0);
    assert_eq!(u8::from(Clock::Pclk2_div_8), 3);
    assert_eq!(u8::from(Resolution::Twelve), 3);
    assert_eq!(u8::from(Resolution::Ten), 2);
    assert_eq!(u8::from(Resolution::Eight), 1);
    assert_eq!(u8::from(Resolution::Six), 0);
    assert_eq!(u8::from(ExternalTrigger::Tim_1_cc_1), 0);
    assert_eq!(u8::from(ExternalTrigger::Tim_3_trgo), 8);
    assert_eq!(u8::from(ExternalTrigger::Tim_5_cc_3), 12);
    assert_eq!(u8::from(ExternalTrigger::Exti_11), 15);
    assert!(bool::from(TriggerMode::RisingEdge));
    assert!(!bool::from(TriggerMode::Disabled));
    assert!(bool::from(Align::Left));
    assert!(!bool::from(Align::Right));
    assert!(bool::from(Scan::Enabled));
    assert!(!bool::from(Scan::Disabled));
    assert!(bool::from(Continuous::Continuous));
    assert!(!bool::from(Continuous::Single));
}

#[test]
fn resolution_limits_the_sample() {
    assert_eq!(Resolution::Twelve.max_sample(), 4096);
    assert_eq!(Resolution::Ten.max_sample(), 1024);
    assert_eq!(Resolution::Eight.max_sample(), 256);
    assert_eq!(Resolution::Six.max_sample(), 64);
    let mut adc = Adc { config: AdcConfig::default(), adc_reg: (), max_sample: 0 };
    adc.set_resolution(Resolution::Ten);
    assert_eq!(adc.max_sample, 1024);
    assert_eq!(adc.config.resolution, Resolution::Ten);
    adc.set_default_sample_time(SampleTime::Cycles_28);
    assert_eq!(adc.config.default_sample_time, SampleTime::Cycles_28);
    assert_eq!(adc.max_sample, 1024);
}
