use n32g4xx_hal::pac::Ahbpres;
use n32g4xx_hal::pac::Apb1pres;
use n32g4xx_hal::pac::Flash;
use n32g4xx_hal::pac::FlashAc;
use n32g4xx_hal::pac::Rcc;
use n32g4xx_hal::pac::RccCfg;
use n32g4xx_hal::pac::RccCfg2;
use n32g4xx_hal::pac::RccCfg3;
use n32g4xx_hal::pac::RccCtrl;
use n32g4xx_hal::pac::Sclksw;
use n32g4xx_hal::rcc::commit::ClockStep;
use n32g4xx_hal::rcc::pll::choose_prescaler;
use n32g4xx_hal::rcc::pll::is_solvable;
use n32g4xx_hal::rcc::pll::residual_with;
use n32g4xx_hal::rcc::pll::MainPll;
use n32g4xx_hal::rcc::tree::adc_1m_setup;
use n32g4xx_hal::rcc::tree::ahb_prescaler_for;
use n32g4xx_hal::rcc::tree::apb_prescaler_for;
use n32g4xx_hal::rcc::tree::flash_latency;
use n32g4xx_hal::rcc::tree::trng_1m_setup;
use n32g4xx_hal::rcc::tree::usb_prescaler;
use n32g4xx_hal::rcc::BusClock;
use n32g4xx_hal::rcc::BusTimerClock;
use n32g4xx_hal::rcc::Clocks;
use n32g4xx_hal::rcc::RccExt;
use n32g4xx_hal::rcc::AHB;
use n32g4xx_hal::rcc::APB1;
use n32g4xx_hal::rcc::APB2;
use n32g4xx_hal::rcc::CFGR;
use n32g4xx_hal::rcc::HSI;
use n32g4xx_hal::rcc::PCLK1_MAX;
use n32g4xx_hal::rcc::PCLK2_MAX;
use n32g4xx_hal::rcc::SYSCLK_MAX;
use n32g4xx_hal::rcc::SYSCLK_MIN;

fn blank_rcc() -> Rcc {
    Rcc {
        ctrl: RccCtrl { hseen: false, hsebp: false, hserdf: false, pllen: false, pllrdf: false },
        cfg: RccCfg::reset_value(),
        cfg2: RccCfg2 { adc1msel: false, adc1mpres: 0, adchpres: 0, adcpllpres: 0 },
        cfg3: RccCfg3 { trng1msel: false, trng1mpres: 0 },
        ahbpclken: 0,
        apb1pclken: 0,
        apb2pclken: 0,
        ahbprst: 0,
        apb1prst: 0,
        apb2prst: 0,
    }
}

fn blank_flash() -> Flash {
    Flash { ac: FlashAc { latency: 0, prftbfe: false, icahen: false } }
}

fn cfgr() -> CFGR {
    blank_rcc().constrain().cfgr
}

#[test]
fn device_limits() {
    assert_eq!(HSI, 16_000_000);
    assert_eq!(SYSCLK_MIN, 32_000_000);
    assert_eq!(SYSCLK_MAX, 144_000_000);
    assert_eq!(PCLK2_MAX, 72_000_000);
    assert_eq!(PCLK1_MAX, 36_000_000);
}

#[test]
fn sysclk_128_mhz_from_hse_8_mhz_is_exact() {
    let mut rcc = blank_rcc();
    let mut flash = blank_flash();
    let cfgr = cfgr().use_hse(8_000_000).sysclk(128_000_000);
    assert!(cfgr.is_valid());
    let clocks = cfgr.freeze(&mut rcc, &mut flash);
    assert_eq!(
        clocks,
        Clocks { hclk: 128_000_000, pclk1: 32_000_000, pclk2: 64_000_000, sysclk: 128_000_000 }
    );
    assert!(rcc.ctrl.pllen);
    assert!(rcc.ctrl.hseen);
    assert!(!rcc.ctrl.hsebp);
    assert!(rcc.cfg.pllsrc);
    assert!(!rcc.cfg.pllhsepres);
    assert!(!rcc.cfg.pllmulfct_h);
    assert_eq!(rcc.cfg.pllmulfct, 15);
    assert_eq!(rcc.cfg.sclksw, Sclksw::Pll);
    assert_eq!(rcc.cfg.ahbpres, Ahbpres::Div1);
    assert_eq!(rcc.cfg.apb1pres, Apb1pres::Div4);
    assert_eq!(rcc.cfg.apb2pres, Apb1pres::Div2);
    assert_eq!(rcc.cfg.usbpres, 3);
    assert_eq!(rcc.cfg2, RccCfg2 { adc1msel: true, adc1mpres: 7, adchpres: 1, adcpllpres: 17 });
    assert_eq!(rcc.cfg3, RccCfg3 { trng1msel: true, trng1mpres: 7 });
    assert_eq!(flash, Flash { ac: FlashAc { latency: 5, prftbfe: true, icahen: true } });
    // the product of the factor and the input frequency is the target
    assert_eq!(MainPll::factor(8_000_000, true, 128_000_000) * (8_000_000 / 1), 128_000_000);
}

#[test]
fn pclk1_of_100_mhz_is_not_accepted() {
    let request = cfgr().use_hse(8_000_000).sysclk(144_000_000).pclk1(100_000_000);
    // 144 MHz / 2 = 72 MHz would be above the 36 MHz that APB1 allows
    assert!(!request.is_valid());
    assert!(request.is_computable());
    assert_eq!(request.clocks().map(|c| c.pclk1), Some(72_000_000));
}

#[test]
fn pclk1_that_was_not_asked_for_is_clamped() {
    let mut rcc = blank_rcc();
    let mut flash = blank_flash();
    let request = cfgr().use_hse(8_000_000).sysclk(144_000_000);
    assert!(request.is_valid());
    let clocks = request.freeze(&mut rcc, &mut flash);
    assert_eq!(
        clocks,
        Clocks { hclk: 144_000_000, pclk1: 36_000_000, pclk2: 72_000_000, sysclk: 144_000_000 }
    );
    assert_eq!(rcc.cfg.apb1pres, Apb1pres::Div4);
    assert_eq!(rcc.cfg.apb2pres, Apb1pres::Div2);
    assert!(rcc.cfg.pllmulfct_h);
    assert_eq!(rcc.cfg.pllmulfct, 1);
    assert_eq!(rcc.cfg.usbpres, 3);
}

#[test]
fn internal_oscillator_alone_is_below_the_range() {
    let mut rcc = blank_rcc();
    let before = rcc;
    let mut flash = blank_flash();
    let request = cfgr();
    assert!(!request.is_valid());
    assert!(request.is_computable());
    let clocks = request.freeze_unchecked(&mut rcc, &mut flash);
    assert_eq!(
        clocks,
        Clocks { hclk: 16_000_000, pclk1: 16_000_000, pclk2: 16_000_000, sysclk: 16_000_000 }
    );
    assert_eq!(rcc.ctrl, before.ctrl);
    assert_eq!(rcc.cfg.sclksw, Sclksw::Hsi);
    assert_eq!(rcc.cfg2, RccCfg2 { adc1msel: false, adc1mpres: 15, adchpres: 1, adcpllpres: 17 });
    assert_eq!(rcc.cfg3, RccCfg3 { trng1msel: false, trng1mpres: 6 });
    assert_eq!(flash.ac.latency, 0);
}

#[test]
fn internal_oscillator_is_halved_before_the_pll() {
    let mut rcc = blank_rcc();
    let mut flash = blank_flash();
    let request = cfgr().sysclk(72_000_000);
    assert!(request.is_valid());
    let clocks = request.freeze(&mut rcc, &mut flash);
    assert_eq!(clocks.sysclk, 72_000_000);
    assert_eq!(clocks.pclk1, 36_000_000);
    assert_eq!(clocks.pclk2, 72_000_000);
    assert!(!rcc.cfg.pllsrc);
    assert!(!rcc.cfg.pllhsepres);
    assert_eq!(rcc.cfg.pllmulfct, 8);
    assert!(!rcc.ctrl.hseen);
    assert!(rcc.ctrl.pllen);
    assert_eq!(rcc.cfg.usbpres, 0);
    assert_eq!(flash.ac.latency, 2);
}

#[test]
fn external_oscillator_without_pll() {
    let mut rcc = blank_rcc();
    let mut flash = blank_flash();
    let request = cfgr().use_hse(32_000_000).bypass_hse_oscillator();
    assert!(request.is_valid());
    let clocks = request.freeze(&mut rcc, &mut flash);
    assert_eq!(clocks.sysclk, 32_000_000);
    assert_eq!(rcc.cfg.sclksw, Sclksw::Hse);
    assert!(rcc.ctrl.hseen);
    assert!(rcc.ctrl.hsebp);
    assert!(!rcc.ctrl.pllen);
    assert_eq!(rcc.cfg3, RccCfg3 { trng1msel: true, trng1mpres: 31 });
    assert_eq!(rcc.cfg2.adc1mpres, 31);
}

#[test]
fn sysclk_is_rounded_down_to_a_multiple_of_the_pll_input() {
    // 8 MHz: 100 MHz = 12 x 8 MHz + 4 MHz; 4 MHz: 100 MHz = 25 x 4 MHz
    let request = cfgr().use_hse(8_000_000).sysclk(100_000_000);
    assert!(request.is_valid());
    assert_eq!(request.clocks().map(|c| c.sysclk), Some(100_000_000));
    assert_eq!(choose_prescaler(8_000_000, true, 100_000_000), 2);
    assert_eq!(MainPll::factor(8_000_000, true, 100_000_000), 25);
    // 12 MHz: 100 MHz = 8 x 12 MHz + 4 MHz; 6 MHz: 100 MHz = 16 x 6 MHz + 4 MHz
    let request = cfgr().use_hse(12_000_000).sysclk(100_000_000);
    assert_eq!(request.clocks().map(|c| c.sysclk), Some(96_000_000));
    assert_eq!(choose_prescaler(12_000_000, true, 100_000_000), 1);
    assert_eq!(residual_with(12_000_000, 1, 100_000_000), 4_000_000);
    assert_eq!(residual_with(12_000_000, 2, 100_000_000), 4_000_000);
}

#[test]
fn hclk_request_picks_a_divider() {
    let request = cfgr().use_hse(8_000_000).sysclk(128_000_000).hclk(32_000_000);
    assert_eq!(
        request.clocks(),
        Some(Clocks {
            hclk: 32_000_000,
            pclk1: 32_000_000,
            pclk2: 32_000_000,
            sysclk: 128_000_000
        })
    );
    // 128 MHz / 4 = 32 MHz is above the request, so the next divider is taken
    let request = cfgr().use_hse(8_000_000).sysclk(128_000_000).hclk(25_600_000);
    assert_eq!(request.clocks().map(|c| c.hclk), Some(16_000_000));
    // there is no divider 32: 128 MHz / 16 = 8 MHz is above the request
    let request = cfgr().use_hse(8_000_000).sysclk(128_000_000).hclk(4_000_000);
    assert_eq!(request.clocks().map(|c| c.hclk), Some(2_000_000));
}

#[test]
fn hclk_stays_at_or_below_the_request() {
    // 32 MHz / 4 = 8 MHz is above 7 MHz, 32 MHz / 8 = 4 MHz is not
    let mut rcc = blank_rcc();
    let mut flash = blank_flash();
    let request = cfgr().use_hse(32_000_000).hclk(7_000_000);
    assert!(request.is_valid());
    let clocks = request.freeze(&mut rcc, &mut flash);
    assert_eq!(
        clocks,
        Clocks { hclk: 4_000_000, pclk1: 4_000_000, pclk2: 4_000_000, sysclk: 32_000_000 }
    );
    assert_eq!(rcc.cfg.ahbpres, Ahbpres::Div8);
    assert_eq!(rcc.cfg.apb1pres, Apb1pres::Div1);
    assert_eq!(rcc.cfg.apb2pres, Apb1pres::Div1);
    // a request that the divided clock meets exactly is served with that divider
    let request = cfgr().use_hse(32_000_000).hclk(8_000_000);
    assert_eq!(request.clocks().map(|c| c.hclk), Some(8_000_000));
    // a request above the system clock leaves the system clock undivided
    let request = cfgr().use_hse(32_000_000).hclk(u32::MAX);
    assert!(request.is_valid());
    assert_eq!(request.clocks().map(|c| c.hclk), Some(32_000_000));
}

#[test]
fn pclk_stays_at_or_below_the_request() {
    // 144 MHz / 4 = 36 MHz is above 30 MHz, 144 MHz / 8 = 18 MHz is not
    let mut rcc = blank_rcc();
    let mut flash = blank_flash();
    let request = cfgr().use_hse(8_000_000).sysclk(144_000_000).pclk1(30_000_000);
    assert!(request.is_valid());
    let clocks = request.freeze(&mut rcc, &mut flash);
    assert_eq!(
        clocks,
        Clocks { hclk: 144_000_000, pclk1: 18_000_000, pclk2: 72_000_000, sysclk: 144_000_000 }
    );
    assert_eq!(rcc.cfg.apb1pres, Apb1pres::Div8);
    assert_eq!(rcc.cfg.apb2pres, Apb1pres::Div2);
    let request = cfgr().use_hse(8_000_000).sysclk(144_000_000).pclk2(10_000_000);
    assert_eq!(request.clocks().map(|c| c.pclk2), Some(9_000_000));
    // a request above the maximum is served as one for the maximum, where
    // the result is within the maximum at all
    let above = cfgr().use_hse(8_000_000).sysclk(72_000_000).pclk1(40_000_000);
    let at = cfgr().use_hse(8_000_000).sysclk(72_000_000).pclk1(PCLK1_MAX);
    assert!(above.is_valid());
    assert_eq!(above.clocks(), at.clocks());
    assert_eq!(above.clocks().map(|c| c.pclk1), Some(36_000_000));
}

#[test]
fn requests_that_cannot_be_computed() {
    // a target below the halved source
    assert!(!cfgr().use_hse(8_000_000).sysclk(3_000_000).is_computable());
    // division by a request of zero
    assert!(!cfgr().hclk(0).is_computable());
    assert!(!cfgr().pclk1(0).is_computable());
    assert!(!cfgr().pclk2(0).is_computable());
    // an oscillator of less than 1 MHz
    assert!(!cfgr().use_hse(500_000).is_computable());
    assert_eq!(cfgr().use_hse(500_000).clocks(), None);
    // the smallest request for the AHB clock gives the greatest divider
    assert_eq!(cfgr().hclk(1).clocks().map(|c| c.hclk), Some(31_250));
    // the smallest request for an APB clock gives the greatest divider
    assert_eq!(cfgr().pclk1(1).clocks().map(|c| c.pclk1), Some(1_000_000));
    // the greatest request leaves the clock undivided
    assert!(cfgr().hclk(u32::MAX).is_computable());
    assert_eq!(cfgr().hclk(u32::MAX).clocks().map(|c| c.hclk), Some(HSI));
    assert_eq!(cfgr().pclk2(u32::MAX).clocks().map(|c| c.pclk2), Some(HSI));
}

#[test]
fn factor_above_32_is_not_valid() {
    // 4 MHz x 36 = 144 MHz is in range, but the factor does not fit the field
    let request = cfgr().use_hse(4_000_000).sysclk(144_000_000);
    assert!(request.is_computable());
    assert_eq!(request.clocks().map(|c| c.sysclk), Some(144_000_000));
    assert!(!request.is_valid());
}

#[test]
fn fast_setup_picks_undivided_source_on_a_tie() {
    let mut rcc = blank_rcc();
    rcc.cfg.usbpres = 2;
    let pll = MainPll::fast_setup(8_000_000, true, Some(128_000_000), &mut rcc);
    assert_eq!(pll, MainPll { use_pll: true, pllsysclk: Some(128_000_000) });
    assert_eq!(MainPll::factor(8_000_000, true, 128_000_000), 16);
    assert_eq!(
        rcc.cfg,
        RccCfg { pllsrc: true, pllmulfct: 15, ..RccCfg::reset_value() }
    );
}

#[test]
fn fast_setup_without_target_changes_nothing() {
    let mut rcc = blank_rcc();
    rcc.cfg.usbpres = 2;
    let before = rcc;
    let pll = MainPll::fast_setup(8_000_000, true, None, &mut rcc);
    assert_eq!(pll, MainPll { use_pll: false, pllsysclk: None });
    assert_eq!(rcc, before);
}

#[test]
fn fast_setup_encodes_factors_above_16_with_the_extension_bit() {
    let mut rcc = blank_rcc();
    let pll = MainPll::fast_setup(16_000_000, false, Some(144_000_000), &mut rcc);
    assert_eq!(pll.pllsysclk, Some(144_000_000));
    assert!(rcc.cfg.pllmulfct_h);
    assert_eq!(rcc.cfg.pllmulfct, 1);
    assert!(!rcc.cfg.pllhsepres);
    let pll = MainPll::fast_setup(9_000_000, true, Some(144_000_000), &mut rcc);
    assert_eq!(pll.pllsysclk, Some(144_000_000));
    assert!(!rcc.cfg.pllmulfct_h);
    assert_eq!(rcc.cfg.pllmulfct, 15);
    let pll = MainPll::fast_setup(8_000_000, true, Some(100_000_000), &mut rcc);
    assert_eq!(pll.pllsysclk, Some(100_000_000));
    assert!(rcc.cfg.pllhsepres);
    assert!(rcc.cfg.pllmulfct_h);
    assert_eq!(rcc.cfg.pllmulfct, 8);
}

#[test]
fn solvable_sources_and_targets() {
    assert!(is_solvable(8_000_000, true, 128_000_000));
    assert!(is_solvable(16_000_000, false, 8_000_000));
    assert!(!is_solvable(16_000_000, false, 7_999_999));
    assert!(!is_solvable(1, true, 100));
    assert!(!is_solvable(8_000_000, true, 3_999_999));
}

#[test]
fn ahb_divider_is_the_least_that_serves() {
    // the least divider that brings `ratio` thousand down to a thousand
    let cases: [(u32, Ahbpres, u32); 19] = [
        (1, Ahbpres::Div1, 1),
        (2, Ahbpres::Div2, 2),
        (3, Ahbpres::Div4, 4),
        (4, Ahbpres::Div4, 4),
        (5, Ahbpres::Div8, 8),
        (8, Ahbpres::Div8, 8),
        (9, Ahbpres::Div16, 16),
        (16, Ahbpres::Div16, 16),
        (17, Ahbpres::Div64, 64),
        (32, Ahbpres::Div64, 64),
        (64, Ahbpres::Div64, 64),
        (65, Ahbpres::Div128, 128),
        (128, Ahbpres::Div128, 128),
        (129, Ahbpres::Div256, 256),
        (256, Ahbpres::Div256, 256),
        (257, Ahbpres::Div512, 512),
        (512, Ahbpres::Div512, 512),
        // no divider serves the request: the greatest is taken
        (513, Ahbpres::Div512, 512),
        (1000, Ahbpres::Div512, 512),
    ];
    for (ratio, pres, divisor) in cases {
        assert_eq!(ahb_prescaler_for(ratio * 1000, 1000), pres);
        assert_eq!(pres.divisor(), divisor);
        if ratio <= 512 {
            assert!(ratio * 1000 / divisor <= 1000);
        }
    }
    // the divided clock is rounded down before it is compared
    assert_eq!(ahb_prescaler_for(1001, 1000), Ahbpres::Div2);
    assert_eq!(ahb_prescaler_for(1999, 999), Ahbpres::Div2);
    assert_eq!(ahb_prescaler_for(2000, 999), Ahbpres::Div4);
    assert_eq!(ahb_prescaler_for(0, 1000), Ahbpres::Div1);
}

#[test]
fn apb_divider_is_the_least_that_serves() {
    let cases: [(u32, Apb1pres, u32); 11] = [
        (1, Apb1pres::Div1, 1),
        (2, Apb1pres::Div2, 2),
        (3, Apb1pres::Div4, 4),
        (4, Apb1pres::Div4, 4),
        (5, Apb1pres::Div8, 8),
        (8, Apb1pres::Div8, 8),
        (9, Apb1pres::Div16, 16),
        (11, Apb1pres::Div16, 16),
        (16, Apb1pres::Div16, 16),
        // no divider serves the request: the greatest is taken
        (17, Apb1pres::Div16, 16),
        (500, Apb1pres::Div16, 16),
    ];
    for (ratio, pres, divisor) in cases {
        assert_eq!(apb_prescaler_for(ratio * 1000, 1000), pres);
        assert_eq!(pres.divisor(), divisor);
        if ratio <= 16 {
            assert!(ratio * 1000 / divisor <= 1000);
        }
    }
    assert_eq!(apb_prescaler_for(1999, 999), Apb1pres::Div2);
    assert_eq!(apb_prescaler_for(0, 1000), Apb1pres::Div1);
}

#[test]
fn auxiliary_clock_tables() {
    assert_eq!(usb_prescaler(144_000_000), 3);
    assert_eq!(usb_prescaler(96_000_000), 2);
    assert_eq!(usb_prescaler(48_000_000), 1);
    assert_eq!(usb_prescaler(72_000_000), 0);
    assert_eq!(usb_prescaler(16_000_000), 3);
    assert_eq!(trng_1m_setup(None), (false, 6));
    assert_eq!(trng_1m_setup(Some(2_000_000)), (true, 1));
    assert_eq!(trng_1m_setup(Some(8_000_000)), (true, 7));
    assert_eq!(trng_1m_setup(Some(32_000_000)), (true, 31));
    assert_eq!(trng_1m_setup(Some(9_000_000)), (false, 6));
    assert_eq!(trng_1m_setup(Some(34_000_000)), (false, 6));
    assert_eq!(trng_1m_setup(Some(0)), (false, 6));
    assert_eq!(adc_1m_setup(None), (false, 15));
    assert_eq!(adc_1m_setup(Some(8_000_000)), (true, 7));
    assert_eq!(adc_1m_setup(Some(32_000_000)), (true, 31));
    assert_eq!(adc_1m_setup(Some(32_000_001)), (false, 15));
    assert_eq!(flash_latency(1), 0);
    assert_eq!(flash_latency(24_000_000), 0);
    assert_eq!(flash_latency(24_000_001), 1);
    assert_eq!(flash_latency(144_000_000), 5);
}

#[test]
fn clocks_accessors_and_bus_clocks() {
    let clocks = Clocks { hclk: 4, pclk1: 1, pclk2: 2, sysclk: 8 };
    assert_eq!(clocks.hclk(), 4);
    assert_eq!(clocks.pclk1(), 1);
    assert_eq!(clocks.pclk2(), 2);
    assert_eq!(clocks.sysclk(), 8);
    assert_eq!(AHB::clock(&clocks), 4);
    assert_eq!(APB1::clock(&clocks), 1);
    assert_eq!(APB2::clock(&clocks), 2);
    assert_eq!(n32g4xx_hal::pac::Crc::clock(&clocks), 4);
    assert_eq!(n32g4xx_hal::pac::Usart2::clock(&clocks), 1);
    assert_eq!(n32g4xx_hal::pac::Usart1::clock(&clocks), 2);
    assert_eq!(APB1::timer_clock(&clocks), 1);
    assert_eq!(APB2::timer_clock(&clocks), 2);
    assert_eq!(n32g4xx_hal::pac::Tim2::timer_clock(&clocks), 1);
    assert_eq!(n32g4xx_hal::pac::Tim1::timer_clock(&clocks), 4);
    assert_eq!(n32g4xx_hal::pac::Tim8::timer_clock(&clocks), 4);
}

#[test]
fn builder_keeps_earlier_requests() {
    let request = cfgr()
        .use_hse(8_000_000)
        .sysclk(64_000_000)
        .hclk(32_000_000)
        .pclk1(8_000_000)
        .pclk2(16_000_000);
    assert_eq!(
        request.clocks(),
        Some(Clocks { hclk: 32_000_000, pclk1: 8_000_000, pclk2: 16_000_000, sysclk: 64_000_000 })
    );
}

#[test]
fn steps_with_oscillator_and_pll() {
    let request = cfgr().use_hse(8_000_000).bypass_hse_oscillator().sysclk(128_000_000);
    assert_eq!(
        request.steps(),
        vec![
            ClockStep::WritePll {
                pllmulfct_h: false,
                pllmulfct: 15,
                pllhsepres: false,
                pllsrc: true
            },
            ClockStep::SetFlashLatency { latency: 5 },
            ClockStep::EnableHse { bypass: true },
            ClockStep::AwaitHseReady,
            ClockStep::EnablePll,
            ClockStep::AwaitPllReady,
            ClockStep::SetPrescalers {
                ahbpres: Ahbpres::Div1,
                apb1pres: Apb1pres::Div4,
                apb2pres: Apb1pres::Div2
            },
            ClockStep::Delay { cycles: 16 },
            ClockStep::SetUsbPrescaler { usbpres: 3 },
            ClockStep::SetAdc1m { adc1msel: true, adc1mpres: 7 },
            ClockStep::SetAdcPrescalers { adchpres: 1, adcpllpres: 17 },
            ClockStep::SetTrng1m { trng1msel: true, trng1mpres: 7 },
            ClockStep::SetUsbPrescaler { usbpres: 3 },
            ClockStep::SelectSysclk { sclksw: Sclksw::Pll },
        ]
    );
}

#[test]
fn steps_with_the_internal_oscillator_alone() {
    assert_eq!(
        cfgr().steps(),
        vec![
            ClockStep::SetFlashLatency { latency: 0 },
            ClockStep::SetPrescalers {
                ahbpres: Ahbpres::Div1,
                apb1pres: Apb1pres::Div1,
                apb2pres: Apb1pres::Div1
            },
            ClockStep::Delay { cycles: 16 },
            ClockStep::SetUsbPrescaler { usbpres: 3 },
            ClockStep::SetAdc1m { adc1msel: false, adc1mpres: 15 },
            ClockStep::SetAdcPrescalers { adchpres: 1, adcpllpres: 17 },
            ClockStep::SetTrng1m { trng1msel: false, trng1mpres: 6 },
            ClockStep::SetUsbPrescaler { usbpres: 3 },
            ClockStep::SelectSysclk { sclksw: Sclksw::Hsi },
        ]
    );
    // the PLL on the internal oscillator needs no external one
    let steps = cfgr().sysclk(64_000_000).steps();
    assert_eq!(steps.len(), 12);
    assert_eq!(
        steps[0],
        ClockStep::WritePll { pllmulfct_h: false, pllmulfct: 7, pllhsepres: false, pllsrc: false }
    );
    assert_eq!(steps[2], ClockStep::EnablePll);
    assert_eq!(steps[3], ClockStep::AwaitPllReady);
    assert_eq!(steps[11], ClockStep::SelectSysclk { sclksw: Sclksw::Pll });
}

#[test]
fn register_encodings() {
    assert_eq!(Sclksw::Hsi.bits(), 0);
    assert_eq!(Sclksw::Hse.bits(), 1);
    assert_eq!(Sclksw::Pll.bits(), 2);
    assert_eq!(Sclksw::from_bits(2), Some(Sclksw::Pll));
    assert_eq!(Sclksw::from_bits(3), None);
    let ahb: [(Ahbpres, u8); 9] = [
        (Ahbpres::Div1, 0),
        (Ahbpres::Div2, 8),
        (Ahbpres::Div4, 9),
        (Ahbpres::Div8, 10),
        (Ahbpres::Div16, 11),
        (Ahbpres::Div64, 12),
        (Ahbpres::Div128, 13),
        (Ahbpres::Div256, 14),
        (Ahbpres::Div512, 15),
    ];
    for (pres, bits) in ahb {
        assert_eq!(pres.bits(), bits);
        assert_eq!(Ahbpres::from_bits(bits), Some(pres));
    }
    assert_eq!(Ahbpres::from_bits(1), None);
    assert_eq!(Ahbpres::from_bits(16), None);
    let apb: [(Apb1pres, u8); 5] = [
        (Apb1pres::Div1, 0),
        (Apb1pres::Div2, 4),
        (Apb1pres::Div4, 5),
        (Apb1pres::Div8, 6),
        (Apb1pres::Div16, 7),
    ];
    for (pres, bits) in apb {
        assert_eq!(pres.bits(), bits);
        assert_eq!(Apb1pres::from_bits(bits), Some(pres));
    }
    assert_eq!(Apb1pres::from_bits(3), None);
}
