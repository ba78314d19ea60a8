use n32g4xx_hal::bb;
use n32g4xx_hal::crc::Crc32Stream;
use n32g4xx_hal::crc::CrcExt;
use n32g4xx_hal::pac::Pwr;
use n32g4xx_hal::pwr::PwrExt;
use n32g4xx_hal::pac::Afio;
use n32g4xx_hal::pac::Crc;
use n32g4xx_hal::pac::Gpioa;
use n32g4xx_hal::pac::Gpiog;
use n32g4xx_hal::pac::Opamp;
use n32g4xx_hal::pac::Rcc;
use n32g4xx_hal::pac::RccCfg;
use n32g4xx_hal::pac::RccCfg2;
use n32g4xx_hal::pac::RccCfg3;
use n32g4xx_hal::pac::RccCtrl;
use n32g4xx_hal::pac::Spi1;
use n32g4xx_hal::pac::Tim2;
use n32g4xx_hal::pac::Usart1;
use n32g4xx_hal::rcc::BusName;
use n32g4xx_hal::rcc::BusRegisters;
use n32g4xx_hal::rcc::Enable;
use n32g4xx_hal::rcc::AHB;
use n32g4xx_hal::rcc::APB1;
use n32g4xx_hal::rcc::APB2;
use n32g4xx_hal::rcc::RccBus;
use n32g4xx_hal::rcc::Reset;

fn blank_rcc() -> Rcc {
    Rcc {
        ctrl: RccCtrl { hseen: false, hsebp: false, hserdf: false, pllen: false, pllrdf: false },
        cfg: RccCfg::reset_value(),
        cfg2: RccCfg2 { adc1msel: false, adc1mpres: 0, adchpres: 0, adcpllpres: 0 },
        cfg3: RccCfg3 { trng1msel: false, trng1mpres: 0 },
        ahbpclken: 0,
        apb1pclken: 0,
        apb2pclken: 0,
        ahbprst: 0,
        apb1prst: 0,
        apb2prst: 0,
    }
}

#[test]
fn enable_then_is_enabled() {
    let mut rcc = blank_rcc();
    assert!(!Spi1::is_enabled(&rcc));
    assert!(Spi1::is_disabled(&rcc));
    Spi1::enable(&mut rcc);
    assert!(Spi1::is_enabled(&rcc));
    assert!(!Spi1::is_disabled(&rcc));
    assert_eq!(rcc.apb2pclken, 1 << 12);
    Spi1::disable(&mut rcc);
    assert!(!Spi1::is_enabled(&rcc));
    assert_eq!(rcc, blank_rcc());
}

#[test]
fn each_bus_has_its_own_register() {
    let mut rcc = blank_rcc();
    Crc::enable(&mut rcc);
    Tim2::enable(&mut rcc);
    Afio::enable(&mut rcc);
    Opamp::enable(&mut rcc);
    assert_eq!(rcc.ahbpclken, 1 << 6);
    assert_eq!(rcc.apb1pclken, (1 << 0) | (1 << 31));
    assert_eq!(rcc.apb2pclken, 1 << 0);
    assert!(Crc::is_enabled(&rcc) && Tim2::is_enabled(&rcc) && Afio::is_enabled(&rcc));
    assert!(!Usart1::is_enabled(&rcc));
}

#[test]
fn enable_leaves_the_other_peripherals() {
    let mut rcc = blank_rcc();
    rcc.apb2pclken = 0xFFFF_FFFF;
    Gpioa::disable(&mut rcc);
    assert_eq!(rcc.apb2pclken, 0xFFFF_FFFB);
    assert!(Gpiog::is_enabled(&rcc));
    Gpioa::enable(&mut rcc);
    assert_eq!(rcc.apb2pclken, 0xFFFF_FFFF);
}

#[test]
fn reset_pulses_the_reset_bit() {
    let mut rcc = blank_rcc();
    rcc.apb2prst = 0x0000_4001;
    Usart1::reset(&mut rcc);
    assert_eq!(rcc.apb2prst, 0x0000_0001);
    Usart1::reset(&mut rcc);
    assert_eq!(rcc.apb2prst, 0x0000_0001);
    assert_eq!(rcc.apb2pclken, 0);
}

#[test]
fn bus_bits() {
    assert_eq!(Gpioa::bit(), 2);
    assert_eq!(Gpiog::bit(), 8);
    assert_eq!(Crc::bit(), 6);
    assert_eq!(Usart1::bit(), 14);
    assert_eq!(Opamp::bit(), 31);
}

#[test]
fn single_bit_operations() {
    let mut word = 0b1010u32;
    bb::set(&mut word, 0);
    assert_eq!(word, 0b1011);
    bb::clear(&mut word, 3);
    assert_eq!(word, 0b0011);
    bb::write(&mut word, 31, true);
    assert_eq!(word, 0x8000_0003);
    bb::write(&mut word, 1, false);
    assert_eq!(word, 0x8000_0001);
    assert!(bb::read(word, 31));
    assert!(!bb::read(word, 30));
}

#[test]
fn bit_band_alias() {
    assert_eq!(bb::alias_address(0x4000_0000, 0), 0x4200_0000);
    assert_eq!(bb::alias_address(0x4000_0000, 31), 0x4200_007C);
    assert_eq!(bb::alias_address(0x4002_1018, 2), 0x4242_0308);
    assert_eq!(bb::alias_address(0x400F_FFFF, 7), 0x43FF_FFFC);
}

#[test]
fn bus_names() {
    assert_eq!(AHB::name(), BusName::Ahb);
    assert_eq!(APB1::name(), BusName::Apb1);
    assert_eq!(APB2::name(), BusName::Apb2);
    let mut rcc = blank_rcc();
    *APB1::pclken(&mut rcc) = 5;
    *AHB::prst(&mut rcc) = 6;
    assert_eq!(rcc.apb1pclken, 5);
    assert_eq!(rcc.ahbprst, 6);
    assert_eq!(APB1::read_pclken(&rcc), 5);
}

#[test]
fn constrain_enables_and_resets() {
    let mut rcc = blank_rcc();
    rcc.ahbprst = 0xFF;
    rcc.apb1prst = 0xFFFF_FFFF;
    let engine = Crc.constrain(&mut rcc);
    assert_eq!(rcc.ahbpclken, 1 << 6);
    assert_eq!(rcc.ahbprst, 0xBF);
    let (_crc16, crc32) = engine.split();
    let stream = Crc32Stream { engine: crc32 };
    let crc32 = stream.finalize();
    let _crc = crc32.regs;
    let _pwr = Pwr.constrain(&mut rcc);
    assert_eq!(rcc.apb1pclken, 1 << 28);
    assert_eq!(rcc.apb1prst, 0xEFFF_FFFF);
}
