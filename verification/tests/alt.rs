use n32g4xx_hal::afio::AfioExt;
use n32g4xx_hal::afio::Parts;
use n32g4xx_hal::gpio::alt::altmap::spi1::SPI1FullRemapRemapper;
use n32g4xx_hal::gpio::alt::altmap::spi1::SPI1NoRemapRemapper;
use n32g4xx_hal::gpio::alt::altmap::spi1::SPI1PartialRemapOneRemapper;
use n32g4xx_hal::gpio::alt::altmap::spi1::SPI1PartialRemapTwoRemapper;
use n32g4xx_hal::gpio::alt::altmap::spi2::SPI2FullRemapRemapper;
use n32g4xx_hal::gpio::alt::altmap::spi2::SPI2PartialRemapRemapper;
use n32g4xx_hal::gpio::alt::altmap::spi3::SPI3PartialRemapTwoRemapper;
use n32g4xx_hal::gpio::alt::altmap::tim1::TIM1PartialRemapOneRemapper;
use n32g4xx_hal::gpio::alt::altmap::tim2::TIM2FullRemapRemapper;
use n32g4xx_hal::gpio::alt::altmap::tim8::TIM8FullRemapRemapper;
use n32g4xx_hal::gpio::alt::altmap::tim8::TIM8NoRemapRemapper;
use n32g4xx_hal::gpio::alt::altmap::uart4::UART4PartialRemapTwoRemapper;
use n32g4xx_hal::gpio::alt::altmap::uart5::UART5FullRemapRemapper;
use n32g4xx_hal::gpio::alt::altmap::usart1::USART1FullRemapRemapper;
use n32g4xx_hal::gpio::alt::altmap::usart1::USART1NoRemapRemapper;
use n32g4xx_hal::gpio::alt::altmap::usart2::USART2FullRemapRemapper;
use n32g4xx_hal::gpio::alt::altmap::usart2::USART2PartialRemapOneRemapper;
use n32g4xx_hal::gpio::alt::altmap::usart3::USART3FullRemapRemapper;
use n32g4xx_hal::gpio::alt::altmap::usart3::USART3PartialRemapRemapper;
use n32g4xx_hal::gpio::alt::altmap::spi1::Sck;
use n32g4xx_hal::gpio::alt::altmap::usart1::Ck;
use n32g4xx_hal::gpio::alt::altmap::usart1::Rx;
use n32g4xx_hal::gpio::alt::altmap::Remap;
use n32g4xx_hal::gpio::alt::altmap::RemapIO;
use n32g4xx_hal::gpio::Alternate;
use n32g4xx_hal::gpio::Floating;
use n32g4xx_hal::gpio::GpioExt;
use n32g4xx_hal::gpio::Input;
use n32g4xx_hal::gpio::NoPin;
use n32g4xx_hal::gpio::PinSpeed;
use n32g4xx_hal::gpio::PushPull;
use n32g4xx_hal::gpio::ReadPin;
use n32g4xx_hal::gpio::Speed;
use n32g4xx_hal::pac::Gpio;
use n32g4xx_hal::pac::GpioPort;
use n32g4xx_hal::pac::Gpioa;
use n32g4xx_hal::pac::Gpiob;
use n32g4xx_hal::gpio::OpenDrain;
use n32g4xx_hal::gpio::PA10;
use n32g4xx_hal::gpio::PA4;
use n32g4xx_hal::gpio::PA9;
use n32g4xx_hal::gpio::PB3;
use n32g4xx_hal::gpio::PE9;
use n32g4xx_hal::pac::Afio;
use n32g4xx_hal::pac::Rcc;
use n32g4xx_hal::pac::RccCfg;
use n32g4xx_hal::pac::RccCfg2;
use n32g4xx_hal::pac::RccCfg3;
use n32g4xx_hal::pac::RccCtrl;
use n32g4xx_hal::pac::RmpCfg;
use n32g4xx_hal::pac::RmpCfg3;
use n32g4xx_hal::pac::Spi1;
use n32g4xx_hal::pac::Usart1;
use n32g4xx_hal::pac::Usart2;

fn blank_rcc() -> Rcc {
    Rcc {
        ctrl: RccCtrl { hseen: false, hsebp: false, hserdf: false, pllen: false, pllrdf: false },
        cfg: RccCfg::reset_value(),
        cfg2: RccCfg2 { adc1msel: false, adc1mpres: 0, adchpres: 0, adcpllpres: 0 },
        cfg3: RccCfg3 { trng1msel: false, trng1mpres: 0 },
        ahbpclken: 0,
        apb1pclken: 0,
        apb2pclken: 0,
        ahbprst: 0,
        apb1prst: 0,
        apb2prst: 0,
    }
}

fn blank_afio() -> Afio {
    Afio {
        ectrl: 0,
        rmp_cfg: RmpCfg {
            spi1_rmp_0: false,
            usart1_rmp: false,
            usart2_rmp_0: false,
            usart3_rmp: 0,
            tim1_rmp: 0,
            tim2_rmp: 0,
        },
        exti_cfg1: 0,
        exti_cfg2: 0,
        exti_cfg3: 0,
        exti_cfg4: 0,
        rmp_cfg3: RmpCfg3 {
            spi1_rmp_1: false,
            usart2_rmp_1: false,
            spi2_rmp: 0,
            spi3_rmp: 0,
            uart4_rmp: 0,
            uart5_rmp: 0,
            uart6_rmp: 0,
            uart7_rmp: 0,
            tim8_rmp: 0,
        },
        rmp_cfg4: 0,
        rmp_cfg5: 0,
    }
}

fn remapped<R: Remap>() -> Afio {
    let mut afio = blank_afio();
    R::remap(&mut afio);
    afio
}

fn wired<PIN: RemapIO<PER, R>, PER, R: Remap>() {}

#[test]
fn spi1_remap_bits() {
    let mut afio = blank_afio();
    SPI1FullRemapRemapper::remap(&mut afio);
    assert!(afio.rmp_cfg.spi1_rmp_0 && afio.rmp_cfg3.spi1_rmp_1);
    SPI1PartialRemapOneRemapper::remap(&mut afio);
    assert!(afio.rmp_cfg.spi1_rmp_0 && !afio.rmp_cfg3.spi1_rmp_1);
    SPI1PartialRemapTwoRemapper::remap(&mut afio);
    assert!(!afio.rmp_cfg.spi1_rmp_0 && afio.rmp_cfg3.spi1_rmp_1);
    SPI1NoRemapRemapper::remap(&mut afio);
    assert_eq!(afio, blank_afio());
}

#[test]
fn remap_fields_of_the_other_peripherals() {
    assert_eq!(remapped::<SPI2PartialRemapRemapper>().rmp_cfg3.spi2_rmp, 1);
    assert_eq!(remapped::<SPI2FullRemapRemapper>().rmp_cfg3.spi2_rmp, 3);
    assert_eq!(remapped::<SPI3PartialRemapTwoRemapper>().rmp_cfg3.spi3_rmp, 2);
    assert!(remapped::<USART1FullRemapRemapper>().rmp_cfg.usart1_rmp);
    assert!(!remapped::<USART1NoRemapRemapper>().rmp_cfg.usart1_rmp);
    let usart2 = remapped::<USART2PartialRemapOneRemapper>();
    assert!(usart2.rmp_cfg.usart2_rmp_0 && !usart2.rmp_cfg3.usart2_rmp_1);
    let usart2 = remapped::<USART2FullRemapRemapper>();
    assert!(usart2.rmp_cfg.usart2_rmp_0 && usart2.rmp_cfg3.usart2_rmp_1);
    assert_eq!(remapped::<USART3PartialRemapRemapper>().rmp_cfg.usart3_rmp, 1);
    assert_eq!(remapped::<USART3FullRemapRemapper>().rmp_cfg.usart3_rmp, 3);
    assert_eq!(remapped::<UART4PartialRemapTwoRemapper>().rmp_cfg3.uart4_rmp, 2);
    assert_eq!(remapped::<UART5FullRemapRemapper>().rmp_cfg3.uart5_rmp, 3);
    assert_eq!(remapped::<TIM1PartialRemapOneRemapper>().rmp_cfg.tim1_rmp, 1);
    assert_eq!(remapped::<TIM2FullRemapRemapper>().rmp_cfg.tim2_rmp, 3);
    assert_eq!(remapped::<TIM8FullRemapRemapper>().rmp_cfg3.tim8_rmp, 3);
    assert_eq!(remapped::<TIM8NoRemapRemapper>(), blank_afio());
}

#[test]
fn remap_leaves_the_other_fields() {
    let mut afio = blank_afio();
    afio.rmp_cfg3.spi3_rmp = 2;
    afio.rmp_cfg.tim1_rmp = 1;
    afio.ectrl = 9;
    let before = afio;
    SPI2FullRemapRemapper::remap(&mut afio);
    assert_eq!(afio.rmp_cfg3, RmpCfg3 { spi2_rmp: 3, ..before.rmp_cfg3 });
    assert_eq!(afio.rmp_cfg, before.rmp_cfg);
    assert_eq!(afio.ectrl, 9);
}

#[test]
fn legal_wirings_type_check() {
    wired::<PA4<Alternate<OpenDrain>>, Spi1, SPI1NoRemapRemapper>();
    wired::<PA4, Usart2, USART2FullRemapRemapper>();
    wired::<PB3, Spi1, SPI1PartialRemapOneRemapper>();
    wired::<PE9, Spi1, SPI1FullRemapRemapper>();
    wired::<PA9, Usart1, USART1NoRemapRemapper>();
    wired::<PA10, Usart1, USART1NoRemapRemapper>();
}

#[test]
fn constrain_enables_and_resets_the_block() {
    let mut rcc = blank_rcc();
    rcc.apb2prst = 3;
    let mut start = blank_afio();
    start.rmp_cfg4 = 5;
    let afio = start.constrain(&mut rcc);
    assert_eq!(afio, start);
    assert_eq!(rcc.apb2pclken, 1);
    assert_eq!(rcc.apb2prst, 2);
}

#[test]
fn parts_hand_out_their_registers() {
    let mut afio = blank_afio();
    let mut parts = Parts::new();
    *parts.ectrl.ec(&mut afio) = 1;
    *parts.exticfg1.exti_cfg1(&mut afio) = 2;
    *parts.exticfg2.exti_cfg2(&mut afio) = 3;
    *parts.exticfg3.exti_cfg3(&mut afio) = 4;
    *parts.exticfg4.exti_cfg3(&mut afio) = 5;
    *parts.rmp_cfg4.rmp_cfg4(&mut afio) = 6;
    *parts.rmp_cfg5.rmp_cfg5(&mut afio) = 7;
    parts.rmp_cfg.rmp_cfg(&mut afio).tim2_rmp = 2;
    parts.rmp_cfg3.rmp_cfg3(&mut afio).tim8_rmp = 1;
    assert_eq!(
        (afio.ectrl, afio.exti_cfg1, afio.exti_cfg2, afio.exti_cfg3, afio.exti_cfg4),
        (1, 2, 3, 4, 5)
    );
    assert_eq!((afio.rmp_cfg4, afio.rmp_cfg5), (6, 7));
    assert_eq!(afio.rmp_cfg.tim2_rmp, 2);
    assert_eq!(afio.rmp_cfg3.tim8_rmp, 1);
}

fn reset_port() -> GpioPort {
    GpioPort { pl_cfg: 0x4444_4444, ph_cfg: 0x4444_4444, pid: 0, pod: 0 }
}

fn reset_gpio() -> Gpio {
    Gpio {
        a: reset_port(),
        b: reset_port(),
        c: reset_port(),
        d: reset_port(),
        e: reset_port(),
        f: reset_port(),
        g: reset_port(),
    }
}

#[test]
fn signal_takes_its_pin_into_alternate_mode() {
    let mut rcc = blank_rcc();
    let mut gpio = reset_gpio();
    let pa = Gpioa.split(&mut rcc);
    let pb = Gpiob.split(&mut rcc);
    let sck: Sck = Sck::from_pa5(pa.pa5, &mut gpio);
    assert!(matches!(sck, Sck::PA5(_)));
    assert_eq!(gpio.a.pl_cfg, 0x44B4_4444);
    let open: Sck<n32g4xx_hal::gpio::OpenDrain> =
        Sck::from_pb3(pb.pb3.into_floating_input(&mut gpio), &mut gpio);
    assert!(matches!(open, Sck::PB3(_)));
    assert_eq!(gpio.b.pl_cfg, 0x4444_F444);
    // the pin comes back in the mode that is asked for
    let pa5 = sck.try_into_pa5::<Input<Floating>>(&mut gpio);
    assert!(pa5.is_ok());
    assert_eq!(gpio.a.pl_cfg, 0x4444_4444);
    // a signal on another pin does not give PA5 back, and nothing changes
    let before = gpio;
    assert!(open.try_into_pa5::<Input<Floating>>(&mut gpio).is_err());
    assert_eq!(gpio, before);
}

#[test]
fn signal_reads_and_sets_its_pin() {
    let mut rcc = blank_rcc();
    let mut gpio = reset_gpio();
    let pa = Gpioa.split(&mut rcc);
    let mut rx: Rx<Input<Floating>> = Rx::from_pa10(pa.pa10, &mut gpio);
    assert_eq!(gpio.a.ph_cfg, 0x4444_4444);
    assert!(rx.is_low(&gpio));
    gpio.a.pid = 1 << 10;
    assert!(rx.is_high(&gpio));
    gpio.a.ph_cfg = 0;
    rx.set_speed(&mut gpio, Speed::High);
    assert_eq!(gpio.a.ph_cfg, 0b11 << 20);
    let ck = Ck::from_pa8(pa.pa8, &mut gpio);
    assert!(matches!(ck, Ck::PA8(_)));
    assert_eq!(gpio.a.ph_cfg, (0b11 << 20) | 0xB);
}

#[test]
fn signal_without_a_pin() {
    let mut gpio = reset_gpio();
    let before = gpio;
    let mut none: Sck<PushPull> = Sck::from_no_pin(NoPin::<Floating>::new());
    assert!(matches!(none, Sck::Unconnected(_)));
    assert!(!none.is_low(&gpio));
    assert!(none.is_high(&gpio));
    none.set_speed(&mut gpio, Speed::High);
    assert_eq!(gpio, before);
    assert!(none.try_into_pa5::<Input<Floating>>(&mut gpio).is_err());
    assert_eq!(gpio, before);
}
