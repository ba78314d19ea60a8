use n32g4xx_hal::gpio::alt::altmap::spi1::Sck;
use n32g4xx_hal::gpio::alt::altmap::spi1::SPI1NoRemapRemapper;
use n32g4xx_hal::gpio::alt::altmap::spi1::SPI1FullRemapRemapper;
use n32g4xx_hal::gpio::alt::altmap::spi1::SPI1PartialRemapOneRemapper;
use n32g4xx_hal::gpio::alt::altmap::spi1::SPI1PartialRemapTwoRemapper;
use n32g4xx_hal::gpio::alt::altmap::spi1::Miso;
use n32g4xx_hal::gpio::alt::altmap::spi1::Mosi;
use n32g4xx_hal::gpio::GpioExt;
use n32g4xx_hal::pac::Afio;
use n32g4xx_hal::pac::Gpio;
use n32g4xx_hal::pac::GpioPort;
use n32g4xx_hal::pac::Gpioa;
use n32g4xx_hal::pac::Gpiob;
use n32g4xx_hal::pac::Gpioe;
use n32g4xx_hal::pac::Rcc;
use n32g4xx_hal::pac::RccCfg;
use n32g4xx_hal::pac::RccCfg2;
use n32g4xx_hal::pac::RccCfg3;
use n32g4xx_hal::pac::RccCtrl;
use n32g4xx_hal::pac::RmpCfg;
use n32g4xx_hal::pac::RmpCfg3;
use n32g4xx_hal::pac::Spi1;
use n32g4xx_hal::pac::SpiBlock;
use n32g4xx_hal::pac::SpiCtrl1;
use n32g4xx_hal::pac::SpiCtrl2;
use n32g4xx_hal::rcc::Clocks;
use n32g4xx_hal::spi::Mode;
use n32g4xx_hal::spi::Phase;
use n32g4xx_hal::spi::Polarity;
use n32g4xx_hal::spi::BitFormat;
use n32g4xx_hal::spi::Spi;
use n32g4xx_hal::spi::SpiSlave;
use n32g4xx_hal::spi::SpiExt;
use n32g4xx_hal::spi::TransferMode;
use n32g4xx_hal::spi::BIDIRECTIONAL;
use n32g4xx_hal::spi::NORMAL;
use n32g4xx_hal::spi::RECEIVE_ONLY;
use n32g4xx_hal::spi::TRANSMIT_ONLY;

fn blank_rcc() -> Rcc {
    Rcc {
        ctrl: RccCtrl { hseen: false, hsebp: false, hserdf: false, pllen: false, pllrdf: false },
        cfg: RccCfg::reset_value(),
        cfg2: RccCfg2 { adc1msel: false, adc1mpres: 0, adchpres: 0, adcpllpres: 0 },
        cfg3: RccCfg3 { trng1msel: false, trng1mpres: 0 },
        ahbpclken: 0,
        apb1pclken: 0,
        apb2pclken: 0,
        ahbprst: 0,
        apb1prst: 0,
        apb2prst: 0,
    }
}

fn blank_afio() -> Afio {
    Afio {
        ectrl: 0,
        rmp_cfg: RmpCfg {
            spi1_rmp_0: false,
            usart1_rmp: false,
            usart2_rmp_0: false,
            usart3_rmp: 0,
            tim1_rmp: 0,
            tim2_rmp: 0,
        },
        exti_cfg1: 0,
        exti_cfg2: 0,
        exti_cfg3: 0,
        exti_cfg4: 0,
        rmp_cfg3: RmpCfg3 {
            spi1_rmp_1: false,
            usart2_rmp_1: false,
            spi2_rmp: 0,
            spi3_rmp: 0,
            uart4_rmp: 0,
            uart5_rmp: 0,
            uart6_rmp: 0,
            uart7_rmp: 0,
            tim8_rmp: 0,
        },
        rmp_cfg4: 0,
        rmp_cfg5: 0,
    }
}

fn floating_port() -> GpioPort {
    GpioPort { pl_cfg: 0x4444_4444, ph_cfg: 0x4444_4444, pid: 0, pod: 0 }
}

fn floating_gpio() -> Gpio {
    Gpio {
        a: floating_port(),
        b: floating_port(),
        c: floating_port(),
        d: floating_port(),
        e: floating_port(),
        f: floating_port(),
        g: floating_port(),
    }
}

fn blank_spi() -> SpiBlock {
    SpiBlock {
        ctrl1: SpiCtrl1 {
            clkpha: false,
            clkpol: false,
            msel: false,
            br: 0,
            spien: false,
            lsbff: true,
            ssel: false,
            ssmen: false,
            ronly: true,
            datff: true,
            bidiroen: true,
            bidirmode: true,
        },
        ctrl2: SpiCtrl2 { ssoen: true },
    }
}

const MODE_3: Mode =
    Mode { polarity: Polarity::IdleHigh, phase: Phase::CaptureOnSecondTransition };

#[test]
fn master_on_the_default_pins() {
    let mut rcc = blank_rcc();
    let mut afio = blank_afio();
    afio.rmp_cfg.spi1_rmp_0 = true;
    let mut gpio = floating_gpio();
    let mut registers = blank_spi();
    let clocks =
        Clocks { hclk: 144_000_000, pclk1: 36_000_000, pclk2: 72_000_000, sysclk: 144_000_000 };
    let pa = Gpioa.split(&mut rcc);
    let spi = Spi1.spi::<SPI1NoRemapRemapper, _, _, _>(
        (pa.pa5, pa.pa6, pa.pa7),
        MODE_3,
        1_000_000,
        &clocks,
        &mut afio,
        &mut rcc,
        &mut gpio,
        &mut registers,
    );
    assert_eq!(afio, blank_afio());
    assert_eq!(rcc.apb2pclken, (1 << 2) | (1 << 12));
    assert_eq!(gpio.a.pl_cfg, 0xB4B4_4444);
    assert_eq!(
        registers,
        SpiBlock {
            ctrl1: SpiCtrl1 {
                clkpha: true,
                clkpol: true,
                msel: true,
                br: 5,
                spien: true,
                lsbff: false,
                ssel: true,
                ssmen: true,
                ronly: false,
                datff: false,
                bidiroen: false,
                bidirmode: false,
            },
            ctrl2: SpiCtrl2 { ssoen: false },
        }
    );
    let (_spi1, (sck, _miso, _mosi)) = spi.release();
    assert!(matches!(sck, Sck::PA5(_)));
}

#[test]
fn master_on_remapped_pins() {
    let mut rcc = blank_rcc();
    let mut afio = blank_afio();
    let mut gpio = floating_gpio();
    let mut registers = blank_spi();
    let clocks =
        Clocks { hclk: 72_000_000, pclk1: 36_000_000, pclk2: 72_000_000, sysclk: 72_000_000 };
    let pb = Gpiob.split(&mut rcc);
    let miso = pb.pb4.into_floating_input(&mut gpio);
    let mode = Mode { polarity: Polarity::IdleLow, phase: Phase::CaptureOnFirstTransition };
    let _spi: Spi<Spi1, NORMAL, u8> = Spi1.spi::<SPI1PartialRemapOneRemapper, _, _, _>(
        (pb.pb3, miso, pb.pb5),
        mode,
        72_000_000,
        &clocks,
        &mut afio,
        &mut rcc,
        &mut gpio,
        &mut registers,
    );
    assert!(afio.rmp_cfg.spi1_rmp_0);
    assert!(!afio.rmp_cfg3.spi1_rmp_1);
    // PB3 was in alternate mode already and is taken as it is
    assert_eq!(gpio.b.pl_cfg, 0x44B4_4444);
    assert_eq!(registers.ctrl1.br, 0);
    assert!(!registers.ctrl1.clkpha && !registers.ctrl1.clkpol);
}

#[test]
fn master_on_the_pins_of_the_second_partial_remapping() {
    let mut rcc = blank_rcc();
    let mut afio = blank_afio();
    afio.rmp_cfg.spi1_rmp_0 = true;
    let mut gpio = floating_gpio();
    let mut registers = blank_spi();
    let pa = Gpioa.split(&mut rcc);
    let spi: Spi<Spi1, NORMAL, u8> = Spi1.spi::<SPI1PartialRemapTwoRemapper, _, _, _>(
        (pa.pa5, pa.pa6, pa.pa7),
        MODE_3,
        1_000_000,
        &clocks(),
        &mut afio,
        &mut rcc,
        &mut gpio,
        &mut registers,
    );
    assert!(!afio.rmp_cfg.spi1_rmp_0);
    assert!(afio.rmp_cfg3.spi1_rmp_1);
    let mut others = afio;
    others.rmp_cfg3.spi1_rmp_1 = false;
    assert_eq!(others, blank_afio());
    assert_eq!(gpio.a.pl_cfg, 0xB4B4_4444);
    let (_spi1, (sck, miso, mosi)) = spi.release();
    assert!(matches!(sck, Sck::PA5(_)));
    assert!(matches!(miso, Miso::PA6(_)));
    assert!(matches!(mosi, Mosi::PA7(_)));
}

#[test]
fn master_on_the_pins_of_the_full_remapping() {
    let mut rcc = blank_rcc();
    let mut afio = blank_afio();
    let mut gpio = floating_gpio();
    let mut registers = blank_spi();
    let pe = Gpioe.split(&mut rcc);
    let spi: Spi<Spi1, NORMAL, u8> = Spi1.spi::<SPI1FullRemapRemapper, _, _, _>(
        (pe.pe7, pe.pe8, pe.pe9),
        MODE_3,
        1_000_000,
        &clocks(),
        &mut afio,
        &mut rcc,
        &mut gpio,
        &mut registers,
    );
    assert!(afio.rmp_cfg.spi1_rmp_0);
    assert!(afio.rmp_cfg3.spi1_rmp_1);
    let mut others = afio;
    others.rmp_cfg.spi1_rmp_0 = false;
    others.rmp_cfg3.spi1_rmp_1 = false;
    assert_eq!(others, blank_afio());
    assert_eq!(gpio.e.pl_cfg, 0xB444_4444);
    assert_eq!(gpio.e.ph_cfg, 0x4444_44B4);
    assert_eq!(gpio.a, floating_port());
    let (_spi1, (sck, miso, mosi)) = spi.release();
    assert!(matches!(sck, Sck::PE7(_)));
    assert!(matches!(miso, Miso::PE8(_)));
    assert!(matches!(mosi, Mosi::PE9(_)));
}

#[test]
fn transfer_mode_codes() {
    assert_eq!(TransferMode::of(NORMAL), TransferMode::TransferModeNormal);
    assert_eq!(TransferMode::of(BIDIRECTIONAL), TransferMode::TransferModeBidirectional);
    assert_eq!(TransferMode::of(RECEIVE_ONLY), TransferMode::TransferModeRecieveOnly);
    assert_eq!(TransferMode::of(TRANSMIT_ONLY), TransferMode::TransferModeTransmitOnly);
}

fn clocks() -> Clocks {
    Clocks { hclk: 144_000_000, pclk1: 36_000_000, pclk2: 72_000_000, sysclk: 144_000_000 }
}

#[test]
fn master_that_only_receives() {
    let mut rcc = blank_rcc();
    let mut gpio = floating_gpio();
    let mut registers = blank_spi();
    let pa = Gpioa.split(&mut rcc);
    let spi: Spi<Spi1, RECEIVE_ONLY, u8> = Spi::new_rxonly(
        Spi1,
        (pa.pa5, pa.pa6),
        MODE_3,
        9_000_000,
        &clocks(),
        &mut rcc,
        &mut gpio,
        &mut registers,
    );
    assert_eq!(gpio.a.pl_cfg, 0x44B4_4444);
    assert!(registers.ctrl1.ronly);
    assert!(!registers.ctrl1.spien);
    assert_eq!(registers.ctrl1.br, 2);
    assert!(!registers.ctrl1.bidirmode && !registers.ctrl1.bidiroen);
    let (_spi1, (_sck, _miso, mosi)) = spi.release();
    assert!(matches!(mosi, Mosi::Unconnected(_)));
}

#[test]
fn master_with_one_data_line() {
    let mut rcc = blank_rcc();
    let mut gpio = floating_gpio();
    let mut registers = blank_spi();
    let pa = Gpioa.split(&mut rcc);
    let spi: Spi<Spi1, BIDIRECTIONAL, u8> = Spi::new_bidi(
        Spi1,
        (pa.pa5, pa.pa7),
        MODE_3,
        72_000_000,
        &clocks(),
        &mut rcc,
        &mut gpio,
        &mut registers,
    );
    assert_eq!(gpio.a.pl_cfg, 0xB4B4_4444);
    assert!(registers.ctrl1.bidirmode && registers.ctrl1.bidiroen);
    assert!(registers.ctrl1.spien && !registers.ctrl1.ronly);
    // back to two lines, then to frames of 16 bits and back
    let spi = spi.to_normal_transfer_mode(&mut registers);
    assert!(!registers.ctrl1.bidirmode && !registers.ctrl1.bidiroen && registers.ctrl1.spien);
    let spi = spi.frame_size_16bit(&mut registers);
    assert!(registers.ctrl1.datff);
    let spi = spi.frame_size_8bit(&mut registers);
    assert!(!registers.ctrl1.datff);
    let mut spi = spi.to_bidi_transfer_mode(&mut registers);
    assert!(registers.ctrl1.bidirmode);
    spi.inner.enable(&mut registers, false);
    assert!(!registers.ctrl1.spien);
    spi.inner.bit_format(&mut registers, BitFormat::LsbFirst);
    assert!(registers.ctrl1.lsbff);
    spi.inner.bit_format(&mut registers, BitFormat::MsbFirst);
    assert!(!registers.ctrl1.lsbff);
    let (_spi1, (_sck, miso, _mosi)) = spi.release();
    assert!(matches!(miso, Miso::Unconnected(_)));
}

#[test]
fn slave_with_and_without_select_pin() {
    let mut rcc = blank_rcc();
    let mut gpio = floating_gpio();
    let mut registers = blank_spi();
    let pa = Gpioa.split(&mut rcc);
    let slave: SpiSlave<Spi1, NORMAL, u8> = SpiSlave::new::<SPI1NoRemapRemapper, _, _, _, _>(
        Spi1,
        (pa.pa5, pa.pa6, pa.pa7, Some(pa.pa4)),
        MODE_3,
        &mut rcc,
        &mut gpio,
        &mut registers,
    );
    assert_eq!(gpio.a.pl_cfg, 0xB4BB_4444);
    assert_eq!(
        registers,
        SpiBlock {
            ctrl1: SpiCtrl1 {
                clkpha: true,
                clkpol: true,
                msel: false,
                br: 0,
                spien: true,
                lsbff: false,
                ssel: true,
                ssmen: false,
                ronly: false,
                datff: false,
                bidiroen: false,
                bidirmode: false,
            },
            ctrl2: SpiCtrl2 { ssoen: true },
        }
    );
    let (_spi1, (_sck, _miso, _mosi, nss)) = slave.release();
    assert!(nss.is_some());
    let pa = Gpioa.split(&mut rcc);
    let mut slave: SpiSlave<Spi1, NORMAL, u8> = SpiSlave::new::<
        SPI1NoRemapRemapper,
        _,
        _,
        _,
        n32g4xx_hal::gpio::PA4,
    >(Spi1, (pa.pa5, pa.pa6, pa.pa7, None), MODE_3, &mut rcc, &mut gpio, &mut registers);
    assert!(registers.ctrl1.ssmen);
    slave.set_internal_nss(&mut registers, false);
    assert!(!registers.ctrl1.ssel);
    slave.set_internal_nss(&mut registers, true);
    assert!(registers.ctrl1.ssel);
}
