use n32g4xx_hal::gpio::alt::altmap::usart1::USART1NoRemapRemapper;
use n32g4xx_hal::gpio::alt::altmap::usart1::Rx as Usart1Rx;
use n32g4xx_hal::gpio::alt::altmap::usart1::Tx as Usart1Tx;
use n32g4xx_hal::gpio::alt::altmap::usart2::USART2PartialRemapOneRemapper;
use n32g4xx_hal::gpio::GpioExt;
use n32g4xx_hal::pac::Afio;
use n32g4xx_hal::pac::Gpio;
use n32g4xx_hal::pac::GpioPort;
use n32g4xx_hal::pac::Gpioa;
use n32g4xx_hal::pac::Gpiod;
use n32g4xx_hal::pac::Rcc;
use n32g4xx_hal::pac::RccCfg;
use n32g4xx_hal::pac::RccCfg2;
use n32g4xx_hal::pac::RccCfg3;
use n32g4xx_hal::pac::RccCtrl;
use n32g4xx_hal::pac::RmpCfg;
use n32g4xx_hal::pac::RmpCfg3;
use n32g4xx_hal::pac::Usart1;
use n32g4xx_hal::pac::Usart2;
use n32g4xx_hal::pac::UsartBlock;
use n32g4xx_hal::pac::UsartCtrl1;
use n32g4xx_hal::pac::UsartCtrl2;
use n32g4xx_hal::pac::UsartCtrl3;
use n32g4xx_hal::rcc::Clocks;
use n32g4xx_hal::serial::config::Config;
use n32g4xx_hal::serial::config::DmaConfig;
use n32g4xx_hal::serial::config::InvalidConfig;
use n32g4xx_hal::serial::config::Parity;
use n32g4xx_hal::serial::config::StopBits;
use n32g4xx_hal::serial::config::WordLength;
use n32g4xx_hal::serial::Serial;
use n32g4xx_hal::serial::SerialExt;

fn blank_rcc() -> Rcc {
    Rcc {
        ctrl: RccCtrl { hseen: false, hsebp: false, hserdf: false, pllen: false, pllrdf: false },
        cfg: RccCfg::reset_value(),
        cfg2: RccCfg2 { adc1msel: false, adc1mpres: 0, adchpres: 0, adcpllpres: 0 },
        cfg3: RccCfg3 { trng1msel: false, trng1mpres: 0 },
        ahbpclken: 0,
        apb1pclken: 0,
        apb2pclken: 0,
        ahbprst: 0,
        apb1prst: 0,
        apb2prst: 0,
    }
}

fn blank_afio() -> Afio {
    Afio {
        ectrl: 0,
        rmp_cfg: RmpCfg {
            spi1_rmp_0: false,
            usart1_rmp: true,
            usart2_rmp_0: false,
            usart3_rmp: 0,
            tim1_rmp: 0,
            tim2_rmp: 0,
        },
        exti_cfg1: 0,
        exti_cfg2: 0,
        exti_cfg3: 0,
        exti_cfg4: 0,
        rmp_cfg3: RmpCfg3 {
            spi1_rmp_1: false,
            usart2_rmp_1: true,
            spi2_rmp: 0,
            spi3_rmp: 0,
            uart4_rmp: 0,
            uart5_rmp: 0,
            uart6_rmp: 0,
            uart7_rmp: 0,
            tim8_rmp: 0,
        },
        rmp_cfg4: 0,
        rmp_cfg5: 0,
    }
}

fn floating_port() -> GpioPort {
    GpioPort { pl_cfg: 0x4444_4444, ph_cfg: 0x4444_4444, pid: 0, pod: 0 }
}

fn floating_gpio() -> Gpio {
    Gpio {
        a: floating_port(),
        b: floating_port(),
        c: floating_port(),
        d: floating_port(),
        e: floating_port(),
        f: floating_port(),
        g: floating_port(),
    }
}

fn stale_usart() -> UsartBlock {
    UsartBlock {
        ctrl1: UsartCtrl1 {
            rxen: false,
            txen: false,
            psel: true,
            pcen: true,
            wl: true,
            uen: false,
        },
        ctrl2: UsartCtrl2 { stpb: 3 },
        ctrl3: UsartCtrl3 { dmarxen: true, dmatxen: true },
        brcf: 0xFFFF,
    }
}

fn clocks() -> Clocks {
    Clocks { hclk: 144_000_000, pclk1: 36_000_000, pclk2: 72_000_000, sysclk: 144_000_000 }
}

fn config(baudrate: u32) -> Config {
    Config {
        baudrate,
        wordlength: WordLength::DataBits8,
        parity: Parity::ParityNone,
        stopbits: StopBits::STOP1,
        dma: DmaConfig::Disabled,
    }
}

#[test]
fn serial_port_on_the_default_pins() {
    let mut rcc = blank_rcc();
    let mut afio = blank_afio();
    let mut gpio = floating_gpio();
    let mut registers = stale_usart();
    let pa = Gpioa.split(&mut rcc);
    let serial: Serial<Usart1> = Usart1
        .serial::<u8, USART1NoRemapRemapper, _, _>(
            (pa.pa9, pa.pa10),
            config(115_200),
            &clocks(),
            &mut afio,
            &mut rcc,
            &mut gpio,
            &mut registers,
        )
        .unwrap();
    assert!(!afio.rmp_cfg.usart1_rmp);
    assert_eq!(rcc.apb2pclken, (1 << 2) | (1 << 14));
    // PA9 drives the line, PA10 listens
    assert_eq!(gpio.a.ph_cfg, 0x4444_44B4);
    assert_eq!(
        registers,
        UsartBlock {
            ctrl1: UsartCtrl1 {
                rxen: true,
                txen: true,
                psel: false,
                pcen: false,
                wl: false,
                uen: true,
            },
            ctrl2: UsartCtrl2 { stpb: 0 },
            ctrl3: UsartCtrl3 { dmarxen: false, dmatxen: false },
            brcf: 0x271,
        }
    );
    let (tx, rx) = serial.split();
    assert!(matches!(tx.pin, Usart1Tx::PA9(_)));
    assert!(matches!(rx.pin, Usart1Rx::PA10(_)));
    let wide = rx.join(tx).with_u16_data();
    let narrow = wide.with_u8_data();
    let (tx, rx) = narrow.split();
    let (_usart, (tx, _rx)) = tx.join(rx).release();
    assert!(matches!(tx, Usart1Tx::PA9(_)));
}

#[test]
fn serial_port_with_parity_stop_bits_and_dma() {
    let mut rcc = blank_rcc();
    let mut afio = blank_afio();
    let mut gpio = floating_gpio();
    let mut registers = stale_usart();
    let pd = Gpiod.split(&mut rcc);
    let settings = Config {
        baudrate: 9_600,
        wordlength: WordLength::DataBits9,
        parity: Parity::ParityOdd,
        stopbits: StopBits::STOP2,
        dma: DmaConfig::TxRx,
    };
    let serial = Usart2.serial::<u8, USART2PartialRemapOneRemapper, _, _>(
        (pd.pd5, pd.pd6),
        settings,
        &clocks(),
        &mut afio,
        &mut rcc,
        &mut gpio,
        &mut registers,
    );
    assert!(serial.is_ok());
    assert!(afio.rmp_cfg.usart2_rmp_0);
    assert!(!afio.rmp_cfg3.usart2_rmp_1);
    assert_eq!(rcc.apb1pclken, 1 << 17);
    assert_eq!(gpio.d.pl_cfg, 0x44B4_4444);
    assert_eq!(
        registers,
        UsartBlock {
            ctrl1: UsartCtrl1 {
                rxen: true,
                txen: true,
                psel: true,
                pcen: true,
                wl: true,
                uen: true,
            },
            ctrl2: UsartCtrl2 { stpb: 2 },
            ctrl3: UsartCtrl3 { dmarxen: true, dmatxen: true },
            // 36 MHz / (16 x 9600) = 234.375
            brcf: (234 << 4) | 6,
        }
    );
    let mut registers = stale_usart();
    let even = Config { parity: Parity::ParityEven, dma: DmaConfig::Rx, ..settings };
    let pa = Gpioa.split(&mut rcc);
    let serial = Usart1.serial::<u8, USART1NoRemapRemapper, _, _>(
        (pa.pa9, pa.pa10),
        even,
        &clocks(),
        &mut afio,
        &mut rcc,
        &mut gpio,
        &mut registers,
    );
    assert!(serial.is_ok());
    assert!(registers.ctrl1.pcen && !registers.ctrl1.psel);
    assert_eq!(registers.ctrl3, UsartCtrl3 { dmarxen: true, dmatxen: false });
}

#[test]
fn baud_rate_that_the_clock_cannot_serve() {
    let mut rcc = blank_rcc();
    let mut afio = blank_afio();
    let mut gpio = floating_gpio();
    let mut registers = stale_usart();
    let pa = Gpioa.split(&mut rcc);
    let serial = Usart1.serial::<u8, USART1NoRemapRemapper, _, _>(
        (pa.pa9, pa.pa10),
        config(5_000_000),
        &clocks(),
        &mut afio,
        &mut rcc,
        &mut gpio,
        &mut registers,
    );
    assert_eq!(serial.err(), Some(InvalidConfig));
    assert_eq!(registers, stale_usart());
    // the clock is on and the pins are taken all the same
    assert_eq!(rcc.apb2pclken, (1 << 2) | (1 << 14));
    assert_eq!(gpio.a.ph_cfg, 0x4444_44B4);
    assert_eq!(StopBits::STOP1.bits(), 0);
    assert_eq!(StopBits::STOP0P5.bits(), 1);
    assert_eq!(StopBits::STOP2.bits(), 2);
    assert_eq!(StopBits::STOP1P5.bits(), 3);
}
