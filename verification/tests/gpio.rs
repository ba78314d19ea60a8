use n32g4xx_hal::gpio::convert::set_mode;
use n32g4xx_hal::gpio::port::gpiox;
use n32g4xx_hal::gpio::port::pbsc_word;
use n32g4xx_hal::gpio::port::port_of;
use n32g4xx_hal::gpio::port::read_port;
use n32g4xx_hal::gpio::port::writes_between;
use n32g4xx_hal::gpio::port::PortWrite;
use n32g4xx_hal::gpio::port::PullResistor;
use n32g4xx_hal::gpio::port::PORT_A;
use n32g4xx_hal::gpio::port::PORT_C;
use n32g4xx_hal::gpio::port::PORT_G;
use n32g4xx_hal::gpio::Alternate;
use n32g4xx_hal::gpio::Analog;
use n32g4xx_hal::gpio::Dynamic;
use n32g4xx_hal::gpio::Floating;
use n32g4xx_hal::gpio::GpioExt;
use n32g4xx_hal::gpio::Input;
use n32g4xx_hal::gpio::NoPin;
use n32g4xx_hal::gpio::OpenDrain;
use n32g4xx_hal::gpio::Output;
use n32g4xx_hal::gpio::PinExt;
use n32g4xx_hal::gpio::PinMode;
use n32g4xx_hal::gpio::PinSpeed;
use n32g4xx_hal::gpio::PinState;
use n32g4xx_hal::gpio::PullDown;
use n32g4xx_hal::gpio::PullUp;
use n32g4xx_hal::gpio::PushPull;
use n32g4xx_hal::gpio::ReadPin;
use n32g4xx_hal::gpio::Speed;
use n32g4xx_hal::pac::Gpio;
use n32g4xx_hal::pac::GpioPort;
use n32g4xx_hal::pac::Gpioa;
use n32g4xx_hal::pac::Gpiob;
use n32g4xx_hal::pac::Gpioc;
use n32g4xx_hal::pac::Gpiog;
use n32g4xx_hal::pac::Rcc;
use n32g4xx_hal::pac::RccCfg;
use n32g4xx_hal::pac::RccCfg2;
use n32g4xx_hal::pac::RccCfg3;
use n32g4xx_hal::pac::RccCtrl;

fn blank_rcc() -> Rcc {
    Rcc {
        ctrl: RccCtrl { hseen: false, hsebp: false, hserdf: false, pllen: false, pllrdf: false },
        cfg: RccCfg::reset_value(),
        cfg2: RccCfg2 { adc1msel: false, adc1mpres: 0, adchpres: 0, adcpllpres: 0 },
        cfg3: RccCfg3 { trng1msel: false, trng1mpres: 0 },
        ahbpclken: 0,
        apb1pclken: 0,
        apb2pclken: 0,
        ahbprst: 0,
        apb1prst: 0,
        apb2prst: 0,
    }
}

/// A port with every pin a floating input.
fn reset_port() -> GpioPort {
    GpioPort { pl_cfg: 0x4444_4444, ph_cfg: 0x4444_4444, pid: 0, pod: 0 }
}

fn reset_gpio() -> Gpio {
    Gpio {
        a: reset_port(),
        b: reset_port(),
        c: reset_port(),
        d: reset_port(),
        e: reset_port(),
        f: reset_port(),
        g: reset_port(),
    }
}

#[test]
fn split_enables_and_resets_the_port() {
    let mut rcc = blank_rcc();
    rcc.apb2prst = 0xFFFF_FFFF;
    let parts = Gpioa.split(&mut rcc);
    assert_eq!(rcc.apb2pclken, 1 << 2);
    assert_eq!(rcc.apb2prst, 0xFFFF_FFFB);
    assert_eq!(parts.pa0.pin_id(), 0);
    assert_eq!(parts.pa15.pin_id(), 15);
    assert_eq!(parts.pa7.port_id(), 0);
    let parts = Gpiog.split(&mut rcc);
    assert_eq!(rcc.apb2pclken, (1 << 2) | (1 << 8));
    assert_eq!(parts.pg9.port_id(), 6);
    assert_eq!(parts.pg9.name(), ('P', 'G', 9));
}

#[test]
fn mode_constants() {
    assert_eq!(
        (<Input<Floating>>::CNF, <Input<Floating>>::MODE, <Input<Floating>>::PULL),
        (0b01, 0b00, PullResistor::Off)
    );
    assert_eq!(
        (<Input<PullDown>>::CNF, <Input<PullDown>>::MODE, <Input<PullDown>>::PULL),
        (0b10, 0b00, PullResistor::Down)
    );
    assert_eq!(
        (<Input<PullUp>>::CNF, <Input<PullUp>>::MODE, <Input<PullUp>>::PULL),
        (0b10, 0b00, PullResistor::Up)
    );
    assert_eq!((<Output<OpenDrain>>::CNF, <Output<OpenDrain>>::MODE), (0b01, 0b11));
    assert_eq!((<Output<PushPull>>::CNF, <Output<PushPull>>::MODE), (0b00, 0b11));
    assert_eq!((Analog::CNF, Analog::MODE), (0b00, 0b00));
    assert_eq!((<Alternate<PushPull>>::CNF, <Alternate<PushPull>>::MODE), (0b10, 0b11));
    assert_eq!((<Alternate<Input>>::CNF, <Alternate<Input>>::MODE), (0b01, 0b00));
    assert_eq!((<Alternate<OpenDrain>>::CNF, <Alternate<OpenDrain>>::MODE), (0b11, 0b11));
}

#[test]
fn each_conversion_writes_its_four_bits() {
    let mut rcc = blank_rcc();
    let mut gpio = reset_gpio();
    let pa = Gpioa.split(&mut rcc);
    let _pa0 = pa.pa0.into_alternate(&mut gpio);
    let _pa1 = pa.pa1.into_alternate_open_drain(&mut gpio);
    let _pa2 = pa.pa2.into_floating_input(&mut gpio);
    let _pa3 = pa.pa3.into_pull_down_input(&mut gpio);
    let _pa4 = pa.pa4.into_pull_up_input(&mut gpio);
    let _pa5 = pa.pa5.into_open_drain_output(&mut gpio);
    let _pa6 = pa.pa6.into_push_pull_output(&mut gpio);
    let _pa7 = pa.pa7.into_analog(&mut gpio);
    assert_eq!(gpio.a.pl_cfg, 0x0378_84FB);
    assert_eq!(gpio.a.ph_cfg, 0x4444_4444);
    // only the pull-up set an output bit
    assert_eq!(gpio.a.pod, 1 << 4);
    let _pa8 = pa.pa8.into_push_pull_output_in_state(&mut gpio, PinState::High);
    let _pa9 = pa.pa9.into_open_drain_output_in_state(&mut gpio, PinState::Low);
    let _pa15 = pa.pa15.set_open_drain(&mut gpio);
    assert_eq!(gpio.a.ph_cfg, 0xF444_4473);
    assert_eq!(gpio.a.pod, (1 << 4) | (1 << 8));
    assert_eq!(gpio.b, reset_port());
}

#[test]
fn pull_down_clears_the_output_bit() {
    let mut rcc = blank_rcc();
    let mut gpio = reset_gpio();
    gpio.c.pod = 0xFFFF;
    let pc = Gpioc.split(&mut rcc);
    let _pc9 = pc.pc9.into_pull_down_input(&mut gpio);
    assert_eq!(gpio.c.pod, 0xFDFF);
    assert_eq!(gpio.c.ph_cfg, 0x4444_4484);
}

#[test]
fn push_pull_output_twice_is_push_pull_output_once() {
    let mut rcc = blank_rcc();
    let mut gpio = reset_gpio();
    gpio.b.pod = 0xFFFF;
    let pb = Gpiob.split(&mut rcc);
    let pb7 = pb.pb7.into_push_pull_output(&mut gpio);
    let once = gpio;
    let _pb7 = pb7.into_push_pull_output(&mut gpio);
    assert_eq!(gpio, once);
    assert_eq!(gpio.b.pl_cfg, 0x3444_4444);
    assert_eq!(gpio.b.pod, 0xFF7F);
}

#[test]
fn analog_and_back_to_floating_input() {
    let mut rcc = blank_rcc();
    let mut gpio = reset_gpio();
    let fresh = gpio;
    let pa = Gpioa.split(&mut rcc);
    let pa3 = pa.pa3.into_analog(&mut gpio);
    assert_eq!(gpio.a.pl_cfg, 0x4444_0444);
    let _pa3 = pa3.into_floating_input(&mut gpio);
    assert_eq!(gpio, fresh);
    // and from whatever the register held before
    gpio.a.pl_cfg = 0xFFFF_FFFF;
    let pa = Gpioa.split(&mut rcc);
    let _pa3 = pa.pa3.into_analog(&mut gpio).into_floating_input(&mut gpio);
    assert_eq!(gpio.a.pl_cfg, 0xFFFF_4FFF);
}

#[test]
fn scoped_mode_is_put_back() {
    let mut rcc = blank_rcc();
    let mut gpio = reset_gpio();
    let pa = Gpioa.split(&mut rcc);
    let mut pa5 = pa.pa5.into_push_pull_output(&mut gpio);
    let before = gpio;
    gpio.a.pid = 1 << 5;
    let seen = pa5.with_floating_input(&mut gpio, |pin, gpio| {
        assert_eq!(gpio.a.pl_cfg, 0x4444_4444);
        pin.is_high(gpio)
    });
    assert!(seen);
    assert_eq!(gpio.a.pl_cfg, before.a.pl_cfg);
    assert_eq!(gpio.a.pl_cfg, 0x4434_4444);
}

#[test]
fn nested_scoped_modes_are_put_back() {
    let mut rcc = blank_rcc();
    let mut gpio = reset_gpio();
    let pa = Gpioa.split(&mut rcc);
    let mut pa5 = pa.pa5.into_push_pull_output(&mut gpio);
    let before = gpio.a.pl_cfg;
    let r = pa5.with_analog(&mut gpio, |pin, gpio| {
        assert_eq!(gpio.a.read_pin_field(5), 0b0000);
        let inner = pin.with_open_drain_output(gpio, |pin, gpio| {
            assert_eq!(gpio.a.read_pin_field(5), 0b0111);
            pin.set_high(gpio);
            7
        });
        assert_eq!(gpio.a.read_pin_field(5), 0b0000);
        inner + 1
    });
    assert_eq!(r, 8);
    assert_eq!(gpio.a.pl_cfg, before);
    assert_eq!(gpio.a.pod, 1 << 5);
}

#[test]
fn every_scoped_mode() {
    let mut rcc = blank_rcc();
    let mut gpio = reset_gpio();
    let pc = Gpioc.split(&mut rcc);
    let mut pc12 = pc.pc12;
    let f = pc12.with_pull_up_input(&mut gpio, |_, gpio| (gpio.c.read_pin_field(12), gpio.c.pod));
    assert_eq!(f, (0b1000, 1 << 12));
    let f = pc12.with_pull_down_input(&mut gpio, |_, gpio| (gpio.c.read_pin_field(12), gpio.c.pod));
    assert_eq!(f, (0b1000, 0));
    let f = pc12.with_push_pull_output(&mut gpio, |_, gpio| gpio.c.read_pin_field(12));
    assert_eq!(f, 0b0011);
    let f = pc12.with_push_pull_output_in_state(&mut gpio, PinState::High, |pin, gpio| {
        (gpio.c.read_pin_field(12), pin.is_set_high(gpio))
    });
    assert_eq!(f, (0b0011, true));
    let f = pc12.with_open_drain_output_in_state(&mut gpio, PinState::Low, |pin, gpio| {
        (gpio.c.read_pin_field(12), pin.is_set_low(gpio))
    });
    assert_eq!(f, (0b0111, true));
    assert_eq!(gpio.c.ph_cfg, 0x4444_4444);
}

#[test]
fn output_level() {
    let mut rcc = blank_rcc();
    let mut gpio = reset_gpio();
    let pa = Gpioa.split(&mut rcc);
    let mut led = pa.pa5.into_push_pull_output(&mut gpio);
    assert!(led.is_set_low(&gpio));
    led.set_high(&mut gpio);
    assert!(led.is_set_high(&gpio));
    assert_eq!(led.get_state(&gpio), PinState::High);
    assert_eq!(gpio.a.pod, 0x20);
    led.toggle(&mut gpio);
    assert_eq!(led.get_state(&gpio), PinState::Low);
    assert_eq!(gpio.a.pod, 0);
    led.toggle(&mut gpio);
    assert_eq!(gpio.a.pod, 0x20);
    led.set_state(&mut gpio, PinState::Low);
    assert_eq!(gpio.a.pod, 0);
    led.set_state(&mut gpio, PinState::High);
    led.set_low(&mut gpio);
    assert_eq!(gpio.a.pod, 0);
}

#[test]
fn input_level() {
    let mut rcc = blank_rcc();
    let mut gpio = reset_gpio();
    let pa = Gpioa.split(&mut rcc);
    let button = pa.pa9;
    assert!(button.is_low(&gpio));
    gpio.a.pid = 1 << 9;
    assert!(button.is_high(&gpio));
    assert!(!ReadPin::is_low(&button, &gpio));
    assert!(ReadPin::is_high(&button, &gpio));
    gpio.a.pid = !(1 << 9);
    assert!(button.is_low(&gpio));
}

#[test]
fn speed_bits() {
    let mut rcc = blank_rcc();
    let mut gpio = Gpio { a: GpioPort { pl_cfg: 0, ph_cfg: 0, pid: 0, pod: 0 }, ..reset_gpio() };
    let pa = Gpioa.split(&mut rcc);
    let mut pa3 = pa.pa3.into_push_pull_output(&mut gpio);
    gpio.a.pl_cfg = 0;
    pa3.set_speed(&mut gpio, Speed::High);
    assert_eq!(gpio.a.pl_cfg, 0b11 << 6);
    pa3.set_speed(&mut gpio, Speed::Low);
    assert_eq!(gpio.a.pl_cfg, 0b01 << 6);
    let mut pa12 = pa.pa12.into_alternate(&mut gpio).speed(&mut gpio, Speed::Medium);
    assert_eq!(gpio.a.ph_cfg, 0x000B_0000 & !(0b11 << 24) | (0b10 << 24));
    PinSpeed::set_speed(&mut pa12, &mut gpio, Speed::High);
    assert_eq!(gpio.a.ph_cfg, 0x000B_0000 | (0b11 << 24));
    assert_eq!((Speed::Low.bits(), Speed::Medium.bits(), Speed::High.bits()), (1, 2, 3));
}

#[test]
fn erased_pins_keep_their_place() {
    let mut rcc = blank_rcc();
    let mut gpio = reset_gpio();
    let pc = Gpioc.split(&mut rcc);
    let erased = pc.pc13.erase();
    assert_eq!((erased.port_id(), erased.pin_id()), (2, 13));
    let erased = erased.into_mode::<Output<PushPull>>(&mut gpio);
    assert_eq!((erased.port_id(), erased.pin_id()), (2, 13));
    assert_eq!(gpio.c.ph_cfg, 0x4434_4444);
    let partially = pc.pc2.erase_number();
    assert_eq!((partially.port_id(), partially.pin_id()), (2, 2));
    let partially = partially.into_mode::<Input<PullUp>>(&mut gpio);
    assert_eq!((partially.port_id(), partially.pin_id()), (2, 2));
    assert_eq!(gpio.c.pl_cfg, 0x4444_4844);
    assert_eq!(gpio.c.pod, 1 << 2);
    assert_eq!(gpio.a, reset_port());
}

#[test]
fn dynamic_pin_starts_as_floating_input() {
    let mut rcc = blank_rcc();
    let mut gpio = reset_gpio();
    gpio.a.pl_cfg = 0;
    let pa = Gpioa.split(&mut rcc);
    let pin = pa.pa1.into_dynamic(&mut gpio);
    assert_eq!(pin.mode(), Dynamic::InputFloating);
    assert_eq!(gpio.a.pl_cfg, 0x0000_0040);
}

#[test]
fn port_registers_by_name() {
    let mut gpio = reset_gpio();
    gpiox::<PORT_C>(&mut gpio).pod = 3;
    port_of(&mut gpio, PORT_G).pod = 4;
    assert_eq!(gpio.c.pod, 3);
    assert_eq!(gpio.g.pod, 4);
    assert_eq!(read_port(&gpio, PORT_C).pod, 3);
    assert_eq!(read_port(&gpio, PORT_A), reset_port());
}

#[test]
fn register_writes() {
    let mut port = reset_port();
    port.write_pbsc(0x0000_8001);
    assert_eq!(port.pod, 0x8001);
    port.write_pbsc(0x8000_0002);
    assert_eq!(port.pod, 0x0003);
    port.write_pbc(0x0001_0001);
    assert_eq!(port.pod, 0x0002);
    port.write_pin_field(8, 0b10, 0b11);
    assert_eq!(port.ph_cfg, 0x4444_444B);
    port.write_pin_field(7, 0b11, 0b01);
    assert_eq!(port.pl_cfg, 0xD444_4444);
    set_mode::<Input<PullUp>>(&mut port, 15);
    assert_eq!(port.ph_cfg, 0x8444_444B);
    assert_eq!(port.pod, 0x8002);
}

#[test]
fn filler_pin() {
    let _none: NoPin = NoPin::new();
    let _open: NoPin<OpenDrain> = NoPin::new();
}

#[test]
fn one_write_brings_the_output_data_anywhere() {
    let cases: [(u32, u32, u32); 4] = [
        (0x0000, 0x0000, 0x0000_0000),
        (0x0000, 0x8001, 0x0000_8001),
        (0x8001, 0x0000, 0x8001_0000),
        (0x00F0, 0x0F00, 0x00F0_0F00),
    ];
    for (from, to, word) in cases {
        assert_eq!(pbsc_word(from, to), word);
        let mut port = GpioPort { pod: from, ..reset_port() };
        port.write_pbsc(word);
        assert_eq!(port.pod, to);
    }
}

#[test]
fn level_is_written_before_the_mode() {
    let mut rcc = blank_rcc();
    let mut gpio = reset_gpio();
    let before = gpio.a;
    let pa = Gpioa.split(&mut rcc);
    let _pa9 = pa.pa9.into_push_pull_output_in_state(&mut gpio, PinState::High);
    assert_eq!(
        writes_between(&before, &gpio.a),
        vec![PortWrite::BitSetClear(1 << 9), PortWrite::ConfigHigh(0x4444_4434)]
    );
    let before = gpio.a;
    let _pa1 = pa.pa1.into_pull_down_input(&mut gpio);
    assert_eq!(writes_between(&before, &gpio.a), vec![PortWrite::ConfigLow(0x4444_4484)]);
    assert_eq!(writes_between(&gpio.a, &gpio.a), vec![]);
    let target = GpioPort { pl_cfg: 1, ph_cfg: 2, pid: 7, pod: 0x00F0 };
    let start = GpioPort { pl_cfg: 0, ph_cfg: 0, pid: 9, pod: 0x0F00 };
    assert_eq!(
        writes_between(&start, &target),
        vec![
            PortWrite::BitSetClear(0x0F00_00F0),
            PortWrite::ConfigLow(1),
            PortWrite::ConfigHigh(2)
        ]
    );
}
