use n32g4xx_hal::bkp::BackupDomain;
use n32g4xx_hal::crc::Crc16State;
use n32g4xx_hal::crc::CrcEndianness;
use n32g4xx_hal::dma;
use n32g4xx_hal::fmc::FMCExt;
use n32g4xx_hal::fmc::Flash;
use n32g4xx_hal::fmc::FlashError;
use n32g4xx_hal::i2c;
use n32g4xx_hal::i2c::DutyCycle;
use n32g4xx_hal::i2c::Timing;
use n32g4xx_hal::i2c::NoAcknowledgeSource;
use n32g4xx_hal::pac::I2cBlock;
use n32g4xx_hal::pac::I2cSts1;
use n32g4xx_hal::pac::Rcc;
use n32g4xx_hal::pac::RccCfg;
use n32g4xx_hal::pac::RccCfg2;
use n32g4xx_hal::pac::RccCfg3;
use n32g4xx_hal::pac::RccCtrl;
use n32g4xx_hal::pac::Tim1;
use n32g4xx_hal::pac::Tim3;
use n32g4xx_hal::poll::Poll;
use n32g4xx_hal::pwm::actual_deadtime;
use n32g4xx_hal::pwm::calculate_deadtime;
use n32g4xx_hal::pwm::calculate_frequency_16bit;
use n32g4xx_hal::pwm::calculate_frequency_32bit;
use n32g4xx_hal::pwm::Alignment;
use n32g4xx_hal::pwm::CountSettings;
use n32g4xx_hal::pwm::Polarity;
use n32g4xx_hal::pwm::PwmBuilder;
use n32g4xx_hal::pwm::PwmSettings;
use n32g4xx_hal::rcc::Clocks;
use n32g4xx_hal::serial;
use n32g4xx_hal::serial::config::InvalidConfig;
use n32g4xx_hal::spi;
use n32g4xx_hal::spi::FrameSize;
use n32g4xx_hal::timer::countdown_registers;
use n32g4xx_hal::timer::is_countable;
use n32g4xx_hal::timer::MonoTimer;
use n32g4xx_hal::timer::Timer;
use n32g4xx_hal::timer::TriggerSource;

fn blank_rcc() -> Rcc {
    Rcc {
        ctrl: RccCtrl { hseen: false, hsebp: false, hserdf: false, pllen: false, pllrdf: false },
        cfg: RccCfg::reset_value(),
        cfg2: RccCfg2 { adc1msel: false, adc1mpres: 0, adchpres: 0, adcpllpres: 0 },
        cfg3: RccCfg3 { trng1msel: false, trng1mpres: 0 },
        ahbpclken: 0,
        apb1pclken: 0,
        apb2pclken: 0,
        ahbprst: 0,
        apb1prst: 0,
        apb2prst: 0,
    }
}

#[test]
fn baud_rate_register() {
    assert_eq!(serial::baud_divider(36_000_000, 115_200), Ok(0x138));
    assert_eq!(serial::baud_divider(72_000_000, 9_600), Ok(0x1D4C));
    assert_eq!(serial::baud_divider(16_000_000, 1_000_000), Ok(0x10));
    // the fraction rounds up to a whole: 115.97 becomes 116
    assert_eq!(serial::baud_divider(36_000_000, 19_400), Ok(116 << 4));
}

#[test]
fn baud_rate_above_a_sixteenth_of_the_clock_is_refused() {
    assert_eq!(serial::baud_divider(16_000_000, 1_000_001), Err(InvalidConfig));
    assert_eq!(serial::baud_divider(0, 1), Err(InvalidConfig));
    assert_eq!(serial::baud_divider(15, 1), Err(InvalidConfig));
    assert_eq!(serial::baud_divider(16, 1), Ok(0x10));
}

#[test]
fn serial_event_and_flag_bits() {
    assert_eq!(serial::Event::Idle.bits(), 1 << 4);
    assert_eq!(serial::Event::RxNotEmpty.bits(), 1 << 5);
    assert_eq!(serial::Event::TransmissionComplete.bits(), 1 << 6);
    assert_eq!(serial::Event::TxEmpty.bits(), 1 << 7);
    assert_eq!(serial::Event::ParityError.bits(), 1 << 8);
    assert_eq!(serial::Flag::ParityError.bits(), 1 << 0);
    assert_eq!(serial::Flag::FramingError.bits(), 1 << 1);
    assert_eq!(serial::Flag::Noise.bits(), 1 << 2);
    assert_eq!(serial::Flag::Overrun.bits(), 1 << 3);
    assert_eq!(serial::Flag::Idle.bits(), 1 << 4);
    assert_eq!(serial::Flag::RxNotEmpty.bits(), 1 << 5);
    assert_eq!(serial::Flag::TransmissionComplete.bits(), 1 << 6);
    assert_eq!(serial::Flag::TxEmpty.bits(), 1 << 7);
    assert_eq!(serial::Flag::LinBreak.bits(), 1 << 8);
    assert_eq!(serial::Flag::Cts.bits(), 1 << 9);
    assert_eq!(serial::CFlag::RxNotEmpty.bits(), 1 << 5);
    assert_eq!(serial::CFlag::TransmissionComplete.bits(), 1 << 6);
    assert_eq!(serial::CFlag::LinBreak.bits(), 1 << 8);
}

#[test]
fn spi_prescaler() {
    let cases: [(u32, u8); 16] = [
        (1, 0),
        (2, 0),
        (3, 1),
        (5, 1),
        (6, 2),
        (11, 2),
        (12, 3),
        (23, 3),
        (24, 4),
        (47, 4),
        (48, 5),
        (95, 5),
        (96, 6),
        (191, 6),
        (192, 7),
        (10_000, 7),
    ];
    for (ratio, bits) in cases {
        assert_eq!(spi::baud_rate_bits(ratio * 1000, 1000), bits);
    }
    assert_eq!(spi::baud_rate_bits(72_000_000, 18_000_000), 1);
    assert_eq!(spi::baud_rate_bits(72_000_000, 1_000_000), 5);
}

#[test]
fn spi_bits() {
    assert_eq!(spi::Event::Error.bits(), 1 << 5);
    assert_eq!(spi::Event::RxNotEmpty.bits(), 1 << 6);
    assert_eq!(spi::Event::TxEmpty.bits(), 1 << 7);
    assert_eq!(spi::Flag::RxNotEmpty.bits(), 1 << 0);
    assert_eq!(spi::Flag::TxEmpty.bits(), 1 << 1);
    assert_eq!(spi::Flag::CrcError.bits(), 1 << 4);
    assert_eq!(spi::Flag::ModeFault.bits(), 1 << 5);
    assert_eq!(spi::Flag::Overrun.bits(), 1 << 6);
    assert_eq!(spi::Flag::Busy.bits(), 1 << 7);
    assert_eq!(spi::Flag::FrameError.bits(), 1 << 8);
    assert_eq!(spi::CFlag::CrcError.bits(), 1 << 4);
    assert!(!<u8 as FrameSize>::DFF);
    assert!(<u16 as FrameSize>::DFF);
}

#[test]
fn i2c_modes() {
    assert_eq!(i2c::Mode::standard(100_000), i2c::Mode::Standard { frequency: 100_000 });
    assert_eq!(
        i2c::Mode::fast(400_000, DutyCycle::Ratio16to9),
        i2c::Mode::Fast { frequency: 400_000, duty_cycle: DutyCycle::Ratio16to9 }
    );
    assert_eq!(i2c::Mode::from(100_000), i2c::Mode::Standard { frequency: 100_000 });
    assert_eq!(
        i2c::Mode::from(100_001),
        i2c::Mode::Fast { frequency: 100_001, duty_cycle: DutyCycle::Ratio2to1 }
    );
    assert_eq!(i2c::Mode::from(400_000).get_frequency(), 400_000);
    assert_eq!(i2c::Mode::standard(50_000).get_frequency(), 50_000);
}

#[test]
fn i2c_timing_registers() {
    assert_eq!(
        i2c::timing(i2c::Mode::standard(100_000), 36_000_000),
        Timing { clkfreq: 36, tmrise: 37, fsmode: false, duty: false, clkctrl: 180 }
    );
    assert_eq!(
        i2c::timing(i2c::Mode::fast(400_000, DutyCycle::Ratio2to1), 36_000_000),
        Timing { clkfreq: 36, tmrise: 11, fsmode: true, duty: false, clkctrl: 30 }
    );
    assert_eq!(
        i2c::timing(i2c::Mode::fast(400_000, DutyCycle::Ratio16to9), 36_000_000),
        Timing { clkfreq: 36, tmrise: 11, fsmode: true, duty: true, clkctrl: 3 }
    );
    // the clock control field has a least value
    assert_eq!(i2c::timing(i2c::Mode::standard(1_000_000), 2_000_000).clkctrl, 4);
    assert_eq!(i2c::timing(i2c::Mode::fast(1_000_000, DutyCycle::Ratio2to1), 2_000_000).clkctrl, 1);
    assert_eq!(
        i2c::timing(i2c::Mode::fast(1_000_000, DutyCycle::Ratio16to9), 50_999_999),
        Timing { clkfreq: 50, tmrise: 16, fsmode: true, duty: true, clkctrl: 2 }
    );
}

#[test]
fn i2c_timing_exists_for_supported_clocks() {
    let standard = i2c::Mode::standard(100_000);
    assert!(i2c::has_timing(standard, 36_000_000));
    assert!(i2c::has_timing(standard, 2_000_000));
    assert!(i2c::has_timing(standard, 50_999_999));
    // the clock of the bus is out of range
    assert!(!i2c::has_timing(standard, 1_999_999));
    assert!(!i2c::has_timing(standard, 51_000_000));
    // a bus frequency of zero
    assert!(!i2c::has_timing(i2c::Mode::standard(0), 36_000_000));
    assert!(!i2c::has_timing(i2c::Mode::fast(0, DutyCycle::Ratio2to1), 36_000_000));
    // the bus frequency times the phase units has to fit in 32 bits
    assert!(i2c::has_timing(i2c::Mode::standard(u32::MAX / 2), 36_000_000));
    assert!(!i2c::has_timing(i2c::Mode::standard(u32::MAX / 2 + 1), 36_000_000));
    assert!(i2c::has_timing(i2c::Mode::fast(u32::MAX / 3, DutyCycle::Ratio2to1), 36_000_000));
    assert!(!i2c::has_timing(i2c::Mode::fast(u32::MAX / 3 + 1, DutyCycle::Ratio2to1), 36_000_000));
    assert!(i2c::has_timing(i2c::Mode::fast(u32::MAX / 25, DutyCycle::Ratio16to9), 36_000_000));
    assert!(!i2c::has_timing(
        i2c::Mode::fast(u32::MAX / 25 + 1, DutyCycle::Ratio16to9),
        36_000_000
    ));
}

#[test]
fn timer_prescaler_and_reload() {
    assert_eq!(countdown_registers(1), (0, 1));
    assert_eq!(countdown_registers(1000), (0, 1000));
    assert_eq!(countdown_registers(65_535), (0, 65_535));
    assert_eq!(countdown_registers(65_537), (1, 32_768));
    assert_eq!(countdown_registers(72_000_000), (1098, 65_514));
    assert!(is_countable(1));
    assert!(is_countable(65_537));
    assert!(!is_countable(0));
    // the reload value would be 65536
    assert!(!is_countable(65_536));
    assert!(!is_countable(131_072));
    // the prescaler would be 65535, and the prescaler plus one too wide
    assert!(!is_countable(u32::MAX));
    assert!(is_countable(65_535 * 65_536 - 1));
}

#[test]
fn timer_takes_its_clock_from_the_bus() {
    let clocks =
        Clocks { hclk: 144_000_000, pclk1: 36_000_000, pclk2: 72_000_000, sysclk: 144_000_000 };
    let mut rcc = blank_rcc();
    let timer = Timer::new(Tim3, &clocks, &mut rcc);
    assert_eq!(timer.clk, 36_000_000);
    assert_eq!(rcc.apb1pclken, 1 << 1);
    let timer = Timer::new(Tim1, &clocks, &mut rcc);
    assert_eq!(timer.clk, 144_000_000);
    assert_eq!(rcc.apb2pclken, 1 << 11);
    let mono = MonoTimer::new(&clocks);
    assert_eq!(mono.frequency(), 144_000_000);
    let start = mono.now(0xFFFF_FFF0);
    assert_eq!(start.elapsed(0xFFFF_FFF5), 5);
    assert_eq!(start.elapsed(0x10), 0x20);
    assert_eq!(TriggerSource::Reset.bits(), 0);
    assert_eq!(TriggerSource::ComparePulse.bits(), 0b011);
    assert_eq!(TriggerSource::Compare4.bits(), 0b111);
}

#[test]
fn pwm_period_and_prescaler() {
    assert_eq!(calculate_frequency_32bit(72_000_000, 1000, Alignment::Left), (71_999, 0));
    assert_eq!(calculate_frequency_32bit(72_000_000, 1000, Alignment::Right), (71_999, 0));
    assert_eq!(calculate_frequency_32bit(72_000_000, 1000, Alignment::Center), (35_999, 0));
    // rounded to the nearest: 72 MHz / 7 Hz = 10285714.28..
    assert_eq!(calculate_frequency_32bit(72_000_000, 7, Alignment::Left), (10_285_713, 0));
    assert_eq!(calculate_frequency_16bit(72_000_000, 1000, Alignment::Left), (35_999, 1));
    assert_eq!(calculate_frequency_16bit(72_000_000, 10, Alignment::Left), (65_454, 109));
    assert_eq!(calculate_frequency_16bit(72_000_000, 1000, Alignment::Center), (35_999, 0));
    assert_eq!(calculate_frequency_16bit(144_000_000, 1, Alignment::Left), (65_513, 2197));
    assert_eq!(calculate_frequency_16bit(65_536, 1, Alignment::Left), (65_535, 0));
    assert_eq!(calculate_frequency_16bit(65_537, 1, Alignment::Left), (32_767, 1));
}

#[test]
fn pwm_dead_time() {
    assert_eq!(calculate_deadtime(72_000_000, 1000), (72, 1));
    assert_eq!(calculate_deadtime(72_000_000, 0), (0, 1));
    assert_eq!(calculate_deadtime(144_000_000, 2000), (196, 1));
    assert_eq!(calculate_deadtime(144_000_000, 10_000), (237, 2));
    assert_eq!(calculate_deadtime(144_000_000, 28_000), (255, 4));
    assert_eq!(calculate_deadtime(100_000_000, 40_320), (255, 4));
    assert_eq!(actual_deadtime(0), 0);
    assert_eq!(actual_deadtime(127), 127);
    assert_eq!(actual_deadtime(128), 128);
    assert_eq!(actual_deadtime(191), 254);
    assert_eq!(actual_deadtime(192), 256);
    assert_eq!(actual_deadtime(223), 504);
    assert_eq!(actual_deadtime(224), 512);
    assert_eq!(actual_deadtime(255), 1008);
}

#[test]
fn pwm_builder() {
    let builder: PwmBuilder<Tim1, (), (), (), ()> = PwmBuilder::new(72_000_000, 1000);
    assert_eq!(
        builder.settings(),
        PwmSettings {
            alignment: Alignment::Left,
            base_freq: 72_000_000,
            count: CountSettings::Frequency(1000),
            bkin_enabled: false,
            fault_polarity: Polarity::ActiveLow,
            deadtime: 0,
        }
    );
    assert_eq!(builder.count_registers(), (35_999, 1));
    let builder = builder.center_aligned();
    assert_eq!(builder.count_registers(), (35_999, 0));
    let builder = builder.right_aligned().with_deadtime(1000);
    assert_eq!(builder.settings().alignment, Alignment::Right);
    assert_eq!(builder.deadtime_registers(), (72, 1));
    let builder = builder.prescaler(7);
    assert_eq!(
        builder.settings().count,
        CountSettings::Explicit { period: 65_535, prescaler: 7 }
    );
    assert_eq!(builder.count_registers(), (65_535, 7));
    let builder = builder.period(999).left_aligned();
    assert_eq!(builder.settings().count, CountSettings::Explicit { period: 999, prescaler: 7 });
    assert_eq!(builder.settings().alignment, Alignment::Left);
    let builder = builder.frequency(50).period(10);
    assert_eq!(builder.settings().count, CountSettings::Explicit { period: 10, prescaler: 0 });
    let builder = builder.frequency(50);
    assert_eq!(builder.settings().count, CountSettings::Frequency(50));
}

#[test]
fn crc_state() {
    assert_eq!(
        Crc16State::new(CrcEndianness::StartFromMsb),
        Crc16State { value: 0, endianness: CrcEndianness::StartFromMsb }
    );
    assert_eq!(Crc16State::new_le().endianness, CrcEndianness::StartFromLsb);
    assert_eq!(Crc16State::new_be().endianness, CrcEndianness::StartFromMsb);
    assert_eq!(Crc16State::new_le().value, 0);
}

#[test]
fn backup_registers() {
    let mut bkp = BackupDomain { datl: [0; 10], dath: [0; 32] };
    bkp.write_data_register_low(0, 1);
    bkp.write_data_register_low(9, 2);
    bkp.write_data_register_low(10, 3);
    bkp.write_data_register_low(41, 4);
    assert_eq!(bkp.datl[0], 1);
    assert_eq!(bkp.datl[9], 2);
    assert_eq!(bkp.dath[0], 3);
    assert_eq!(bkp.dath[31], 4);
    assert_eq!(bkp.read_data_register(0), 1);
    assert_eq!(bkp.read_data_register(9), 2);
    assert_eq!(bkp.read_data_register(10), 3);
    assert_eq!(bkp.read_data_register(41), 4);
    assert_eq!(bkp.read_data_register(20), 0);
}

#[test]
fn flash_bounds() {
    let controller = n32g4xx_hal::pac::Flash {
        ac: n32g4xx_hal::pac::FlashAc { latency: 0, prftbfe: false, icahen: false },
    };
    let _flash: Flash = controller.constrain();
    let capacity = 0x4_0000;
    assert_eq!(Flash::max_addr(capacity), 0x0803_FFFF);
    assert_eq!(Flash::check_read(0, 0x4_0000, capacity), Ok(()));
    assert_eq!(Flash::check_read(0x3_FFFF, 1, capacity), Ok(()));
    assert_eq!(Flash::check_read(0x3_FFFF, 2, capacity), Err(FlashError::OutOfBounds));
    assert_eq!(Flash::check_read(0x4_0000, 0, capacity), Err(FlashError::OutOfBounds));
    assert_eq!(Flash::check_write(0, 4, capacity), Ok(()));
    assert_eq!(Flash::check_write(0x3_FFFC, 4, capacity), Ok(()));
    assert_eq!(Flash::check_write(0x3_FFFC, 8, capacity), Err(FlashError::OutOfBounds));
    assert_eq!(Flash::check_write(2, 4, capacity), Err(FlashError::NotAligned));
    assert_eq!(Flash::check_write(0, 3, capacity), Err(FlashError::NotAligned));
    // the alignment is looked at first
    assert_eq!(Flash::check_write(0x4_0001, 4, capacity), Err(FlashError::NotAligned));
}

#[test]
fn flash_erasure() {
    let capacity = 0x4_0000;
    // the bounds are those of addresses, the pages are counted from zero
    assert_eq!(Flash::check_erase(0x0800_0000, 0x0800_1000, capacity), Ok((0x1_0000, 0x1_0002)));
    assert_eq!(Flash::check_erase(0, 2048, capacity), Ok((0, 1)));
    assert_eq!(Flash::check_erase(0, 0x0804_0000, capacity), Ok((0, 0x1_0080)));
    assert_eq!(Flash::check_erase(0, 0x0804_0001, capacity), Err(FlashError::OutOfBounds));
    assert_eq!(Flash::check_erase(0x0803_FFFF, 0, capacity), Err(FlashError::OutOfBounds));
    assert_eq!(Flash::check_erase(1, 2048, capacity), Err(FlashError::NotAligned));
    assert_eq!(Flash::check_erase(0, 2047, capacity), Err(FlashError::NotAligned));
    // the bounds are looked at first
    assert_eq!(Flash::check_erase(0x0804_0001, 2048, capacity), Err(FlashError::OutOfBounds));
}

#[test]
fn i2c_set_up() {
    let mut registers =
        I2cBlock { en: false, clkfreq: 0, tmrise: 0, fsmode: true, duty: true, clkctrl: 0 };
    i2c::init(&mut registers, i2c::Mode::standard(100_000), 36_000_000);
    assert_eq!(
        registers,
        I2cBlock { en: true, clkfreq: 36, tmrise: 37, fsmode: false, duty: false, clkctrl: 180 }
    );
    i2c::init(&mut registers, i2c::Mode::fast(400_000, DutyCycle::Ratio16to9), 36_000_000);
    assert_eq!(
        registers,
        I2cBlock { en: true, clkfreq: 36, tmrise: 11, fsmode: true, duty: true, clkctrl: 3 }
    );
}

#[test]
fn transfer_in_progress() {
    let buffer = [1u8, 2, 3, 4, 5];
    assert_eq!(dma::peek(&buffer, 5), &[] as &[u8]);
    assert_eq!(dma::peek(&buffer, 2), &[1, 2, 3]);
    assert_eq!(dma::peek(&buffer, 0), &[1, 2, 3, 4, 5]);
    assert_eq!(dma::Event::HalfTransfer, dma::Event::HalfTransfer);
    assert!(dma::Half::First != dma::Half::Second);
}

#[test]
fn i2c_error_flags_in_order() {
    let all = I2cSts1 {
        timout: true,
        pecerr: true,
        overrun: true,
        ackfail: true,
        arlost: true,
        buserr: true,
    };
    let mut flags = all;
    assert_eq!(i2c::check_and_clear_error_flags(&mut flags), Err(i2c::Error::Timeout));
    assert_eq!(flags, I2cSts1 { timout: false, ..all });
    assert_eq!(i2c::check_and_clear_error_flags(&mut flags), Err(i2c::Error::Crc));
    assert_eq!(i2c::check_and_clear_error_flags(&mut flags), Err(i2c::Error::Overrun));
    assert_eq!(
        i2c::check_and_clear_error_flags(&mut flags),
        Err(i2c::Error::NoAcknowledge(NoAcknowledgeSource::Unknown))
    );
    assert_eq!(i2c::check_and_clear_error_flags(&mut flags), Err(i2c::Error::ArbitrationLoss));
    let only_bus = I2cSts1 {
        timout: false,
        pecerr: false,
        overrun: false,
        ackfail: false,
        arlost: false,
        buserr: true,
    };
    assert_eq!(flags, only_bus);
    // a bus error is cleared and not reported
    assert_eq!(i2c::check_and_clear_error_flags(&mut flags), Ok(only_bus));
    assert_eq!(flags, I2cSts1 { buserr: false, ..only_bus });
    assert_eq!(i2c::check_and_clear_error_flags(&mut flags), Ok(flags));
}

#[test]
fn i2c_acknowledge_failures_get_their_place() {
    let unknown = i2c::Error::NoAcknowledge(NoAcknowledgeSource::Unknown);
    assert_eq!(unknown.nack_addr(), i2c::Error::NoAcknowledge(NoAcknowledgeSource::Address));
    assert_eq!(unknown.nack_data(), i2c::Error::NoAcknowledge(NoAcknowledgeSource::Data));
    let data = i2c::Error::NoAcknowledge(NoAcknowledgeSource::Data);
    assert_eq!(data.nack_addr(), data);
    assert_eq!(i2c::Error::Timeout.nack_addr(), i2c::Error::Timeout);
    assert_eq!(i2c::Error::Bus.nack_data(), i2c::Error::Bus);
}

#[test]
fn serial_reception_by_status() {
    assert_eq!(serial::check_read(0), (Poll::WouldBlock, false));
    assert_eq!(serial::check_read(1 << 5), (Poll::Ready, false));
    assert_eq!(serial::check_read(0xFFFF), (Poll::Failed(serial::Error::Parity), true));
    assert_eq!(serial::check_read(0b1110 | (1 << 5)), (Poll::Failed(serial::Error::FrameFormat), true));
    assert_eq!(serial::check_read(0b1100), (Poll::Failed(serial::Error::Noise), true));
    assert_eq!(serial::check_read(0b1000 | (1 << 5)), (Poll::Failed(serial::Error::Overrun), true));
    // flags that do not matter to a reception
    assert_eq!(serial::check_read((1 << 4) | (1 << 6) | (1 << 7)), (Poll::WouldBlock, false));
}

#[test]
fn serial_transmission_by_status() {
    assert_eq!(serial::check_write(1 << 7), Poll::Ready);
    assert_eq!(serial::check_write(!(1 << 7)), Poll::WouldBlock);
    assert_eq!(serial::check_flush(1 << 6), Poll::Ready);
    assert_eq!(serial::check_flush(1 << 7), Poll::WouldBlock);
    assert!(serial::is_flagged(1 << 9, serial::Flag::Cts));
    assert!(!serial::is_flagged(1 << 8, serial::Flag::Cts));
    assert_eq!(serial::clear_flags_word(serial::CFlag::RxNotEmpty.bits()), 0xFFDF);
    assert_eq!(
        serial::clear_flags_word(
            serial::CFlag::TransmissionComplete.bits() | serial::CFlag::LinBreak.bits()
        ),
        0xFEBF
    );
    assert_eq!(serial::listen_event(0b1010, None, None), 0b1010);
    assert_eq!(serial::listen_event(0b1010, None, Some(serial::Event::Idle.bits())), 0b1_1010);
    assert_eq!(serial::listen_event(0b1010, Some(0b1000), None), 0b0010);
    // switched off first, then on
    assert_eq!(serial::listen_event(0b1010, Some(0b1110), Some(0b0100)), 0b0100);
}

#[test]
fn spi_frames_by_status() {
    assert_eq!(spi::check_read(0), Poll::WouldBlock);
    assert_eq!(spi::check_read(1), Poll::Ready);
    assert_eq!(spi::check_read(0xFF), Poll::Failed(spi::Error::Overrun));
    assert_eq!(spi::check_read(0x31), Poll::Failed(spi::Error::ModeFault));
    assert_eq!(spi::check_read(0x11), Poll::Failed(spi::Error::Crc));
    assert_eq!(spi::check_read(0x82), Poll::WouldBlock);
    assert_eq!(spi::check_send(0), (Poll::WouldBlock, spi::Clearing::Nothing));
    assert_eq!(spi::check_send(2), (Poll::Ready, spi::Clearing::Nothing));
    assert_eq!(spi::check_send(0x72), (Poll::Failed(spi::Error::Overrun), spi::Clearing::ReadData));
    assert_eq!(spi::check_send(0x32), (Poll::Failed(spi::Error::ModeFault), spi::Clearing::WriteCtrl1));
    assert_eq!(spi::check_send(0x12), (Poll::Failed(spi::Error::Crc), spi::Clearing::ClearCrcError));
    assert_eq!(spi::check_send(0x81), (Poll::WouldBlock, spi::Clearing::Nothing));
    assert!(spi::is_flagged(0x80, spi::Flag::Busy));
    assert_eq!(spi::listen_event(0x04, Some(0x20), Some(spi::Event::TxEmpty.bits())), 0x84);
    assert_eq!(spi::listen_event(0xE4, Some(0xE0), Some(0x40)), 0x44);
    assert_eq!(spi::listen_event(0xE4, None, None), 0xE4);
}
