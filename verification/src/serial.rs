//! Serial ports: the baud rate divider and the names of events and flags.

use vstd::prelude::*;
use vstd::arithmetic::div_mod::lemma_fundamental_div_mod;
use core::marker::PhantomData;
use config::Config;
use config::DmaConfig;
use config::InvalidConfig;
use config::Parity;
use config::StopBits;
use config::WordLength;
use crate::gpio::alt::altmap::Remap;
use crate::gpio::alt::altmap::RemapIO;
use crate::gpio::alt::IntoSignal;
use crate::gpio::alt::SerialAsync;
use crate::gpio::Floating;
use crate::gpio::PushPull;
use crate::pac::Afio;
use crate::pac::Gpio;
use crate::pac::Rcc;
use crate::pac::UsartBlock;
use crate::pac::UsartCtrl1;
use crate::pac::UsartCtrl2;
use crate::pac::UsartCtrl3;
use crate::poll::Poll;
use crate::rcc::after_enable;
use crate::rcc::after_reset;
use crate::rcc::BusClock;
use crate::rcc::Clocks;
use crate::rcc::Enable;
use crate::rcc::Reset;
use crate::sealed::Sealed;

pub mod config;

verus! {

/// Serial error
#[derive(Debug, Copy, Clone, Eq, PartialEq, Structural, Ord, PartialOrd, Hash)]
#[non_exhaustive]
pub enum Error {
    /// RX buffer overrun
    Overrun,
    /// Framing error
    FrameFormat,
    /// Parity check error
    Parity,
    /// Noise error
    Noise,
    /// Something else happened
    Other,
}

/// UART interrupt event
#[derive(Debug, Eq, PartialEq, Structural, Copy, Clone)]
pub enum Event {
    /// IDLE interrupt enable
    Idle,
    /// RXNE interrupt enable
    RxNotEmpty,
    /// Transmission complete interrupt enable
    TransmissionComplete,
    /// TXE interrupt enable
    TxEmpty,
    /// PE interrupt enable
    ParityError,
}

impl Event {
    /// The event's bit in the control register.
    pub open spec fn spec_bits(self) -> u32 {
        match self {
            Event::Idle => 0x010,
            Event::RxNotEmpty => 0x020,
            Event::TransmissionComplete => 0x040,
            Event::TxEmpty => 0x080,
            Event::ParityError => 0x100,
        }
    }

    /// The event's bit in the control register.
    #[verifier::when_used_as_spec(spec_bits)]
    pub fn bits(self) -> (bits: u32)
        ensures
            bits == self.spec_bits(),
    {
        match self {
            Event::Idle => 0x010,
            Event::RxNotEmpty => 0x020,
            Event::TransmissionComplete => 0x040,
            Event::TxEmpty => 0x080,
            Event::ParityError => 0x100,
        }
    }
}

/// UART/USART status flag
#[derive(Debug, Eq, PartialEq, Structural, Copy, Clone)]
pub enum Flag {
    /// Parity error
    ParityError,
    /// Framing error
    FramingError,
    /// Noise detected flag
    Noise,
    /// Overrun error
    Overrun,
    /// IDLE line detected
    Idle,
    /// Read data register not empty
    RxNotEmpty,
    /// Transmission complete
    TransmissionComplete,
    /// Transmit data register empty
    TxEmpty,
    /// LIN break detection flag
    LinBreak,
    /// CTS flag
    Cts,
}

impl Flag {
    /// The flag's bit in the status register.
    pub open spec fn spec_bits(self) -> u32 {
        match self {
            Flag::ParityError => 0x001,
            Flag::FramingError => 0x002,
            Flag::Noise => 0x004,
            Flag::Overrun => 0x008,
            Flag::Idle => 0x010,
            Flag::RxNotEmpty => 0x020,
            Flag::TransmissionComplete => 0x040,
            Flag::TxEmpty => 0x080,
            Flag::LinBreak => 0x100,
            Flag::Cts => 0x200,
        }
    }

    /// The flag's bit in the status register.
    #[verifier::when_used_as_spec(spec_bits)]
    pub fn bits(self) -> (bits: u32)
        ensures
            bits == self.spec_bits(),
    {
        match self {
            Flag::ParityError => 0x001,
            Flag::FramingError => 0x002,
            Flag::Noise => 0x004,
            Flag::Overrun => 0x008,
            Flag::Idle => 0x010,
            Flag::RxNotEmpty => 0x020,
            Flag::TransmissionComplete => 0x040,
            Flag::TxEmpty => 0x080,
            Flag::LinBreak => 0x100,
            Flag::Cts => 0x200,
        }
    }
}

/// UART clearable flags
#[derive(Debug, Eq, PartialEq, Structural, Copy, Clone)]
pub enum CFlag {
    /// Read data register not empty
    RxNotEmpty,
    /// Transmission complete
    TransmissionComplete,
    /// LIN break detection flag
    LinBreak,
}

impl CFlag {
    /// The flag's bit in the status register.
    pub open spec fn spec_bits(self) -> u32 {
        match self {
            CFlag::RxNotEmpty => 0x020,
            CFlag::TransmissionComplete => 0x040,
            CFlag::LinBreak => 0x100,
        }
    }

    /// The flag's bit in the status register.
    #[verifier::when_used_as_spec(spec_bits)]
    pub fn bits(self) -> (bits: u32)
        ensures
            bits == self.spec_bits(),
    {
        match self {
            CFlag::RxNotEmpty => 0x020,
            CFlag::TransmissionComplete => 0x040,
            CFlag::LinBreak => 0x100,
        }
    }
}

/// A hundred times the ratio of the port's clock to sixteen times the baud
/// rate, rounded down.
pub open spec fn hundredths(pclk_freq: int, baud: int) -> int {
    (25 * pclk_freq) / (4 * baud)
}

/// The baud rate register for a clock and a baud rate: the ratio of the
/// clock to sixteen times the baud rate as a fixed-point number with four
/// fraction bits, the hundredths rounded to the nearest sixteenth.
pub open spec fn divider(pclk_freq: int, baud: int) -> int {
    16 * (hundredths(pclk_freq, baud) / 100) + ((hundredths(pclk_freq, baud) % 100) * 16 + 50)
        / 100
}

/// Whether a port's clock can serve a baud rate: it has to be at least
/// sixteen times the baud rate.
pub open spec fn serves(pclk_freq: int, baud: int) -> bool {
    pclk_freq / 16 >= baud
}

/// Computes the baud rate register for a port's clock and a baud rate.
///
/// The baud rate is refused where the clock is less than sixteen times as
/// fast.
pub fn baud_divider(pclk_freq: u32, baud: u32) -> (div: Result<u32, InvalidConfig>)
    requires
        baud >= 1,
        25 * pclk_freq <= u32::MAX,
    ensures
        div is Ok <==> serves(pclk_freq as int, baud as int),
        div matches Ok(register) ==> register == divider(pclk_freq as int, baud as int),
{
    if (pclk_freq / 16) >= baud {
        let integerdivider: u32 = (25 * pclk_freq) / (4 * baud);
        let mantissa: u32 = integerdivider / 100;
        let mut tmpregister: u32 = mantissa * 16;
        let fractionaldivider: u32 = (((integerdivider - (100 * mantissa)) * 16) + 50) / 100;
        assert(integerdivider - 100 * mantissa == integerdivider % 100) by {
            lemma_fundamental_div_mod(integerdivider as int, 100);
        }
        assert(fractionaldivider <= 16);
        if fractionaldivider == 16 {
            tmpregister = (mantissa + 1) * 16;
        }
        // Implement the fractional part in the register

        tmpregister = tmpregister + fractionaldivider % 16;
        Ok(tmpregister)
    } else {
        Err(InvalidConfig)
    }
}

/// Implemented by all USART/UART instances
pub trait Instance: Sealed + Enable + Reset + BusClock + SerialAsync<Floating, PushPull> {

}

impl Instance for crate::pac::Usart1 {

}

impl Instance for crate::pac::Usart2 {

}

impl Instance for crate::pac::Usart3 {

}

impl Instance for crate::pac::Uart4 {

}

impl Instance for crate::pac::Uart5 {

}

impl Instance for crate::pac::Uart6 {

}

impl Instance for crate::pac::Uart7 {

}

/// Serial abstraction
pub struct Serial<USART: Instance, WORD = u8> {
    pub tx: Tx<USART, WORD>,
    pub rx: Rx<USART, WORD>,
}

/// Serial receiver containing RX pin
pub struct Rx<USART: Instance, WORD = u8> {
    pub _word: PhantomData<(USART, WORD)>,
    pub pin: USART::Rx,
}

/// Serial transmitter containing TX pin
pub struct Tx<USART: Instance, WORD = u8> {
    pub _word: PhantomData<WORD>,
    pub usart: USART,
    pub pin: USART::Tx,
}

/// The registers of a serial port after it was set up with a configuration
/// and a baud rate register: the second and third control register start
/// from their reset values, the first keeps what the layer does not set.
pub open spec fn configured(registers: UsartBlock, config: Config, div: u32) -> UsartBlock {
    UsartBlock {
        ctrl1: UsartCtrl1 {
            wl: config.wordlength == WordLength::DataBits9,
            pcen: config.parity != Parity::ParityNone,
            psel: config.parity == Parity::ParityOdd,
            txen: true,
            rxen: true,
            uen: true,
        },
        ctrl2: UsartCtrl2 { stpb: config.stopbits.spec_bits() },
        ctrl3: UsartCtrl3 {
            dmatxen: config.dma == DmaConfig::Tx || config.dma == DmaConfig::TxRx,
            dmarxen: config.dma == DmaConfig::Rx || config.dma == DmaConfig::TxRx,
        },
        brcf: div,
    }
}

impl<USART: Instance, WORD> Serial<USART, WORD> {
    /// Enables the port's clock, resets the port and sets it up.
    ///
    /// A baud rate that the port's clock cannot serve is refused; the
    /// port's registers are then left as they were.
    pub fn new(
        usart: USART,
        pins: (USART::Tx, USART::Rx),
        config: Config,
        clocks: &Clocks,
        rcc: &mut Rcc,
        registers: &mut UsartBlock,
    ) -> (serial: Result<Self, InvalidConfig>)
        requires
            config.baudrate >= 1,
            25 * USART::spec_clock(*clocks) <= u32::MAX,
        ensures
            *final(rcc) == after_reset::<USART>(after_enable::<USART>(*old(rcc))),
            serial is Ok <==> serves(USART::spec_clock(*clocks) as int, config.baudrate as int),
            serial is Ok ==> *final(registers) == configured(
                *old(registers),
                config,
                divider(USART::spec_clock(*clocks) as int, config.baudrate as int) as u32,
            ),
            serial is Err ==> *final(registers) == *old(registers),
            serial matches Ok(s) ==> s.tx.usart == usart && s.tx.pin == pins.0 && s.rx.pin
                == pins.1,
    {
        // Enable clock.
        USART::enable(rcc);
        USART::reset(rcc);

        let pclk_freq: u32 = USART::clock(clocks);
        let div: u32 = match baud_divider(pclk_freq, config.baudrate) {
            Ok(div) => div,
            Err(e) => {
                return Err(e);
            },
        };

        // Reset other registers to disable advanced USART features
        registers.ctrl2 = UsartCtrl2 { stpb: 0 };
        registers.ctrl3 = UsartCtrl3 { dmarxen: false, dmatxen: false };

        // Enable transmission and receiving
        // and configure frame
        let serial = Serial { tx: Tx::new(usart, pins.0), rx: Rx::new(pins.1) };
        registers.ctrl2 = UsartCtrl2 { stpb: config.stopbits.bits() };
        registers.ctrl1.wl = config.wordlength == WordLength::DataBits9;
        registers.ctrl1.pcen = config.parity != Parity::ParityNone;
        registers.ctrl1.psel = config.parity == Parity::ParityOdd;
        registers.ctrl1.txen = true;
        registers.ctrl1.rxen = true;
        registers.brcf = div;
        registers.ctrl1.uen = true;
        match config.dma {
            DmaConfig::Tx => {
                registers.ctrl3.dmatxen = true;
            },
            DmaConfig::Rx => {
                registers.ctrl3.dmarxen = true;
            },
            DmaConfig::TxRx => {
                registers.ctrl3.dmarxen = true;
                registers.ctrl3.dmatxen = true;
            },
            DmaConfig::Disabled => {},
        }
        Ok(serial)
    }

    /// Splits the port into its transmitter and its receiver.
    pub fn split(self) -> (halves: (Tx<USART, WORD>, Rx<USART, WORD>))
        ensures
            halves.0 == self.tx,
            halves.1 == self.rx,
    {
        (self.tx, self.rx)
    }

    /// Gives the peripheral and the pins back.
    pub fn release(self) -> (parts: (USART, (USART::Tx, USART::Rx)))
        ensures
            parts.0 == self.tx.usart,
            parts.1 == (self.tx.pin, self.rx.pin),
    {
        (self.tx.usart, (self.tx.pin, self.rx.pin))
    }
}

impl<USART: Instance, WORD> Rx<USART, WORD> {
    pub(crate) fn new(pin: USART::Rx) -> (rx: Self)
        ensures
            rx.pin == pin,
    {
        Self { _word: PhantomData, pin }
    }

    /// Joins the receiver with its transmitter.
    pub fn join(self, tx: Tx<USART, WORD>) -> (serial: Serial<USART, WORD>)
        ensures
            serial.tx == tx,
            serial.rx == self,
    {
        Serial { tx, rx: self }
    }
}

impl<USART: Instance, WORD> Tx<USART, WORD> {
    pub(crate) fn new(usart: USART, pin: USART::Tx) -> (tx: Self)
        ensures
            tx.usart == usart,
            tx.pin == pin,
    {
        Self { _word: PhantomData, usart, pin }
    }

    /// Joins the transmitter with its receiver.
    pub fn join(self, rx: Rx<USART, WORD>) -> (serial: Serial<USART, WORD>)
        ensures
            serial.tx == self,
            serial.rx == rx,
    {
        Serial { tx: self, rx }
    }
}

impl<USART: Instance> Serial<USART, u8> {
    /// The same port with words of up to nine bits.
    pub fn with_u16_data(self) -> (serial: Serial<USART, u16>)
        ensures
            serial.tx.usart == self.tx.usart,
            serial.tx.pin == self.tx.pin,
            serial.rx.pin == self.rx.pin,
    {
        Serial { tx: Tx::new(self.tx.usart, self.tx.pin), rx: Rx::new(self.rx.pin) }
    }
}

impl<USART: Instance> Serial<USART, u16> {
    /// The same port with words of eight bits.
    pub fn with_u8_data(self) -> (serial: Serial<USART, u8>)
        ensures
            serial.tx.usart == self.tx.usart,
            serial.tx.pin == self.tx.pin,
            serial.rx.pin == self.rx.pin,
    {
        Serial { tx: Tx::new(self.tx.usart, self.tx.pin), rx: Rx::new(self.rx.pin) }
    }
}

/// Extension trait that makes a serial port of a USART or UART peripheral
pub trait SerialExt: Sized + Instance {
    /// Selects the remap setting `RMP`, sets `Alternate` mode for `pins`,
    /// enables the port's clock, resets the port and sets it up.
    fn serial<WORD, RMP, TX, RX>(
        self,
        pins: (TX, RX),
        config: Config,
        clocks: &Clocks,
        afio: &mut Afio,
        rcc: &mut Rcc,
        gpio: &mut Gpio,
        registers: &mut UsartBlock,
    ) -> (serial: Result<Serial<Self, WORD>, InvalidConfig>) where
        RMP: Remap,
        TX: RemapIO<Self, RMP> + IntoSignal<Self::Tx>,
        RX: RemapIO<Self, RMP> + IntoSignal<Self::Rx>,

        requires
            config.baudrate >= 1,
            25 * Self::spec_clock(*clocks) <= u32::MAX,
        ensures
            *final(afio) == RMP::remapped(*old(afio)),
            *final(gpio) == RX::taken(TX::taken(*old(gpio))),
            *final(rcc) == after_reset::<Self>(after_enable::<Self>(*old(rcc))),
            serial is Ok <==> serves(Self::spec_clock(*clocks) as int, config.baudrate as int),
            serial is Ok ==> *final(registers) == configured(
                *old(registers),
                config,
                divider(Self::spec_clock(*clocks) as int, config.baudrate as int) as u32,
            ),
            serial is Err ==> *final(registers) == *old(registers),
            serial matches Ok(s) ==> s.tx.usart == self,
    ;
}

impl<USART: Instance> SerialExt for USART {
    fn serial<WORD, RMP, TX, RX>(
        self,
        pins: (TX, RX),
        config: Config,
        clocks: &Clocks,
        afio: &mut Afio,
        rcc: &mut Rcc,
        gpio: &mut Gpio,
        registers: &mut UsartBlock,
    ) -> (serial: Result<Serial<Self, WORD>, InvalidConfig>) where
        RMP: Remap,
        TX: RemapIO<Self, RMP> + IntoSignal<Self::Tx>,
        RX: RemapIO<Self, RMP> + IntoSignal<Self::Rx>,
     {
        RMP::remap(afio);
        let tx = pins.0.into_signal(gpio);
        let rx = pins.1.into_signal(gpio);
        Serial::new(self, (tx, rx), config, clocks, rcc, registers)
    }
}

/// Whether a flag is set in a status word.
pub open spec fn flagged(sts: u32, flag: Flag) -> bool {
    sts & flag.spec_bits() != 0
}

/// Whether a flag is set in a status word.
pub fn is_flagged(sts: u32, flag: Flag) -> (set: bool)
    ensures
        set == flagged(sts, flag),
{
    sts & flag.bits() != 0
}

/// What the status says about a reception: the first that is flagged of
/// parity error, framing error, noise and overrun makes it fail; else a word
/// is there if the receive register is not empty.
pub open spec fn reception(sts: u32) -> Poll<Error> {
    if flagged(sts, Flag::ParityError) {
        Poll::Failed(Error::Parity)
    } else if flagged(sts, Flag::FramingError) {
        Poll::Failed(Error::FrameFormat)
    } else if flagged(sts, Flag::Noise) {
        Poll::Failed(Error::Noise)
    } else if flagged(sts, Flag::Overrun) {
        Poll::Failed(Error::Overrun)
    } else if flagged(sts, Flag::RxNotEmpty) {
        Poll::Ready
    } else {
        Poll::WouldBlock
    }
}

/// Decides from the status whether a word can be read. With any error the
/// data register has to be read, which clears the error.
pub fn check_read(sts: u32) -> (outcome: (Poll<Error>, bool))
    ensures
        outcome.0 == reception(sts),
        outcome.1 == (reception(sts) is Failed),
{
    // Any error requires the dr to be read to clear
    let clear = is_flagged(sts, Flag::ParityError) || is_flagged(sts, Flag::FramingError)
        || is_flagged(sts, Flag::Noise) || is_flagged(sts, Flag::Overrun);
    let poll = if is_flagged(sts, Flag::ParityError) {
        Poll::Failed(Error::Parity)
    } else if is_flagged(sts, Flag::FramingError) {
        Poll::Failed(Error::FrameFormat)
    } else if is_flagged(sts, Flag::Noise) {
        Poll::Failed(Error::Noise)
    } else if is_flagged(sts, Flag::Overrun) {
        Poll::Failed(Error::Overrun)
    } else if is_flagged(sts, Flag::RxNotEmpty) {
        Poll::Ready
    } else {
        Poll::WouldBlock
    };
    (poll, clear)
}

/// Decides from the status whether a word can be written: the transmit
/// register has to be empty.
pub fn check_write(sts: u32) -> (outcome: Poll<Error>)
    ensures
        outcome == if flagged(sts, Flag::TxEmpty) {
            Poll::<Error>::Ready
        } else {
            Poll::<Error>::WouldBlock
        },
{
    if is_flagged(sts, Flag::TxEmpty) {
        Poll::Ready
    } else {
        Poll::WouldBlock
    }
}

/// Decides from the status whether everything is sent: the transmission has
/// to be complete.
pub fn check_flush(sts: u32) -> (outcome: Poll<Error>)
    ensures
        outcome == if flagged(sts, Flag::TransmissionComplete) {
            Poll::<Error>::Ready
        } else {
            Poll::<Error>::WouldBlock
        },
{
    if is_flagged(sts, Flag::TransmissionComplete) {
        Poll::Ready
    } else {
        Poll::WouldBlock
    }
}

/// The word that clears the flags of `flags` when it is written to the
/// status register: a flag is cleared by a 0.
pub fn clear_flags_word(flags: u32) -> (word: u32)
    ensures
        word == 0xffffu32 & !flags,
{
    0xffffu32 & !flags
}

/// The control register after the events of `disable` are switched off and
/// then those of `enable` on.
pub fn listen_event(ctrl1: u32, disable: Option<u32>, enable: Option<u32>) -> (bits: u32)
    ensures
        bits == (match enable {
            Some(e) => (match disable {
                Some(d) => ctrl1 & !d,
                None => ctrl1,
            }) | e,
            None => match disable {
                Some(d) => ctrl1 & !d,
                None => ctrl1,
            },
        }),
{
    let mut bits: u32 = ctrl1;
    if let Some(d) = disable {
        bits = bits & !d;
    }
    if let Some(e) = enable {
        bits = bits | e;
    }
    bits
}

} // verus!
