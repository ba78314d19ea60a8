//! Serial peripheral interface: modes, events and the clock prescaler.

use vstd::prelude::*;
use core::marker::PhantomData;
use crate::gpio::alt::altmap::Remap;
use crate::gpio::alt::altmap::RemapIO;
use crate::gpio::alt::IntoSignal;
use crate::gpio::alt::SpiCommon;
use crate::gpio::NoPin;
use crate::pac::Afio;
use crate::pac::Gpio;
use crate::pac::Rcc;
use crate::pac::SpiBlock;
use crate::pac::SpiCtrl1;
use crate::pac::SpiCtrl2;
use crate::poll::Poll;
use crate::rcc::after_enable;
use crate::rcc::after_reset;
use crate::rcc::BusClock;
use crate::rcc::Clocks;
use crate::rcc::Enable;
use crate::rcc::Reset;
use crate::sealed::Sealed;

verus! {

/// Clock polarity
#[derive(Clone, Copy, Debug, PartialEq, Eq, Structural)]
pub enum Polarity {
    /// Clock signal low when idle
    IdleLow,
    /// Clock signal high when idle
    IdleHigh,
}

/// Clock phase
#[derive(Clone, Copy, Debug, PartialEq, Eq, Structural)]
pub enum Phase {
    /// Data in "captured" on the first clock transition
    CaptureOnFirstTransition,
    /// Data in "captured" on the second clock transition
    CaptureOnSecondTransition,
}

/// Direction of a transfer
#[derive(Clone, Copy, Debug, PartialEq, Eq, Structural)]
pub enum TransferMode {
    TransferModeNormal,
    TransferModeBidirectional,
    TransferModeRecieveOnly,
    TransferModeTransmitOnly,
}

/// SPI mode
#[derive(Clone, Copy, Debug, PartialEq, Eq, Structural)]
pub struct Mode {
    /// Clock polarity
    pub polarity: Polarity,
    /// Clock phase
    pub phase: Phase,
}

/// SPI error
#[derive(Debug, Eq, PartialEq, Structural, Copy, Clone)]
#[non_exhaustive]
pub enum Error {
    /// Overrun occurred
    Overrun,
    /// Mode fault occurred
    ModeFault,
    /// CRC error
    Crc,
}

/// SPI interrupt events
#[derive(Debug, Eq, PartialEq, Structural, Copy, Clone)]
pub enum Event {
    /// An error occurred.
    Error,
    /// New data has been received.
    RxNotEmpty,
    /// Data can be sent.
    TxEmpty,
}

impl Event {
    /// The event's bit in the control register.
    pub open spec fn spec_bits(self) -> u32 {
        match self {
            Event::Error => 0x20,
            Event::RxNotEmpty => 0x40,
            Event::TxEmpty => 0x80,
        }
    }

    /// The event's bit in the control register.
    #[verifier::when_used_as_spec(spec_bits)]
    pub fn bits(self) -> (bits: u32)
        ensures
            bits == self.spec_bits(),
    {
        match self {
            Event::Error => 0x20,
            Event::RxNotEmpty => 0x40,
            Event::TxEmpty => 0x80,
        }
    }
}

/// SPI status flags
#[derive(Debug, Eq, PartialEq, Structural, Copy, Clone)]
pub enum Flag {
    /// Receive buffer not empty
    RxNotEmpty,
    /// Transmit buffer empty
    TxEmpty,
    /// CRC error flag
    CrcError,
    /// Mode fault
    ModeFault,
    /// Overrun flag
    Overrun,
    /// Busy flag
    Busy,
    /// Frame Error flag
    FrameError,
}

impl Flag {
    /// The flag's bit in the status register.
    pub open spec fn spec_bits(self) -> u32 {
        match self {
            Flag::RxNotEmpty => 0x001,
            Flag::TxEmpty => 0x002,
            Flag::CrcError => 0x010,
            Flag::ModeFault => 0x020,
            Flag::Overrun => 0x040,
            Flag::Busy => 0x080,
            Flag::FrameError => 0x100,
        }
    }

    /// The flag's bit in the status register.
    #[verifier::when_used_as_spec(spec_bits)]
    pub fn bits(self) -> (bits: u32)
        ensures
            bits == self.spec_bits(),
    {
        match self {
            Flag::RxNotEmpty => 0x001,
            Flag::TxEmpty => 0x002,
            Flag::CrcError => 0x010,
            Flag::ModeFault => 0x020,
            Flag::Overrun => 0x040,
            Flag::Busy => 0x080,
            Flag::FrameError => 0x100,
        }
    }
}

/// SPI clearable flags
#[derive(Debug, Eq, PartialEq, Structural, Copy, Clone)]
pub enum CFlag {
    /// CRC error flag
    CrcError,
}

impl CFlag {
    /// The flag's bit in the status register.
    pub open spec fn spec_bits(self) -> u32 {
        0x10
    }

    /// The flag's bit in the status register.
    #[verifier::when_used_as_spec(spec_bits)]
    pub fn bits(self) -> (bits: u32)
        ensures
            bits == self.spec_bits(),
    {
        0x10
    }
}

/// Width of a frame
pub trait FrameSize: Copy + Default {
    /// Whether the data frame format bit is set for this width.
    const DFF: bool;
}

impl FrameSize for u8 {
    const DFF: bool = false;
}

impl FrameSize for u16 {
    const DFF: bool = true;
}

/// The bit format used to send and receive data
#[derive(Debug, Clone, Copy, PartialEq, Eq, Structural)]
pub enum BitFormat {
    /// Least significant bit first
    LsbFirst,
    /// Most significant bit first
    MsbFirst,
}

/// The prescaler field for a ratio of the bus clock to the wanted bit clock:
/// the field `n` divides by 2^(n + 1), and the ratio picks the divider that
/// comes nearest to it.
pub open spec fn prescaler_for_ratio(ratio: int) -> u8 {
    if ratio <= 2 {
        0
    } else if ratio <= 5 {
        1
    } else if ratio <= 11 {
        2
    } else if ratio <= 23 {
        3
    } else if ratio <= 47 {
        4
    } else if ratio <= 95 {
        5
    } else if ratio <= 191 {
        6
    } else {
        7
    }
}

/// Picks the prescaler field for a bus clock and a wanted bit clock, both in
/// Hz. The bit clock has to be at most the bus clock.
pub fn baud_rate_bits(clock: u32, freq: u32) -> (br: u8)
    requires
        1 <= freq <= clock,
    ensures
        br == prescaler_for_ratio(clock as int / freq as int),
        br <= 7,
{
    let ratio: u32 = clock / freq;
    if ratio <= 2 {
        0
    } else if ratio <= 5 {
        1
    } else if ratio <= 11 {
        2
    } else if ratio <= 23 {
        3
    } else if ratio <= 47 {
        4
    } else if ratio <= 95 {
        5
    } else if ratio <= 191 {
        6
    } else {
        7
    }
}

/// Transfer mode of an interface with two data lines, as its type carries it
pub const NORMAL: u8 = 0;

/// Transfer mode of an interface with one data line for both directions
pub const BIDIRECTIONAL: u8 = 1;

/// Transfer mode of an interface that only receives
pub const RECEIVE_ONLY: u8 = 2;

/// Transfer mode of an interface that only transmits
pub const TRANSMIT_ONLY: u8 = 3;

impl TransferMode {
    /// The transfer mode that a type of interface carries as `code`.
    pub open spec fn spec_of(code: u8) -> TransferMode {
        if code == NORMAL {
            TransferMode::TransferModeNormal
        } else if code == BIDIRECTIONAL {
            TransferMode::TransferModeBidirectional
        } else if code == RECEIVE_ONLY {
            TransferMode::TransferModeRecieveOnly
        } else {
            TransferMode::TransferModeTransmitOnly
        }
    }

    /// The transfer mode that a type of interface carries as `code`.
    #[verifier::when_used_as_spec(spec_of)]
    pub fn of(code: u8) -> (mode: TransferMode)
        ensures
            mode == Self::spec_of(code),
    {
        if code == NORMAL {
            TransferMode::TransferModeNormal
        } else if code == BIDIRECTIONAL {
            TransferMode::TransferModeBidirectional
        } else if code == RECEIVE_ONLY {
            TransferMode::TransferModeRecieveOnly
        } else {
            TransferMode::TransferModeTransmitOnly
        }
    }
}

/// The data frame format bit of each frame width.
pub proof fn lemma_frame_sizes()
    ensures
        !<u8 as FrameSize>::DFF,
        <u16 as FrameSize>::DFF,
{
}

/// Implemented by all SPI instances
pub trait Instance: Sealed + Enable + Reset + BusClock + SpiCommon {

}

impl Instance for crate::pac::Spi1 {

}

impl Instance for crate::pac::Spi2 {

}

impl Instance for crate::pac::Spi3 {

}

/// The peripheral that an interface drives
pub struct Inner<SPI: Instance> {
    pub spi: SPI,
}

/// Spi in Master mode
pub struct Spi<SPI: Instance, const XFER_MODE: u8, W = u8> {
    pub inner: Inner<SPI>,
    pub pins: (SPI::Sck, SPI::Miso, SPI::Mosi),
    pub _operation: PhantomData<W>,
}

/// Control register 1 of a master after its first initialisation.
pub open spec fn pre_initialised(ctrl1: SpiCtrl1, mode: Mode, br: u8, transfer: TransferMode)
    -> SpiCtrl1 {
    SpiCtrl1 {
        clkpha: mode.phase == Phase::CaptureOnSecondTransition,
        clkpol: mode.polarity == Polarity::IdleHigh,
        msel: true,
        br,
        lsbff: false,
        ssmen: true,
        ssel: true,
        ronly: transfer == TransferMode::TransferModeRecieveOnly,
        datff: false,
        ..ctrl1
    }
}

/// Control register 1 of a master after its second initialisation: data
/// lines and frame width are set, and the interface is enabled unless it
/// only receives.
pub open spec fn initialised(ctrl1: SpiCtrl1, transfer: TransferMode, dff: bool) -> SpiCtrl1 {
    SpiCtrl1 {
        bidirmode: transfer == TransferMode::TransferModeBidirectional,
        bidiroen: transfer == TransferMode::TransferModeBidirectional,
        datff: dff,
        spien: transfer != TransferMode::TransferModeRecieveOnly,
        ..ctrl1
    }
}

/// The registers of a master with two data lines and frames of 8 bits after
/// it was set up for a mode, a bit clock and a bus clock.
pub open spec fn master_registers(registers: SpiBlock, mode: Mode, freq: int, clock: int)
    -> SpiBlock {
    SpiBlock {
        ctrl1: initialised(
            pre_initialised(
                registers.ctrl1,
                mode,
                prescaler_for_ratio(clock / freq),
                TransferMode::TransferModeNormal,
            ),
            TransferMode::TransferModeNormal,
            false,
        ),
        ctrl2: SpiCtrl2 { ssoen: false },
    }
}

impl<SPI: Instance, const XFER_MODE: u8, W: FrameSize> Spi<SPI, XFER_MODE, W> {
    /// Sets data lines and frame width and enables the interface.
    pub fn init(self, registers: &mut SpiBlock) -> (spi: Self)
        ensures
            *final(registers) == (SpiBlock {
                ctrl1: initialised(old(registers).ctrl1, TransferMode::spec_of(XFER_MODE), W::DFF),
                ..*old(registers)
            }),
            spi == self,
    {
        let transfer = TransferMode::of(XFER_MODE);
        // bidimode: 2-line or 1-line unidirectional
        registers.ctrl1.bidirmode = transfer == TransferMode::TransferModeBidirectional;
        registers.ctrl1.bidiroen = transfer == TransferMode::TransferModeBidirectional;
        // data frame size
        registers.ctrl1.datff = W::DFF;
        // spe: enable the SPI bus
        registers.ctrl1.spien = transfer != TransferMode::TransferModeRecieveOnly;
        self
    }
}

impl<SPI: Instance, const XFER_MODE: u8, W> Spi<SPI, XFER_MODE, W> {
    /// Gives the peripheral and the pins back.
    pub fn release(self) -> (parts: (SPI, (SPI::Sck, SPI::Miso, SPI::Mosi)))
        ensures
            parts.0 == self.inner.spi,
            parts.1 == self.pins,
    {
        (self.inner.spi, self.pins)
    }

    pub(crate) fn _new(spi: SPI, pins: (SPI::Sck, SPI::Miso, SPI::Mosi)) -> (new: Self)
        ensures
            new.inner.spi == spi,
            new.pins == pins,
    {
        Self { inner: Inner { spi }, pins, _operation: PhantomData }
    }

    /// Pre initializing the SPI bus: a master with software slave
    /// management, most significant bit first, frames of 8 bits, clocked at
    /// about `freq` Hz from a bus clock of `clock` Hz.
    pub(crate) fn pre_init(self, mode: Mode, freq: u32, clock: u32, registers: &mut SpiBlock) -> (spi:
        Self)
        requires
            1 <= freq <= clock,
        ensures
            *final(registers) == (SpiBlock {
                ctrl1: pre_initialised(
                    old(registers).ctrl1,
                    mode,
                    prescaler_for_ratio(clock as int / freq as int),
                    TransferMode::spec_of(XFER_MODE),
                ),
                ctrl2: SpiCtrl2 { ssoen: false },
            }),
            spi == self,
    {
        // disable SS output
        registers.ctrl2.ssoen = false;

        let br: u8 = baud_rate_bits(clock, freq);

        registers.ctrl1.clkpha = mode.phase == Phase::CaptureOnSecondTransition;
        registers.ctrl1.clkpol = mode.polarity == Polarity::IdleHigh;
        // mstr: master configuration
        registers.ctrl1.msel = true;
        registers.ctrl1.br = br;
        // lsbfirst: MSB first
        registers.ctrl1.lsbff = false;
        // ssm: enable software slave management (NSS pin free for other uses)
        registers.ctrl1.ssmen = true;
        // ssi: set nss high
        registers.ctrl1.ssel = true;
        registers.ctrl1.ronly = TransferMode::of(XFER_MODE) == TransferMode::TransferModeRecieveOnly;
        // dff: 8 bit frames
        registers.ctrl1.datff = false;
        self
    }
}

impl<SPI: Instance> Spi<SPI, NORMAL, u8> {
    /// Enables the SPI clock, resets the peripheral, sets `Alternate` mode for `pins` and initialize the peripheral as SPI Master Normal mode.
    ///
    /// The pins have to be pins that `SPI` is wired to under the remap
    /// setting `RMP`. The bit clock `freq` has to be at least 1 Hz and at
    /// most the clock of the bus that `SPI` is on.
    pub fn new<RMP, SCK, MISO, MOSI>(
        spi: SPI,
        pins: (SCK, MISO, MOSI),
        mode: Mode,
        freq: u32,
        clocks: &Clocks,
        rcc: &mut Rcc,
        gpio: &mut Gpio,
        registers: &mut SpiBlock,
    ) -> (new: Self) where
        RMP: Remap,
        SCK: RemapIO<SPI, RMP> + IntoSignal<SPI::Sck>,
        MISO: RemapIO<SPI, RMP> + IntoSignal<SPI::Miso>,
        MOSI: RemapIO<SPI, RMP> + IntoSignal<SPI::Mosi>,

        requires
            1 <= freq <= SPI::spec_clock(*clocks),
        ensures
            *final(rcc) == after_reset::<SPI>(after_enable::<SPI>(*old(rcc))),
            *final(gpio) == MOSI::taken(MISO::taken(SCK::taken(*old(gpio)))),
            *final(registers) == master_registers(
                *old(registers),
                mode,
                freq as int,
                SPI::spec_clock(*clocks) as int,
            ),
            new.inner.spi == spi,
            RMP::wired(SCK::spec_port(), SCK::spec_number()),
            RMP::wired(MISO::spec_port(), MISO::spec_number()),
            RMP::wired(MOSI::spec_port(), MOSI::spec_number()),
    {
        proof {
            SCK::lemma_wired();
            MISO::lemma_wired();
            MOSI::lemma_wired();
            lemma_frame_sizes();
        }
        SPI::enable(rcc);
        SPI::reset(rcc);

        let sck = pins.0.into_signal(gpio);
        let miso = pins.1.into_signal(gpio);
        let mosi = pins.2.into_signal(gpio);

        Self::_new(spi, (sck, miso, mosi)).pre_init(mode, freq, SPI::clock(clocks), registers).init(
            registers,
        )
    }
}

/// Extension trait that makes an interface of an SPI peripheral
pub trait SpiExt: Sized + Instance {
    /// Selects the remap setting `RMP`, enables the SPI clock, resets the
    /// peripheral, sets `Alternate` mode for `pins` and initialize the
    /// peripheral as SPI Master Normal mode.
    fn spi<RMP, SCK, MISO, MOSI>(
        self,
        pins: (SCK, MISO, MOSI),
        mode: Mode,
        freq: u32,
        clocks: &Clocks,
        afio: &mut Afio,
        rcc: &mut Rcc,
        gpio: &mut Gpio,
        registers: &mut SpiBlock,
    ) -> (spi: Spi<Self, NORMAL, u8>) where
        RMP: Remap,
        SCK: RemapIO<Self, RMP> + IntoSignal<Self::Sck>,
        MISO: RemapIO<Self, RMP> + IntoSignal<Self::Miso>,
        MOSI: RemapIO<Self, RMP> + IntoSignal<Self::Mosi>,

        requires
            1 <= freq <= Self::spec_clock(*clocks),
        ensures
            *final(afio) == RMP::remapped(*old(afio)),
            *final(rcc) == after_reset::<Self>(after_enable::<Self>(*old(rcc))),
            *final(gpio) == MOSI::taken(MISO::taken(SCK::taken(*old(gpio)))),
            *final(registers) == master_registers(
                *old(registers),
                mode,
                freq as int,
                Self::spec_clock(*clocks) as int,
            ),
            spi.inner.spi == self,
    ;
}

impl<SPI: Instance> SpiExt for SPI {
    fn spi<RMP, SCK, MISO, MOSI>(
        self,
        pins: (SCK, MISO, MOSI),
        mode: Mode,
        freq: u32,
        clocks: &Clocks,
        afio: &mut Afio,
        rcc: &mut Rcc,
        gpio: &mut Gpio,
        registers: &mut SpiBlock,
    ) -> (spi: Spi<Self, NORMAL, u8>) where
        RMP: Remap,
        SCK: RemapIO<Self, RMP> + IntoSignal<Self::Sck>,
        MISO: RemapIO<Self, RMP> + IntoSignal<Self::Miso>,
        MOSI: RemapIO<Self, RMP> + IntoSignal<Self::Mosi>,
     {
        RMP::remap(afio);
        Spi::new::<RMP, SCK, MISO, MOSI>(self, pins, mode, freq, clocks, rcc, gpio, registers)
    }
}

impl<SPI: Instance> Inner<SPI> {
    /// Enables or disables the interface.
    pub fn enable(&mut self, registers: &mut SpiBlock, enable: bool)
        ensures
            *final(registers) == (SpiBlock {
                ctrl1: SpiCtrl1 { spien: enable, ..old(registers).ctrl1 },
                ..*old(registers)
            }),
            final(self).spi == old(self).spi,
    {
        // spe: enable the SPI bus
        registers.ctrl1.spien = enable;
    }

    /// Selects the order in which the bits of a frame are sent.
    pub fn bit_format(&mut self, registers: &mut SpiBlock, format: BitFormat)
        ensures
            *final(registers) == (SpiBlock {
                ctrl1: SpiCtrl1 { lsbff: format == BitFormat::LsbFirst, ..old(registers).ctrl1 },
                ..*old(registers)
            }),
            final(self).spi == old(self).spi,
    {
        registers.ctrl1.lsbff = format == BitFormat::LsbFirst;
    }
}

impl<SPI: Instance, const XFER_MODE: u8, W> Spi<SPI, XFER_MODE, W> {
    /// Convert the spi to another mode: it is disabled and set up for the
    /// transfer mode and the frame width of the new type.
    pub fn into_mode<const XFER_MODE2: u8, W2: FrameSize>(self, registers: &mut SpiBlock) -> (spi:
        Spi<SPI, XFER_MODE2, W2>)
        ensures
            *final(registers) == (SpiBlock {
                ctrl1: initialised(
                    SpiCtrl1 { spien: false, ..old(registers).ctrl1 },
                    TransferMode::spec_of(XFER_MODE2),
                    W2::DFF,
                ),
                ..*old(registers)
            }),
            spi.inner.spi == self.inner.spi,
            spi.pins == self.pins,
    {
        let mut spi: Spi<SPI, XFER_MODE2, W2> = Spi::_new(self.inner.spi, self.pins);
        spi.inner.enable(registers, false);
        spi.init(registers)
    }
}

impl<SPI: Instance, W: FrameSize> Spi<SPI, NORMAL, W> {
    /// The same interface with one data line for both directions.
    pub fn to_bidi_transfer_mode(self, registers: &mut SpiBlock) -> (spi: Spi<
        SPI,
        BIDIRECTIONAL,
        W,
    >)
        ensures
            *final(registers) == (SpiBlock {
                ctrl1: initialised(
                    SpiCtrl1 { spien: false, ..old(registers).ctrl1 },
                    TransferMode::TransferModeBidirectional,
                    W::DFF,
                ),
                ..*old(registers)
            }),
            spi.inner.spi == self.inner.spi,
            spi.pins == self.pins,
    {
        self.into_mode(registers)
    }
}

impl<SPI: Instance, W: FrameSize> Spi<SPI, BIDIRECTIONAL, W> {
    /// The same interface with two data lines.
    pub fn to_normal_transfer_mode(self, registers: &mut SpiBlock) -> (spi: Spi<SPI, NORMAL, W>)
        ensures
            *final(registers) == (SpiBlock {
                ctrl1: initialised(
                    SpiCtrl1 { spien: false, ..old(registers).ctrl1 },
                    TransferMode::TransferModeNormal,
                    W::DFF,
                ),
                ..*old(registers)
            }),
            spi.inner.spi == self.inner.spi,
            spi.pins == self.pins,
    {
        self.into_mode(registers)
    }
}

impl<SPI: Instance, const XFER_MODE: u8> Spi<SPI, XFER_MODE, u8> {
    /// The same interface with frames of 16 bits.
    pub fn frame_size_16bit(self, registers: &mut SpiBlock) -> (spi: Spi<SPI, XFER_MODE, u16>)
        ensures
            *final(registers) == (SpiBlock {
                ctrl1: initialised(
                    SpiCtrl1 { spien: false, ..old(registers).ctrl1 },
                    TransferMode::spec_of(XFER_MODE),
                    true,
                ),
                ..*old(registers)
            }),
            spi.inner.spi == self.inner.spi,
            spi.pins == self.pins,
    {
        proof {
            lemma_frame_sizes();
        }
        self.into_mode(registers)
    }
}

impl<SPI: Instance, const XFER_MODE: u8> Spi<SPI, XFER_MODE, u16> {
    /// The same interface with frames of 8 bits.
    pub fn frame_size_8bit(self, registers: &mut SpiBlock) -> (spi: Spi<SPI, XFER_MODE, u8>)
        ensures
            *final(registers) == (SpiBlock {
                ctrl1: initialised(
                    SpiCtrl1 { spien: false, ..old(registers).ctrl1 },
                    TransferMode::spec_of(XFER_MODE),
                    false,
                ),
                ..*old(registers)
            }),
            spi.inner.spi == self.inner.spi,
            spi.pins == self.pins,
    {
        proof {
            lemma_frame_sizes();
        }
        self.into_mode(registers)
    }
}

impl<SPI: Instance> Spi<SPI, RECEIVE_ONLY, u8> {
    /// Enables the SPI clock, resets the peripheral, sets `Alternate` mode
    /// for `pins` and initialize the peripheral as a master that only
    /// receives. It is left disabled, and its output has no pin.
    pub fn new_rxonly<SCK, MISO>(
        spi: SPI,
        pins: (SCK, MISO),
        mode: Mode,
        freq: u32,
        clocks: &Clocks,
        rcc: &mut Rcc,
        gpio: &mut Gpio,
        registers: &mut SpiBlock,
    ) -> (new: Self) where
        SCK: IntoSignal<SPI::Sck>,
        MISO: IntoSignal<SPI::Miso>,
        NoPin: IntoSignal<SPI::Mosi>,

        requires
            1 <= freq <= SPI::spec_clock(*clocks),
        ensures
            *final(rcc) == after_reset::<SPI>(after_enable::<SPI>(*old(rcc))),
            *final(gpio) == <NoPin as IntoSignal<SPI::Mosi>>::taken(
                MISO::taken(SCK::taken(*old(gpio))),
            ),
            *final(registers) == (SpiBlock {
                ctrl1: initialised(
                    pre_initialised(
                        old(registers).ctrl1,
                        mode,
                        prescaler_for_ratio(SPI::spec_clock(*clocks) as int / freq as int),
                        TransferMode::TransferModeRecieveOnly,
                    ),
                    TransferMode::TransferModeRecieveOnly,
                    false,
                ),
                ctrl2: SpiCtrl2 { ssoen: false },
            }),
            new.inner.spi == spi,
    {
        proof {
            lemma_frame_sizes();
        }
        SPI::enable(rcc);
        SPI::reset(rcc);

        let sck = pins.0.into_signal(gpio);
        let miso = pins.1.into_signal(gpio);
        let mosi = NoPin::new().into_signal(gpio);
        Self::_new(spi, (sck, miso, mosi)).pre_init(mode, freq, SPI::clock(clocks), registers).init(
            registers,
        )
    }
}

impl<SPI: Instance> Spi<SPI, BIDIRECTIONAL, u8> {
    /// Enables the SPI clock, resets the peripheral, sets `Alternate` mode
    /// for `pins` and initialize the peripheral as a master with one data
    /// line for both directions. Its input has no pin.
    pub fn new_bidi<SCK, MOSI>(
        spi: SPI,
        pins: (SCK, MOSI),
        mode: Mode,
        freq: u32,
        clocks: &Clocks,
        rcc: &mut Rcc,
        gpio: &mut Gpio,
        registers: &mut SpiBlock,
    ) -> (new: Self) where
        SCK: IntoSignal<SPI::Sck>,
        MOSI: IntoSignal<SPI::Mosi>,
        NoPin: IntoSignal<SPI::Miso>,

        requires
            1 <= freq <= SPI::spec_clock(*clocks),
        ensures
            *final(rcc) == after_reset::<SPI>(after_enable::<SPI>(*old(rcc))),
            *final(gpio) == MOSI::taken(
                <NoPin as IntoSignal<SPI::Miso>>::taken(SCK::taken(*old(gpio))),
            ),
            *final(registers) == (SpiBlock {
                ctrl1: initialised(
                    pre_initialised(
                        old(registers).ctrl1,
                        mode,
                        prescaler_for_ratio(SPI::spec_clock(*clocks) as int / freq as int),
                        TransferMode::TransferModeBidirectional,
                    ),
                    TransferMode::TransferModeBidirectional,
                    false,
                ),
                ctrl2: SpiCtrl2 { ssoen: false },
            }),
            new.inner.spi == spi,
    {
        proof {
            lemma_frame_sizes();
        }
        SPI::enable(rcc);
        SPI::reset(rcc);

        let sck = pins.0.into_signal(gpio);
        let miso = NoPin::new().into_signal(gpio);
        let mosi = pins.1.into_signal(gpio);
        Self::_new(spi, (sck, miso, mosi)).pre_init(mode, freq, SPI::clock(clocks), registers).init(
            registers,
        )
    }
}

/// Spi in Slave mode
pub struct SpiSlave<SPI: Instance, const XFER_MODE: u8, W = u8> {
    pub inner: Inner<SPI>,
    pub pins: (SPI::Sck, SPI::Miso, SPI::Mosi, Option<SPI::Nss>),
    pub _operation: PhantomData<W>,
}

/// Control register 1 of a slave after its first initialisation. Slave
/// select is managed by software where the slave has no pin for it.
pub open spec fn slave_pre_initialised(ctrl1: SpiCtrl1, mode: Mode, software_nss: bool) -> SpiCtrl1 {
    SpiCtrl1 {
        clkpha: mode.phase == Phase::CaptureOnSecondTransition,
        clkpol: mode.polarity == Polarity::IdleHigh,
        msel: false,
        br: 0,
        lsbff: false,
        ssmen: software_nss,
        ssel: true,
        ronly: false,
        datff: false,
        ..ctrl1
    }
}

/// Control register 1 of a slave after its second initialisation: data
/// lines and frame width are set, and the interface is enabled.
pub open spec fn slave_initialised(ctrl1: SpiCtrl1, transfer: TransferMode, dff: bool) -> SpiCtrl1 {
    SpiCtrl1 {
        bidirmode: transfer == TransferMode::TransferModeBidirectional,
        bidiroen: transfer == TransferMode::TransferModeBidirectional,
        datff: dff,
        spien: true,
        ..ctrl1
    }
}

impl<SPI: Instance, const XFER_MODE: u8, W: FrameSize> SpiSlave<SPI, XFER_MODE, W> {
    /// Sets data lines and frame width and enables the interface.
    pub fn init(self, registers: &mut SpiBlock) -> (spi: Self)
        ensures
            *final(registers) == (SpiBlock {
                ctrl1: slave_initialised(
                    old(registers).ctrl1,
                    TransferMode::spec_of(XFER_MODE),
                    W::DFF,
                ),
                ..*old(registers)
            }),
            spi == self,
    {
        let transfer = TransferMode::of(XFER_MODE);
        // bidimode: 2-line or 1-line unidirectional
        registers.ctrl1.bidirmode = transfer == TransferMode::TransferModeBidirectional;
        registers.ctrl1.bidiroen = transfer == TransferMode::TransferModeBidirectional;
        // data frame size
        registers.ctrl1.datff = W::DFF;
        // spe: enable the SPI bus
        registers.ctrl1.spien = true;
        self
    }
}

impl<SPI: Instance, const XFER_MODE: u8, W> SpiSlave<SPI, XFER_MODE, W> {
    /// Gives the peripheral and the pins back.
    pub fn release(self) -> (parts: (SPI, (SPI::Sck, SPI::Miso, SPI::Mosi, Option<SPI::Nss>)))
        ensures
            parts.0 == self.inner.spi,
            parts.1 == self.pins,
    {
        (self.inner.spi, self.pins)
    }

    pub(crate) fn _new(spi: SPI, pins: (SPI::Sck, SPI::Miso, SPI::Mosi, Option<SPI::Nss>)) -> (new:
        Self)
        ensures
            new.inner.spi == spi,
            new.pins == pins,
    {
        Self { inner: Inner { spi }, pins, _operation: PhantomData }
    }

    /// Pre initializing the SPI bus.
    pub(crate) fn pre_init(self, mode: Mode, registers: &mut SpiBlock) -> (spi: Self)
        ensures
            *final(registers) == (SpiBlock {
                ctrl1: slave_pre_initialised(old(registers).ctrl1, mode, self.pins.3 is None),
                ..*old(registers)
            }),
            spi == self,
    {
        registers.ctrl1.clkpha = mode.phase == Phase::CaptureOnSecondTransition;
        registers.ctrl1.clkpol = mode.polarity == Polarity::IdleHigh;
        // mstr: slave configuration
        registers.ctrl1.msel = false;
        registers.ctrl1.br = 0;
        // lsbfirst: MSB first
        registers.ctrl1.lsbff = false;
        // ssm: enable software slave management (NSS pin free for other uses)
        registers.ctrl1.ssmen = self.pins.3.is_none();
        // ssi: set nss high = master mode
        registers.ctrl1.ssel = true;
        registers.ctrl1.ronly = false;
        // dff: 8 bit frames
        registers.ctrl1.datff = false;
        self
    }

    /// Set the slave select bit programmatically.
    pub fn set_internal_nss(&mut self, registers: &mut SpiBlock, value: bool)
        ensures
            *final(registers) == (SpiBlock {
                ctrl1: SpiCtrl1 { ssel: value, ..old(registers).ctrl1 },
                ..*old(registers)
            }),
            *final(self) == *old(self),
    {
        registers.ctrl1.ssel = value;
    }
}

impl<SPI: Instance> SpiSlave<SPI, NORMAL, u8> {
    /// Enables the SPI clock, resets the peripheral, sets `Alternate` mode for `pins` and initialize the peripheral as SPI Slave Normal mode.
    ///
    /// The pins have to be pins that `SPI` is wired to under the remap
    /// setting `RMP`.
    pub fn new<RMP, SCK, MISO, MOSI, NSS>(
        spi: SPI,
        pins: (SCK, MISO, MOSI, Option<NSS>),
        mode: Mode,
        rcc: &mut Rcc,
        gpio: &mut Gpio,
        registers: &mut SpiBlock,
    ) -> (new: Self) where
        RMP: Remap,
        SCK: RemapIO<SPI, RMP> + IntoSignal<SPI::Sck>,
        MISO: RemapIO<SPI, RMP> + IntoSignal<SPI::Miso>,
        MOSI: RemapIO<SPI, RMP> + IntoSignal<SPI::Mosi>,
        NSS: RemapIO<SPI, RMP> + IntoSignal<SPI::Nss>,

        ensures
            *final(rcc) == after_reset::<SPI>(after_enable::<SPI>(*old(rcc))),
            *final(gpio) == match pins.3 {
                Some(_) => NSS::taken(MOSI::taken(MISO::taken(SCK::taken(*old(gpio))))),
                None => MOSI::taken(MISO::taken(SCK::taken(*old(gpio)))),
            },
            *final(registers) == (SpiBlock {
                ctrl1: slave_initialised(
                    slave_pre_initialised(old(registers).ctrl1, mode, pins.3 is None),
                    TransferMode::TransferModeNormal,
                    false,
                ),
                ..*old(registers)
            }),
            new.inner.spi == spi,
            new.pins.3 is Some == pins.3 is Some,
    {
        proof {
            lemma_frame_sizes();
        }
        SPI::enable(rcc);
        SPI::reset(rcc);

        let sck = pins.0.into_signal(gpio);
        let miso = pins.1.into_signal(gpio);
        let mosi = pins.2.into_signal(gpio);
        let nss = match pins.3 {
            Some(pin) => Some(pin.into_signal(gpio)),
            None => None,
        };
        Self::_new(spi, (sck, miso, mosi, nss)).pre_init(mode, registers).init(registers)
    }
}

/// Whether a flag is set in a status word.
pub open spec fn flagged(sts: u32, flag: Flag) -> bool {
    sts & flag.spec_bits() != 0
}

/// Whether a flag is set in a status word.
pub fn is_flagged(sts: u32, flag: Flag) -> (set: bool)
    ensures
        set == flagged(sts, flag),
{
    sts & flag.bits() != 0
}

/// The error that a status word stands for: the first that is flagged of
/// overrun, mode fault and CRC error.
pub open spec fn error_of(sts: u32) -> Option<Error> {
    if flagged(sts, Flag::Overrun) {
        Some(Error::Overrun)
    } else if flagged(sts, Flag::ModeFault) {
        Some(Error::ModeFault)
    } else if flagged(sts, Flag::CrcError) {
        Some(Error::Crc)
    } else {
        None
    }
}

/// What has to be done to clear an error
#[derive(Debug, Clone, Copy, PartialEq, Eq, Structural)]
pub enum Clearing {
    /// Nothing
    Nothing,
    /// Read from the data register
    ReadData,
    /// Write control register 1 back as it is
    WriteCtrl1,
    /// Clear the CRC error flag
    ClearCrcError,
}

/// Decides from the status whether a frame can be read: not with an error,
/// and only if the receive buffer is not empty.
pub fn check_read(sts: u32) -> (outcome: Poll<Error>)
    ensures
        outcome == match error_of(sts) {
            Some(error) => Poll::Failed(error),
            None => if flagged(sts, Flag::RxNotEmpty) {
                Poll::Ready
            } else {
                Poll::WouldBlock
            },
        },
{
    if is_flagged(sts, Flag::Overrun) {
        Poll::Failed(Error::Overrun)
    } else if is_flagged(sts, Flag::ModeFault) {
        Poll::Failed(Error::ModeFault)
    } else if is_flagged(sts, Flag::CrcError) {
        Poll::Failed(Error::Crc)
    } else if is_flagged(sts, Flag::RxNotEmpty) {
        Poll::Ready
    } else {
        Poll::WouldBlock
    }
}

/// Decides from the status whether a frame can be sent: not with an error,
/// and only if the transmit buffer is empty. With an error it says how the
/// error is cleared.
pub fn check_send(sts: u32) -> (outcome: (Poll<Error>, Clearing))
    ensures
        outcome.0 == match error_of(sts) {
            Some(error) => Poll::Failed(error),
            None => if flagged(sts, Flag::TxEmpty) {
                Poll::Ready
            } else {
                Poll::WouldBlock
            },
        },
        outcome.1 == match error_of(sts) {
            Some(Error::Overrun) => Clearing::ReadData,
            Some(Error::ModeFault) => Clearing::WriteCtrl1,
            Some(Error::Crc) => Clearing::ClearCrcError,
            None => Clearing::Nothing,
        },
{
    if is_flagged(sts, Flag::Overrun) {
        // Read from the DR to clear the OVR bit
        (Poll::Failed(Error::Overrun), Clearing::ReadData)
    } else if is_flagged(sts, Flag::ModeFault) {
        // Write to CR1 to clear MODF
        (Poll::Failed(Error::ModeFault), Clearing::WriteCtrl1)
    } else if is_flagged(sts, Flag::CrcError) {
        // Clear the CRCERR bit
        (Poll::Failed(Error::Crc), Clearing::ClearCrcError)
    } else if is_flagged(sts, Flag::TxEmpty) {
        (Poll::Ready, Clearing::Nothing)
    } else {
        (Poll::WouldBlock, Clearing::Nothing)
    }
}

/// Control register 2 after the events of `disable` are switched off and
/// then those of `enable` on.
pub fn listen_event(ctrl2: u32, disable: Option<u32>, enable: Option<u32>) -> (bits: u32)
    ensures
        bits == (match enable {
            Some(e) => (match disable {
                Some(d) => ctrl2 & !d,
                None => ctrl2,
            }) | e,
            None => match disable {
                Some(d) => ctrl2 & !d,
                None => ctrl2,
            },
        }),
{
    let mut bits: u32 = ctrl2;
    if let Some(d) = disable {
        bits = bits & !d;
    }
    if let Some(e) = enable {
        bits = bits | e;
    }
    bits
}

} // verus!
