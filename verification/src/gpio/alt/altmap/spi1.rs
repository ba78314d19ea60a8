//! SPI1: where its signals can be routed to, and how.

use vstd::prelude::*;
use crate::gpio::Alternate;
use crate::gpio::Input;
use crate::gpio::NoPin;
use crate::gpio::PinMode;
use crate::gpio::PinSpeed;
use crate::gpio::PushPull;
use crate::gpio::ReadPin;
use crate::gpio::Speed;
use crate::gpio::alt::IntoSignal;
use crate::gpio::alt::SpiCommon;
use crate::gpio::alt::altmap::Remap;
use crate::gpio::alt::altmap::RemapIO;
use crate::gpio::alt::altmap::lemma_wired_pin;
use crate::gpio::convert::after;
use crate::gpio::marker::NotAlt;
use crate::gpio::port::PORT_A;
use crate::gpio::port::PORT_B;
use crate::gpio::port::PORT_E;
use crate::pac::Afio;
use crate::pac::Gpio;
use crate::pac::Spi1;
use crate::sealed::Sealed;
use crate::gpio::PA4;
use crate::gpio::PA5;
use crate::gpio::PA6;
use crate::gpio::PA7;
use crate::gpio::PA15;
use crate::gpio::PB2;
use crate::gpio::PB3;
use crate::gpio::PB4;
use crate::gpio::PB5;
use crate::gpio::PE7;
use crate::gpio::PE8;
use crate::gpio::PE9;

verus! {

/// SPI1 without remapping
pub struct SPI1NoRemapRemapper();

/// SPI1 with the first partial remapping
pub struct SPI1PartialRemapOneRemapper();

/// SPI1 with the second partial remapping
pub struct SPI1PartialRemapTwoRemapper();

/// SPI1 with the full remapping
pub struct SPI1FullRemapRemapper();

impl Remap for SPI1NoRemapRemapper {
    open spec fn remapped(afio: Afio) -> Afio {
        Afio {
            rmp_cfg: crate::pac::RmpCfg { spi1_rmp_0: false, ..afio.rmp_cfg },
            rmp_cfg3: crate::pac::RmpCfg3 { spi1_rmp_1: false, ..afio.rmp_cfg3 },
            ..afio
        }
    }

    open spec fn wired(port: u8, pin: u8) -> bool {
        port == PORT_A && (pin == 4 || pin == 5 || pin == 6 || pin == 7)
    }

    fn remap(afio: &mut Afio) {
        afio.rmp_cfg.spi1_rmp_0 = false;
        afio.rmp_cfg3.spi1_rmp_1 = false;
    }
}

impl Remap for SPI1PartialRemapOneRemapper {
    open spec fn remapped(afio: Afio) -> Afio {
        Afio {
            rmp_cfg: crate::pac::RmpCfg { spi1_rmp_0: true, ..afio.rmp_cfg },
            rmp_cfg3: crate::pac::RmpCfg3 { spi1_rmp_1: false, ..afio.rmp_cfg3 },
            ..afio
        }
    }

    open spec fn wired(port: u8, pin: u8) -> bool {
        ||| port == PORT_A && pin == 15
        ||| port == PORT_B && (pin == 3 || pin == 4 || pin == 5)
    }

    fn remap(afio: &mut Afio) {
        afio.rmp_cfg.spi1_rmp_0 = true;
        afio.rmp_cfg3.spi1_rmp_1 = false;
    }
}

impl Remap for SPI1PartialRemapTwoRemapper {
    open spec fn remapped(afio: Afio) -> Afio {
        Afio {
            rmp_cfg: crate::pac::RmpCfg { spi1_rmp_0: false, ..afio.rmp_cfg },
            rmp_cfg3: crate::pac::RmpCfg3 { spi1_rmp_1: true, ..afio.rmp_cfg3 },
            ..afio
        }
    }

    open spec fn wired(port: u8, pin: u8) -> bool {
        ||| port == PORT_B && pin == 2
        ||| port == PORT_A && (pin == 5 || pin == 6 || pin == 7)
    }

    fn remap(afio: &mut Afio) {
        afio.rmp_cfg.spi1_rmp_0 = false;
        afio.rmp_cfg3.spi1_rmp_1 = true;
    }
}

impl Remap for SPI1FullRemapRemapper {
    open spec fn remapped(afio: Afio) -> Afio {
        Afio {
            rmp_cfg: crate::pac::RmpCfg { spi1_rmp_0: true, ..afio.rmp_cfg },
            rmp_cfg3: crate::pac::RmpCfg3 { spi1_rmp_1: true, ..afio.rmp_cfg3 },
            ..afio
        }
    }

    open spec fn wired(port: u8, pin: u8) -> bool {
        ||| port == PORT_B && pin == 2
        ||| port == PORT_E && (pin == 7 || pin == 8 || pin == 9)
    }

    fn remap(afio: &mut Afio) {
        afio.rmp_cfg.spi1_rmp_0 = true;
        afio.rmp_cfg3.spi1_rmp_1 = true;
    }
}

impl<T> RemapIO<Spi1, SPI1NoRemapRemapper> for PA4<T> {
    proof fn lemma_wired() {
    }
}

impl<T> RemapIO<Spi1, SPI1NoRemapRemapper> for PA5<T> {
    proof fn lemma_wired() {
    }
}

impl<T> RemapIO<Spi1, SPI1NoRemapRemapper> for PA6<T> {
    proof fn lemma_wired() {
    }
}

impl<T> RemapIO<Spi1, SPI1NoRemapRemapper> for PA7<T> {
    proof fn lemma_wired() {
    }
}

impl<T> RemapIO<Spi1, SPI1PartialRemapOneRemapper> for PA15<T> {
    proof fn lemma_wired() {
    }
}

impl<T> RemapIO<Spi1, SPI1PartialRemapOneRemapper> for PB3<T> {
    proof fn lemma_wired() {
    }
}

impl<T> RemapIO<Spi1, SPI1PartialRemapOneRemapper> for PB4<T> {
    proof fn lemma_wired() {
    }
}

impl<T> RemapIO<Spi1, SPI1PartialRemapOneRemapper> for PB5<T> {
    proof fn lemma_wired() {
    }
}

impl<T> RemapIO<Spi1, SPI1PartialRemapTwoRemapper> for PB2<T> {
    proof fn lemma_wired() {
    }
}

impl<T> RemapIO<Spi1, SPI1PartialRemapTwoRemapper> for PA5<T> {
    proof fn lemma_wired() {
    }
}

impl<T> RemapIO<Spi1, SPI1PartialRemapTwoRemapper> for PA6<T> {
    proof fn lemma_wired() {
    }
}

impl<T> RemapIO<Spi1, SPI1PartialRemapTwoRemapper> for PA7<T> {
    proof fn lemma_wired() {
    }
}

impl<T> RemapIO<Spi1, SPI1FullRemapRemapper> for PB2<T> {
    proof fn lemma_wired() {
    }
}

impl<T> RemapIO<Spi1, SPI1FullRemapRemapper> for PE7<T> {
    proof fn lemma_wired() {
    }
}

impl<T> RemapIO<Spi1, SPI1FullRemapRemapper> for PE8<T> {
    proof fn lemma_wired() {
    }
}

impl<T> RemapIO<Spi1, SPI1FullRemapRemapper> for PE9<T> {
    proof fn lemma_wired() {
    }
}

/// The four settings of SPI1 are told apart by two remap bits. Without
/// remapping both are clear, the first partial remapping sets the low bit,
/// the second partial remapping the high bit, and the full remapping both.
/// Selecting a setting changes no other bit of the remap registers.
pub proof fn lemma_spi1_remap_bits(afio: Afio)
    ensures
        bits_of(SPI1NoRemapRemapper::remapped(afio)) == (false, false),
        bits_of(SPI1PartialRemapOneRemapper::remapped(afio)) == (false, true),
        bits_of(SPI1PartialRemapTwoRemapper::remapped(afio)) == (true, false),
        bits_of(SPI1FullRemapRemapper::remapped(afio)) == (true, true),
        with_bits_of(SPI1NoRemapRemapper::remapped(afio), afio) == afio,
        with_bits_of(SPI1PartialRemapOneRemapper::remapped(afio), afio) == afio,
        with_bits_of(SPI1PartialRemapTwoRemapper::remapped(afio), afio) == afio,
        with_bits_of(SPI1FullRemapRemapper::remapped(afio), afio) == afio,
{
}

/// The two remap bits of SPI1, the high one first.
pub open spec fn bits_of(afio: Afio) -> (bool, bool) {
    (afio.rmp_cfg3.spi1_rmp_1, afio.rmp_cfg.spi1_rmp_0)
}

/// The remap registers `afio` with the two remap bits of SPI1 as they are
/// in `source`.
pub open spec fn with_bits_of(afio: Afio, source: Afio) -> Afio {
    Afio {
        rmp_cfg: crate::pac::RmpCfg { spi1_rmp_0: source.rmp_cfg.spi1_rmp_0, ..afio.rmp_cfg },
        rmp_cfg3: crate::pac::RmpCfg3 { spi1_rmp_1: source.rmp_cfg3.spi1_rmp_1, ..afio.rmp_cfg3 },
        ..afio
    }
}

/// Each pin that SPI1 can use without remapping has its `RemapIO`.
pub proof fn lemma_spi1_no_remap_pins()
    ensures
        SPI1NoRemapRemapper::wired(PORT_A, 4),
        SPI1NoRemapRemapper::wired(PORT_A, 5),
        SPI1NoRemapRemapper::wired(PORT_A, 6),
        SPI1NoRemapRemapper::wired(PORT_A, 7),
{
    lemma_wired_pin::<PA4, Spi1, SPI1NoRemapRemapper>();
    lemma_wired_pin::<PA5, Spi1, SPI1NoRemapRemapper>();
    lemma_wired_pin::<PA6, Spi1, SPI1NoRemapRemapper>();
    lemma_wired_pin::<PA7, Spi1, SPI1NoRemapRemapper>();
}

/// Each pin that SPI1 can use with the first partial remapping has its `RemapIO`.
pub proof fn lemma_spi1_partial_remap_one_pins()
    ensures
        SPI1PartialRemapOneRemapper::wired(PORT_A, 15),
        SPI1PartialRemapOneRemapper::wired(PORT_B, 3),
        SPI1PartialRemapOneRemapper::wired(PORT_B, 4),
        SPI1PartialRemapOneRemapper::wired(PORT_B, 5),
{
    lemma_wired_pin::<PA15, Spi1, SPI1PartialRemapOneRemapper>();
    lemma_wired_pin::<PB3, Spi1, SPI1PartialRemapOneRemapper>();
    lemma_wired_pin::<PB4, Spi1, SPI1PartialRemapOneRemapper>();
    lemma_wired_pin::<PB5, Spi1, SPI1PartialRemapOneRemapper>();
}

/// Each pin that SPI1 can use with the second partial remapping has its `RemapIO`.
pub proof fn lemma_spi1_partial_remap_two_pins()
    ensures
        SPI1PartialRemapTwoRemapper::wired(PORT_B, 2),
        SPI1PartialRemapTwoRemapper::wired(PORT_A, 5),
        SPI1PartialRemapTwoRemapper::wired(PORT_A, 6),
        SPI1PartialRemapTwoRemapper::wired(PORT_A, 7),
{
    lemma_wired_pin::<PB2, Spi1, SPI1PartialRemapTwoRemapper>();
    lemma_wired_pin::<PA5, Spi1, SPI1PartialRemapTwoRemapper>();
    lemma_wired_pin::<PA6, Spi1, SPI1PartialRemapTwoRemapper>();
    lemma_wired_pin::<PA7, Spi1, SPI1PartialRemapTwoRemapper>();
}

/// Each pin that SPI1 can use with the full remapping has its `RemapIO`.
pub proof fn lemma_spi1_full_remap_pins()
    ensures
        SPI1FullRemapRemapper::wired(PORT_B, 2),
        SPI1FullRemapRemapper::wired(PORT_E, 7),
        SPI1FullRemapRemapper::wired(PORT_E, 8),
        SPI1FullRemapRemapper::wired(PORT_E, 9),
{
    lemma_wired_pin::<PB2, Spi1, SPI1FullRemapRemapper>();
    lemma_wired_pin::<PE7, Spi1, SPI1FullRemapRemapper>();
    lemma_wired_pin::<PE8, Spi1, SPI1FullRemapRemapper>();
    lemma_wired_pin::<PE9, Spi1, SPI1FullRemapRemapper>();
}

/// Slave select of Spi1: one of the pins that can carry it, in alternate mode
pub enum Nss<Otype = PushPull> {
    Unconnected(NoPin<Otype>),
    PA4(PA4<Alternate<Otype>>),
    PA15(PA15<Alternate<Otype>>),
    PB2(PB2<Alternate<Otype>>),
}

impl<Otype> Sealed for Nss<Otype> {

}

impl<Otype> ReadPin for Nss<Otype> {
    open spec fn spec_is_low(&self, gpio: Gpio) -> bool {
        match self {
            Self::PA4(p) => p.spec_is_low(gpio),
            Self::PA15(p) => p.spec_is_low(gpio),
            Self::PB2(p) => p.spec_is_low(gpio),
            Self::Unconnected(_) => false,
        }
    }

    fn is_low(&self, gpio: &Gpio) -> (low: bool) {
        match self {
            Self::PA4(p) => p.is_low(gpio),
            Self::PA15(p) => p.is_low(gpio),
            Self::PB2(p) => p.is_low(gpio),
            Self::Unconnected(_) => false,
        }
    }
}

impl<Otype> PinSpeed for Nss<Otype> {
    open spec fn with_speed(&self, gpio: Gpio, speed: Speed) -> Gpio {
        match self {
            Self::PA4(p) => p.with_speed(gpio, speed),
            Self::PA15(p) => p.with_speed(gpio, speed),
            Self::PB2(p) => p.with_speed(gpio, speed),
            Self::Unconnected(_) => gpio,
        }
    }

    fn set_speed(&mut self, gpio: &mut Gpio, speed: Speed) {
        match self {
            Self::PA4(p) => PinSpeed::set_speed(p, gpio, speed),
            Self::PA15(p) => PinSpeed::set_speed(p, gpio, speed),
            Self::PB2(p) => PinSpeed::set_speed(p, gpio, speed),
            Self::Unconnected(_) => {},
        }
    }
}

impl<Otype> Nss<Otype> {
    /// The signal without a pin.
    pub fn from_no_pin<T>(_no: NoPin<T>) -> (signal: Self)
        ensures
            signal is Unconnected,
    {
        Self::Unconnected(NoPin::new())
    }

    /// Puts `PA4` into alternate mode and takes it for the signal.
    pub fn from_pa4<MODE>(p: PA4<MODE>, gpio: &mut Gpio) -> (signal: Self) where
        MODE: NotAlt + PinMode,
        Alternate<Otype>: PinMode,

        ensures
            signal is PA4,
            *final(gpio) == after::<Alternate<Otype>>(*old(gpio), PORT_A, 4),
    {
        Self::PA4(p.into_mode(gpio))
    }

    /// Gives `PA4` back in mode `MODE`, if it carries the signal.
    pub fn try_into_pa4<MODE>(self, gpio: &mut Gpio) -> (pin: Result<PA4<MODE>, ()>) where
        MODE: PinMode,
        Alternate<Otype>: PinMode,

        ensures
            pin is Ok <==> self is PA4,
            pin is Ok ==> *final(gpio) == after::<MODE>(*old(gpio), PORT_A, 4),
            pin is Err ==> *final(gpio) == *old(gpio),
    {
        match self {
            Self::PA4(p) => Ok(p.into_mode(gpio)),
            _ => Err(()),
        }
    }

    /// Puts `PA15` into alternate mode and takes it for the signal.
    pub fn from_pa15<MODE>(p: PA15<MODE>, gpio: &mut Gpio) -> (signal: Self) where
        MODE: NotAlt + PinMode,
        Alternate<Otype>: PinMode,

        ensures
            signal is PA15,
            *final(gpio) == after::<Alternate<Otype>>(*old(gpio), PORT_A, 15),
    {
        Self::PA15(p.into_mode(gpio))
    }

    /// Gives `PA15` back in mode `MODE`, if it carries the signal.
    pub fn try_into_pa15<MODE>(self, gpio: &mut Gpio) -> (pin: Result<PA15<MODE>, ()>) where
        MODE: PinMode,
        Alternate<Otype>: PinMode,

        ensures
            pin is Ok <==> self is PA15,
            pin is Ok ==> *final(gpio) == after::<MODE>(*old(gpio), PORT_A, 15),
            pin is Err ==> *final(gpio) == *old(gpio),
    {
        match self {
            Self::PA15(p) => Ok(p.into_mode(gpio)),
            _ => Err(()),
        }
    }

    /// Puts `PB2` into alternate mode and takes it for the signal.
    pub fn from_pb2<MODE>(p: PB2<MODE>, gpio: &mut Gpio) -> (signal: Self) where
        MODE: NotAlt + PinMode,
        Alternate<Otype>: PinMode,

        ensures
            signal is PB2,
            *final(gpio) == after::<Alternate<Otype>>(*old(gpio), PORT_B, 2),
    {
        Self::PB2(p.into_mode(gpio))
    }

    /// Gives `PB2` back in mode `MODE`, if it carries the signal.
    pub fn try_into_pb2<MODE>(self, gpio: &mut Gpio) -> (pin: Result<PB2<MODE>, ()>) where
        MODE: PinMode,
        Alternate<Otype>: PinMode,

        ensures
            pin is Ok <==> self is PB2,
            pin is Ok ==> *final(gpio) == after::<MODE>(*old(gpio), PORT_B, 2),
            pin is Err ==> *final(gpio) == *old(gpio),
    {
        match self {
            Self::PB2(p) => Ok(p.into_mode(gpio)),
            _ => Err(()),
        }
    }
}

impl<T, Otype> IntoSignal<Nss<Otype>> for NoPin<T> {
    open spec fn taken(gpio: Gpio) -> Gpio {
        gpio
    }

    fn into_signal(self, gpio: &mut Gpio) -> (signal: Nss<Otype>) {
        Nss::from_no_pin(self)
    }
}

impl<MODE, Otype> IntoSignal<Nss<Otype>> for PA4<MODE> where
    MODE: NotAlt + PinMode,
    Alternate<Otype>: PinMode,
 {
    open spec fn taken(gpio: Gpio) -> Gpio {
        after::<Alternate<Otype>>(gpio, PORT_A, 4)
    }

    fn into_signal(self, gpio: &mut Gpio) -> (signal: Nss<Otype>) {
        Nss::from_pa4(self, gpio)
    }
}

impl<Otype> IntoSignal<Nss<Otype>> for PA4<Alternate<Otype>> {
    open spec fn taken(gpio: Gpio) -> Gpio {
        gpio
    }

    fn into_signal(self, gpio: &mut Gpio) -> (signal: Nss<Otype>) {
        Nss::PA4(self)
    }
}

impl<MODE, Otype> IntoSignal<Nss<Otype>> for PA15<MODE> where
    MODE: NotAlt + PinMode,
    Alternate<Otype>: PinMode,
 {
    open spec fn taken(gpio: Gpio) -> Gpio {
        after::<Alternate<Otype>>(gpio, PORT_A, 15)
    }

    fn into_signal(self, gpio: &mut Gpio) -> (signal: Nss<Otype>) {
        Nss::from_pa15(self, gpio)
    }
}

impl<Otype> IntoSignal<Nss<Otype>> for PA15<Alternate<Otype>> {
    open spec fn taken(gpio: Gpio) -> Gpio {
        gpio
    }

    fn into_signal(self, gpio: &mut Gpio) -> (signal: Nss<Otype>) {
        Nss::PA15(self)
    }
}

impl<MODE, Otype> IntoSignal<Nss<Otype>> for PB2<MODE> where
    MODE: NotAlt + PinMode,
    Alternate<Otype>: PinMode,
 {
    open spec fn taken(gpio: Gpio) -> Gpio {
        after::<Alternate<Otype>>(gpio, PORT_B, 2)
    }

    fn into_signal(self, gpio: &mut Gpio) -> (signal: Nss<Otype>) {
        Nss::from_pb2(self, gpio)
    }
}

impl<Otype> IntoSignal<Nss<Otype>> for PB2<Alternate<Otype>> {
    open spec fn taken(gpio: Gpio) -> Gpio {
        gpio
    }

    fn into_signal(self, gpio: &mut Gpio) -> (signal: Nss<Otype>) {
        Nss::PB2(self)
    }
}

/// Serial clock of Spi1: one of the pins that can carry it, in alternate mode
pub enum Sck<Otype = PushPull> {
    Unconnected(NoPin<Otype>),
    PA5(PA5<Alternate<Otype>>),
    PB3(PB3<Alternate<Otype>>),
    PE7(PE7<Alternate<Otype>>),
}

impl<Otype> Sealed for Sck<Otype> {

}

impl<Otype> ReadPin for Sck<Otype> {
    open spec fn spec_is_low(&self, gpio: Gpio) -> bool {
        match self {
            Self::PA5(p) => p.spec_is_low(gpio),
            Self::PB3(p) => p.spec_is_low(gpio),
            Self::PE7(p) => p.spec_is_low(gpio),
            Self::Unconnected(_) => false,
        }
    }

    fn is_low(&self, gpio: &Gpio) -> (low: bool) {
        match self {
            Self::PA5(p) => p.is_low(gpio),
            Self::PB3(p) => p.is_low(gpio),
            Self::PE7(p) => p.is_low(gpio),
            Self::Unconnected(_) => false,
        }
    }
}

impl<Otype> PinSpeed for Sck<Otype> {
    open spec fn with_speed(&self, gpio: Gpio, speed: Speed) -> Gpio {
        match self {
            Self::PA5(p) => p.with_speed(gpio, speed),
            Self::PB3(p) => p.with_speed(gpio, speed),
            Self::PE7(p) => p.with_speed(gpio, speed),
            Self::Unconnected(_) => gpio,
        }
    }

    fn set_speed(&mut self, gpio: &mut Gpio, speed: Speed) {
        match self {
            Self::PA5(p) => PinSpeed::set_speed(p, gpio, speed),
            Self::PB3(p) => PinSpeed::set_speed(p, gpio, speed),
            Self::PE7(p) => PinSpeed::set_speed(p, gpio, speed),
            Self::Unconnected(_) => {},
        }
    }
}

impl<Otype> Sck<Otype> {
    /// The signal without a pin.
    pub fn from_no_pin<T>(_no: NoPin<T>) -> (signal: Self)
        ensures
            signal is Unconnected,
    {
        Self::Unconnected(NoPin::new())
    }

    /// Puts `PA5` into alternate mode and takes it for the signal.
    pub fn from_pa5<MODE>(p: PA5<MODE>, gpio: &mut Gpio) -> (signal: Self) where
        MODE: NotAlt + PinMode,
        Alternate<Otype>: PinMode,

        ensures
            signal is PA5,
            *final(gpio) == after::<Alternate<Otype>>(*old(gpio), PORT_A, 5),
    {
        Self::PA5(p.into_mode(gpio))
    }

    /// Gives `PA5` back in mode `MODE`, if it carries the signal.
    pub fn try_into_pa5<MODE>(self, gpio: &mut Gpio) -> (pin: Result<PA5<MODE>, ()>) where
        MODE: PinMode,
        Alternate<Otype>: PinMode,

        ensures
            pin is Ok <==> self is PA5,
            pin is Ok ==> *final(gpio) == after::<MODE>(*old(gpio), PORT_A, 5),
            pin is Err ==> *final(gpio) == *old(gpio),
    {
        match self {
            Self::PA5(p) => Ok(p.into_mode(gpio)),
            _ => Err(()),
        }
    }

    /// Puts `PB3` into alternate mode and takes it for the signal.
    pub fn from_pb3<MODE>(p: PB3<MODE>, gpio: &mut Gpio) -> (signal: Self) where
        MODE: NotAlt + PinMode,
        Alternate<Otype>: PinMode,

        ensures
            signal is PB3,
            *final(gpio) == after::<Alternate<Otype>>(*old(gpio), PORT_B, 3),
    {
        Self::PB3(p.into_mode(gpio))
    }

    /// Gives `PB3` back in mode `MODE`, if it carries the signal.
    pub fn try_into_pb3<MODE>(self, gpio: &mut Gpio) -> (pin: Result<PB3<MODE>, ()>) where
        MODE: PinMode,
        Alternate<Otype>: PinMode,

        ensures
            pin is Ok <==> self is PB3,
            pin is Ok ==> *final(gpio) == after::<MODE>(*old(gpio), PORT_B, 3),
            pin is Err ==> *final(gpio) == *old(gpio),
    {
        match self {
            Self::PB3(p) => Ok(p.into_mode(gpio)),
            _ => Err(()),
        }
    }

    /// Puts `PE7` into alternate mode and takes it for the signal.
    pub fn from_pe7<MODE>(p: PE7<MODE>, gpio: &mut Gpio) -> (signal: Self) where
        MODE: NotAlt + PinMode,
        Alternate<Otype>: PinMode,

        ensures
            signal is PE7,
            *final(gpio) == after::<Alternate<Otype>>(*old(gpio), PORT_E, 7),
    {
        Self::PE7(p.into_mode(gpio))
    }

    /// Gives `PE7` back in mode `MODE`, if it carries the signal.
    pub fn try_into_pe7<MODE>(self, gpio: &mut Gpio) -> (pin: Result<PE7<MODE>, ()>) where
        MODE: PinMode,
        Alternate<Otype>: PinMode,

        ensures
            pin is Ok <==> self is PE7,
            pin is Ok ==> *final(gpio) == after::<MODE>(*old(gpio), PORT_E, 7),
            pin is Err ==> *final(gpio) == *old(gpio),
    {
        match self {
            Self::PE7(p) => Ok(p.into_mode(gpio)),
            _ => Err(()),
        }
    }
}

impl<T, Otype> IntoSignal<Sck<Otype>> for NoPin<T> {
    open spec fn taken(gpio: Gpio) -> Gpio {
        gpio
    }

    fn into_signal(self, gpio: &mut Gpio) -> (signal: Sck<Otype>) {
        Sck::from_no_pin(self)
    }
}

impl<MODE, Otype> IntoSignal<Sck<Otype>> for PA5<MODE> where
    MODE: NotAlt + PinMode,
    Alternate<Otype>: PinMode,
 {
    open spec fn taken(gpio: Gpio) -> Gpio {
        after::<Alternate<Otype>>(gpio, PORT_A, 5)
    }

    fn into_signal(self, gpio: &mut Gpio) -> (signal: Sck<Otype>) {
        Sck::from_pa5(self, gpio)
    }
}

impl<Otype> IntoSignal<Sck<Otype>> for PA5<Alternate<Otype>> {
    open spec fn taken(gpio: Gpio) -> Gpio {
        gpio
    }

    fn into_signal(self, gpio: &mut Gpio) -> (signal: Sck<Otype>) {
        Sck::PA5(self)
    }
}

impl<MODE, Otype> IntoSignal<Sck<Otype>> for PB3<MODE> where
    MODE: NotAlt + PinMode,
    Alternate<Otype>: PinMode,
 {
    open spec fn taken(gpio: Gpio) -> Gpio {
        after::<Alternate<Otype>>(gpio, PORT_B, 3)
    }

    fn into_signal(self, gpio: &mut Gpio) -> (signal: Sck<Otype>) {
        Sck::from_pb3(self, gpio)
    }
}

impl<Otype> IntoSignal<Sck<Otype>> for PB3<Alternate<Otype>> {
    open spec fn taken(gpio: Gpio) -> Gpio {
        gpio
    }

    fn into_signal(self, gpio: &mut Gpio) -> (signal: Sck<Otype>) {
        Sck::PB3(self)
    }
}

impl<MODE, Otype> IntoSignal<Sck<Otype>> for PE7<MODE> where
    MODE: NotAlt + PinMode,
    Alternate<Otype>: PinMode,
 {
    open spec fn taken(gpio: Gpio) -> Gpio {
        after::<Alternate<Otype>>(gpio, PORT_E, 7)
    }

    fn into_signal(self, gpio: &mut Gpio) -> (signal: Sck<Otype>) {
        Sck::from_pe7(self, gpio)
    }
}

impl<Otype> IntoSignal<Sck<Otype>> for PE7<Alternate<Otype>> {
    open spec fn taken(gpio: Gpio) -> Gpio {
        gpio
    }

    fn into_signal(self, gpio: &mut Gpio) -> (signal: Sck<Otype>) {
        Sck::PE7(self)
    }
}

/// Master in, slave out of Spi1: one of the pins that can carry it, in alternate mode
pub enum Miso<Otype = Input> {
    Unconnected(NoPin<Otype>),
    PA6(PA6<Alternate<Otype>>),
    PB4(PB4<Alternate<Otype>>),
    PE8(PE8<Alternate<Otype>>),
}

impl<Otype> Sealed for Miso<Otype> {

}

impl<Otype> ReadPin for Miso<Otype> {
    open spec fn spec_is_low(&self, gpio: Gpio) -> bool {
        match self {
            Self::PA6(p) => p.spec_is_low(gpio),
            Self::PB4(p) => p.spec_is_low(gpio),
            Self::PE8(p) => p.spec_is_low(gpio),
            Self::Unconnected(_) => false,
        }
    }

    fn is_low(&self, gpio: &Gpio) -> (low: bool) {
        match self {
            Self::PA6(p) => p.is_low(gpio),
            Self::PB4(p) => p.is_low(gpio),
            Self::PE8(p) => p.is_low(gpio),
            Self::Unconnected(_) => false,
        }
    }
}

impl<Otype> PinSpeed for Miso<Otype> {
    open spec fn with_speed(&self, gpio: Gpio, speed: Speed) -> Gpio {
        match self {
            Self::PA6(p) => p.with_speed(gpio, speed),
            Self::PB4(p) => p.with_speed(gpio, speed),
            Self::PE8(p) => p.with_speed(gpio, speed),
            Self::Unconnected(_) => gpio,
        }
    }

    fn set_speed(&mut self, gpio: &mut Gpio, speed: Speed) {
        match self {
            Self::PA6(p) => PinSpeed::set_speed(p, gpio, speed),
            Self::PB4(p) => PinSpeed::set_speed(p, gpio, speed),
            Self::PE8(p) => PinSpeed::set_speed(p, gpio, speed),
            Self::Unconnected(_) => {},
        }
    }
}

impl<Otype> Miso<Otype> {
    /// The signal without a pin.
    pub fn from_no_pin<T>(_no: NoPin<T>) -> (signal: Self)
        ensures
            signal is Unconnected,
    {
        Self::Unconnected(NoPin::new())
    }

    /// Puts `PA6` into alternate mode and takes it for the signal.
    pub fn from_pa6<MODE>(p: PA6<MODE>, gpio: &mut Gpio) -> (signal: Self) where
        MODE: NotAlt + PinMode,
        Alternate<Otype>: PinMode,

        ensures
            signal is PA6,
            *final(gpio) == after::<Alternate<Otype>>(*old(gpio), PORT_A, 6),
    {
        Self::PA6(p.into_mode(gpio))
    }

    /// Gives `PA6` back in mode `MODE`, if it carries the signal.
    pub fn try_into_pa6<MODE>(self, gpio: &mut Gpio) -> (pin: Result<PA6<MODE>, ()>) where
        MODE: PinMode,
        Alternate<Otype>: PinMode,

        ensures
            pin is Ok <==> self is PA6,
            pin is Ok ==> *final(gpio) == after::<MODE>(*old(gpio), PORT_A, 6),
            pin is Err ==> *final(gpio) == *old(gpio),
    {
        match self {
            Self::PA6(p) => Ok(p.into_mode(gpio)),
            _ => Err(()),
        }
    }

    /// Puts `PB4` into alternate mode and takes it for the signal.
    pub fn from_pb4<MODE>(p: PB4<MODE>, gpio: &mut Gpio) -> (signal: Self) where
        MODE: NotAlt + PinMode,
        Alternate<Otype>: PinMode,

        ensures
            signal is PB4,
            *final(gpio) == after::<Alternate<Otype>>(*old(gpio), PORT_B, 4),
    {
        Self::PB4(p.into_mode(gpio))
    }

    /// Gives `PB4` back in mode `MODE`, if it carries the signal.
    pub fn try_into_pb4<MODE>(self, gpio: &mut Gpio) -> (pin: Result<PB4<MODE>, ()>) where
        MODE: PinMode,
        Alternate<Otype>: PinMode,

        ensures
            pin is Ok <==> self is PB4,
            pin is Ok ==> *final(gpio) == after::<MODE>(*old(gpio), PORT_B, 4),
            pin is Err ==> *final(gpio) == *old(gpio),
    {
        match self {
            Self::PB4(p) => Ok(p.into_mode(gpio)),
            _ => Err(()),
        }
    }

    /// Puts `PE8` into alternate mode and takes it for the signal.
    pub fn from_pe8<MODE>(p: PE8<MODE>, gpio: &mut Gpio) -> (signal: Self) where
        MODE: NotAlt + PinMode,
        Alternate<Otype>: PinMode,

        ensures
            signal is PE8,
            *final(gpio) == after::<Alternate<Otype>>(*old(gpio), PORT_E, 8),
    {
        Self::PE8(p.into_mode(gpio))
    }

    /// Gives `PE8` back in mode `MODE`, if it carries the signal.
    pub fn try_into_pe8<MODE>(self, gpio: &mut Gpio) -> (pin: Result<PE8<MODE>, ()>) where
        MODE: PinMode,
        Alternate<Otype>: PinMode,

        ensures
            pin is Ok <==> self is PE8,
            pin is Ok ==> *final(gpio) == after::<MODE>(*old(gpio), PORT_E, 8),
            pin is Err ==> *final(gpio) == *old(gpio),
    {
        match self {
            Self::PE8(p) => Ok(p.into_mode(gpio)),
            _ => Err(()),
        }
    }
}

impl<T, Otype> IntoSignal<Miso<Otype>> for NoPin<T> {
    open spec fn taken(gpio: Gpio) -> Gpio {
        gpio
    }

    fn into_signal(self, gpio: &mut Gpio) -> (signal: Miso<Otype>) {
        Miso::from_no_pin(self)
    }
}

impl<MODE, Otype> IntoSignal<Miso<Otype>> for PA6<MODE> where
    MODE: NotAlt + PinMode,
    Alternate<Otype>: PinMode,
 {
    open spec fn taken(gpio: Gpio) -> Gpio {
        after::<Alternate<Otype>>(gpio, PORT_A, 6)
    }

    fn into_signal(self, gpio: &mut Gpio) -> (signal: Miso<Otype>) {
        Miso::from_pa6(self, gpio)
    }
}

impl<Otype> IntoSignal<Miso<Otype>> for PA6<Alternate<Otype>> {
    open spec fn taken(gpio: Gpio) -> Gpio {
        gpio
    }

    fn into_signal(self, gpio: &mut Gpio) -> (signal: Miso<Otype>) {
        Miso::PA6(self)
    }
}

impl<MODE, Otype> IntoSignal<Miso<Otype>> for PB4<MODE> where
    MODE: NotAlt + PinMode,
    Alternate<Otype>: PinMode,
 {
    open spec fn taken(gpio: Gpio) -> Gpio {
        after::<Alternate<Otype>>(gpio, PORT_B, 4)
    }

    fn into_signal(self, gpio: &mut Gpio) -> (signal: Miso<Otype>) {
        Miso::from_pb4(self, gpio)
    }
}

impl<Otype> IntoSignal<Miso<Otype>> for PB4<Alternate<Otype>> {
    open spec fn taken(gpio: Gpio) -> Gpio {
        gpio
    }

    fn into_signal(self, gpio: &mut Gpio) -> (signal: Miso<Otype>) {
        Miso::PB4(self)
    }
}

impl<MODE, Otype> IntoSignal<Miso<Otype>> for PE8<MODE> where
    MODE: NotAlt + PinMode,
    Alternate<Otype>: PinMode,
 {
    open spec fn taken(gpio: Gpio) -> Gpio {
        after::<Alternate<Otype>>(gpio, PORT_E, 8)
    }

    fn into_signal(self, gpio: &mut Gpio) -> (signal: Miso<Otype>) {
        Miso::from_pe8(self, gpio)
    }
}

impl<Otype> IntoSignal<Miso<Otype>> for PE8<Alternate<Otype>> {
    open spec fn taken(gpio: Gpio) -> Gpio {
        gpio
    }

    fn into_signal(self, gpio: &mut Gpio) -> (signal: Miso<Otype>) {
        Miso::PE8(self)
    }
}

/// Master out, slave in of Spi1: one of the pins that can carry it, in alternate mode
pub enum Mosi<Otype = PushPull> {
    Unconnected(NoPin<Otype>),
    PA7(PA7<Alternate<Otype>>),
    PB5(PB5<Alternate<Otype>>),
    PE9(PE9<Alternate<Otype>>),
}

impl<Otype> Sealed for Mosi<Otype> {

}

impl<Otype> ReadPin for Mosi<Otype> {
    open spec fn spec_is_low(&self, gpio: Gpio) -> bool {
        match self {
            Self::PA7(p) => p.spec_is_low(gpio),
            Self::PB5(p) => p.spec_is_low(gpio),
            Self::PE9(p) => p.spec_is_low(gpio),
            Self::Unconnected(_) => false,
        }
    }

    fn is_low(&self, gpio: &Gpio) -> (low: bool) {
        match self {
            Self::PA7(p) => p.is_low(gpio),
            Self::PB5(p) => p.is_low(gpio),
            Self::PE9(p) => p.is_low(gpio),
            Self::Unconnected(_) => false,
        }
    }
}

impl<Otype> PinSpeed for Mosi<Otype> {
    open spec fn with_speed(&self, gpio: Gpio, speed: Speed) -> Gpio {
        match self {
            Self::PA7(p) => p.with_speed(gpio, speed),
            Self::PB5(p) => p.with_speed(gpio, speed),
            Self::PE9(p) => p.with_speed(gpio, speed),
            Self::Unconnected(_) => gpio,
        }
    }

    fn set_speed(&mut self, gpio: &mut Gpio, speed: Speed) {
        match self {
            Self::PA7(p) => PinSpeed::set_speed(p, gpio, speed),
            Self::PB5(p) => PinSpeed::set_speed(p, gpio, speed),
            Self::PE9(p) => PinSpeed::set_speed(p, gpio, speed),
            Self::Unconnected(_) => {},
        }
    }
}

impl<Otype> Mosi<Otype> {
    /// The signal without a pin.
    pub fn from_no_pin<T>(_no: NoPin<T>) -> (signal: Self)
        ensures
            signal is Unconnected,
    {
        Self::Unconnected(NoPin::new())
    }

    /// Puts `PA7` into alternate mode and takes it for the signal.
    pub fn from_pa7<MODE>(p: PA7<MODE>, gpio: &mut Gpio) -> (signal: Self) where
        MODE: NotAlt + PinMode,
        Alternate<Otype>: PinMode,

        ensures
            signal is PA7,
            *final(gpio) == after::<Alternate<Otype>>(*old(gpio), PORT_A, 7),
    {
        Self::PA7(p.into_mode(gpio))
    }

    /// Gives `PA7` back in mode `MODE`, if it carries the signal.
    pub fn try_into_pa7<MODE>(self, gpio: &mut Gpio) -> (pin: Result<PA7<MODE>, ()>) where
        MODE: PinMode,
        Alternate<Otype>: PinMode,

        ensures
            pin is Ok <==> self is PA7,
            pin is Ok ==> *final(gpio) == after::<MODE>(*old(gpio), PORT_A, 7),
            pin is Err ==> *final(gpio) == *old(gpio),
    {
        match self {
            Self::PA7(p) => Ok(p.into_mode(gpio)),
            _ => Err(()),
        }
    }

    /// Puts `PB5` into alternate mode and takes it for the signal.
    pub fn from_pb5<MODE>(p: PB5<MODE>, gpio: &mut Gpio) -> (signal: Self) where
        MODE: NotAlt + PinMode,
        Alternate<Otype>: PinMode,

        ensures
            signal is PB5,
            *final(gpio) == after::<Alternate<Otype>>(*old(gpio), PORT_B, 5),
    {
        Self::PB5(p.into_mode(gpio))
    }

    /// Gives `PB5` back in mode `MODE`, if it carries the signal.
    pub fn try_into_pb5<MODE>(self, gpio: &mut Gpio) -> (pin: Result<PB5<MODE>, ()>) where
        MODE: PinMode,
        Alternate<Otype>: PinMode,

        ensures
            pin is Ok <==> self is PB5,
            pin is Ok ==> *final(gpio) == after::<MODE>(*old(gpio), PORT_B, 5),
            pin is Err ==> *final(gpio) == *old(gpio),
    {
        match self {
            Self::PB5(p) => Ok(p.into_mode(gpio)),
            _ => Err(()),
        }
    }

    /// Puts `PE9` into alternate mode and takes it for the signal.
    pub fn from_pe9<MODE>(p: PE9<MODE>, gpio: &mut Gpio) -> (signal: Self) where
        MODE: NotAlt + PinMode,
        Alternate<Otype>: PinMode,

        ensures
            signal is PE9,
            *final(gpio) == after::<Alternate<Otype>>(*old(gpio), PORT_E, 9),
    {
        Self::PE9(p.into_mode(gpio))
    }

    /// Gives `PE9` back in mode `MODE`, if it carries the signal.
    pub fn try_into_pe9<MODE>(self, gpio: &mut Gpio) -> (pin: Result<PE9<MODE>, ()>) where
        MODE: PinMode,
        Alternate<Otype>: PinMode,

        ensures
            pin is Ok <==> self is PE9,
            pin is Ok ==> *final(gpio) == after::<MODE>(*old(gpio), PORT_E, 9),
            pin is Err ==> *final(gpio) == *old(gpio),
    {
        match self {
            Self::PE9(p) => Ok(p.into_mode(gpio)),
            _ => Err(()),
        }
    }
}

impl<T, Otype> IntoSignal<Mosi<Otype>> for NoPin<T> {
    open spec fn taken(gpio: Gpio) -> Gpio {
        gpio
    }

    fn into_signal(self, gpio: &mut Gpio) -> (signal: Mosi<Otype>) {
        Mosi::from_no_pin(self)
    }
}

impl<MODE, Otype> IntoSignal<Mosi<Otype>> for PA7<MODE> where
    MODE: NotAlt + PinMode,
    Alternate<Otype>: PinMode,
 {
    open spec fn taken(gpio: Gpio) -> Gpio {
        after::<Alternate<Otype>>(gpio, PORT_A, 7)
    }

    fn into_signal(self, gpio: &mut Gpio) -> (signal: Mosi<Otype>) {
        Mosi::from_pa7(self, gpio)
    }
}

impl<Otype> IntoSignal<Mosi<Otype>> for PA7<Alternate<Otype>> {
    open spec fn taken(gpio: Gpio) -> Gpio {
        gpio
    }

    fn into_signal(self, gpio: &mut Gpio) -> (signal: Mosi<Otype>) {
        Mosi::PA7(self)
    }
}

impl<MODE, Otype> IntoSignal<Mosi<Otype>> for PB5<MODE> where
    MODE: NotAlt + PinMode,
    Alternate<Otype>: PinMode,
 {
    open spec fn taken(gpio: Gpio) -> Gpio {
        after::<Alternate<Otype>>(gpio, PORT_B, 5)
    }

    fn into_signal(self, gpio: &mut Gpio) -> (signal: Mosi<Otype>) {
        Mosi::from_pb5(self, gpio)
    }
}

impl<Otype> IntoSignal<Mosi<Otype>> for PB5<Alternate<Otype>> {
    open spec fn taken(gpio: Gpio) -> Gpio {
        gpio
    }

    fn into_signal(self, gpio: &mut Gpio) -> (signal: Mosi<Otype>) {
        Mosi::PB5(self)
    }
}

impl<MODE, Otype> IntoSignal<Mosi<Otype>> for PE9<MODE> where
    MODE: NotAlt + PinMode,
    Alternate<Otype>: PinMode,
 {
    open spec fn taken(gpio: Gpio) -> Gpio {
        after::<Alternate<Otype>>(gpio, PORT_E, 9)
    }

    fn into_signal(self, gpio: &mut Gpio) -> (signal: Mosi<Otype>) {
        Mosi::from_pe9(self, gpio)
    }
}

impl<Otype> IntoSignal<Mosi<Otype>> for PE9<Alternate<Otype>> {
    open spec fn taken(gpio: Gpio) -> Gpio {
        gpio
    }

    fn into_signal(self, gpio: &mut Gpio) -> (signal: Mosi<Otype>) {
        Mosi::PE9(self)
    }
}

impl SpiCommon for Spi1 {
    type Sck = Sck;

    type Miso = Miso;

    type Mosi = Mosi;

    type Nss = Nss;
}

} // verus!
