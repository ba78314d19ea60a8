//! SPI3: where its signals can be routed to, and how.

use vstd::prelude::*;
use crate::gpio::Alternate;
use crate::gpio::Input;
use crate::gpio::NoPin;
use crate::gpio::PinMode;
use crate::gpio::PinSpeed;
use crate::gpio::PushPull;
use crate::gpio::ReadPin;
use crate::gpio::Speed;
use crate::gpio::alt::IntoSignal;
use crate::gpio::alt::SpiCommon;
use crate::gpio::alt::altmap::Remap;
use crate::gpio::alt::altmap::RemapIO;
use crate::gpio::alt::altmap::lemma_wired_pin;
use crate::gpio::convert::after;
use crate::gpio::marker::NotAlt;
use crate::gpio::port::PORT_A;
use crate::gpio::port::PORT_B;
use crate::gpio::port::PORT_C;
use crate::gpio::port::PORT_D;
use crate::pac::Afio;
use crate::pac::Gpio;
use crate::pac::Spi3;
use crate::sealed::Sealed;
use crate::gpio::PA0;
use crate::gpio::PA1;
use crate::gpio::PA15;
use crate::gpio::PB3;
use crate::gpio::PB4;
use crate::gpio::PB5;
use crate::gpio::PC2;
use crate::gpio::PC3;
use crate::gpio::PC10;
use crate::gpio::PC11;
use crate::gpio::PC12;
use crate::gpio::PD2;
use crate::gpio::PD8;
use crate::gpio::PD9;
use crate::gpio::PD11;
use crate::gpio::PD12;

verus! {

/// SPI3 without remapping
pub struct SPI3NoRemapRemapper();

/// SPI3 with the first partial remapping
pub struct SPI3PartialRemapOneRemapper();

/// SPI3 with the second partial remapping
pub struct SPI3PartialRemapTwoRemapper();

/// SPI3 with the full remapping
pub struct SPI3FullRemapRemapper();

impl Remap for SPI3NoRemapRemapper {
    open spec fn remapped(afio: Afio) -> Afio {
        Afio {
            rmp_cfg3: crate::pac::RmpCfg3 { spi3_rmp: 0, ..afio.rmp_cfg3 },
            ..afio
        }
    }

    open spec fn wired(port: u8, pin: u8) -> bool {
        ||| port == PORT_A && pin == 15
        ||| port == PORT_B && (pin == 3 || pin == 4 || pin == 5)
    }

    fn remap(afio: &mut Afio) {
        afio.rmp_cfg3.spi3_rmp = 0;
    }
}

impl Remap for SPI3PartialRemapOneRemapper {
    open spec fn remapped(afio: Afio) -> Afio {
        Afio {
            rmp_cfg3: crate::pac::RmpCfg3 { spi3_rmp: 1, ..afio.rmp_cfg3 },
            ..afio
        }
    }

    open spec fn wired(port: u8, pin: u8) -> bool {
        ||| port == PORT_D && pin == 2
        ||| port == PORT_C && (pin == 10 || pin == 11 || pin == 12)
    }

    fn remap(afio: &mut Afio) {
        afio.rmp_cfg3.spi3_rmp = 1;
    }
}

impl Remap for SPI3PartialRemapTwoRemapper {
    open spec fn remapped(afio: Afio) -> Afio {
        Afio {
            rmp_cfg3: crate::pac::RmpCfg3 { spi3_rmp: 2, ..afio.rmp_cfg3 },
            ..afio
        }
    }

    open spec fn wired(port: u8, pin: u8) -> bool {
        port == PORT_D && (pin == 8 || pin == 9 || pin == 11 || pin == 12)
    }

    fn remap(afio: &mut Afio) {
        afio.rmp_cfg3.spi3_rmp = 2;
    }
}

impl Remap for SPI3FullRemapRemapper {
    open spec fn remapped(afio: Afio) -> Afio {
        Afio {
            rmp_cfg3: crate::pac::RmpCfg3 { spi3_rmp: 3, ..afio.rmp_cfg3 },
            ..afio
        }
    }

    open spec fn wired(port: u8, pin: u8) -> bool {
        ||| port == PORT_C && (pin == 2 || pin == 3)
        ||| port == PORT_A && (pin == 0 || pin == 1)
    }

    fn remap(afio: &mut Afio) {
        afio.rmp_cfg3.spi3_rmp = 3;
    }
}

impl<T> RemapIO<Spi3, SPI3NoRemapRemapper> for PA15<T> {
    proof fn lemma_wired() {
    }
}

impl<T> RemapIO<Spi3, SPI3NoRemapRemapper> for PB3<T> {
    proof fn lemma_wired() {
    }
}

impl<T> RemapIO<Spi3, SPI3NoRemapRemapper> for PB4<T> {
    proof fn lemma_wired() {
    }
}

impl<T> RemapIO<Spi3, SPI3NoRemapRemapper> for PB5<T> {
    proof fn lemma_wired() {
    }
}

impl<T> RemapIO<Spi3, SPI3PartialRemapOneRemapper> for PD2<T> {
    proof fn lemma_wired() {
    }
}

impl<T> RemapIO<Spi3, SPI3PartialRemapOneRemapper> for PC10<T> {
    proof fn lemma_wired() {
    }
}

impl<T> RemapIO<Spi3, SPI3PartialRemapOneRemapper> for PC11<T> {
    proof fn lemma_wired() {
    }
}

impl<T> RemapIO<Spi3, SPI3PartialRemapOneRemapper> for PC12<T> {
    proof fn lemma_wired() {
    }
}

impl<T> RemapIO<Spi3, SPI3PartialRemapTwoRemapper> for PD8<T> {
    proof fn lemma_wired() {
    }
}

impl<T> RemapIO<Spi3, SPI3PartialRemapTwoRemapper> for PD9<T> {
    proof fn lemma_wired() {
    }
}

impl<T> RemapIO<Spi3, SPI3PartialRemapTwoRemapper> for PD11<T> {
    proof fn lemma_wired() {
    }
}

impl<T> RemapIO<Spi3, SPI3PartialRemapTwoRemapper> for PD12<T> {
    proof fn lemma_wired() {
    }
}

impl<T> RemapIO<Spi3, SPI3FullRemapRemapper> for PC2<T> {
    proof fn lemma_wired() {
    }
}

impl<T> RemapIO<Spi3, SPI3FullRemapRemapper> for PC3<T> {
    proof fn lemma_wired() {
    }
}

impl<T> RemapIO<Spi3, SPI3FullRemapRemapper> for PA0<T> {
    proof fn lemma_wired() {
    }
}

impl<T> RemapIO<Spi3, SPI3FullRemapRemapper> for PA1<T> {
    proof fn lemma_wired() {
    }
}

/// Each pin that SPI3 can use without remapping has its `RemapIO`.
pub proof fn lemma_spi3_no_remap_pins()
    ensures
        SPI3NoRemapRemapper::wired(PORT_A, 15),
        SPI3NoRemapRemapper::wired(PORT_B, 3),
        SPI3NoRemapRemapper::wired(PORT_B, 4),
        SPI3NoRemapRemapper::wired(PORT_B, 5),
{
    lemma_wired_pin::<PA15, Spi3, SPI3NoRemapRemapper>();
    lemma_wired_pin::<PB3, Spi3, SPI3NoRemapRemapper>();
    lemma_wired_pin::<PB4, Spi3, SPI3NoRemapRemapper>();
    lemma_wired_pin::<PB5, Spi3, SPI3NoRemapRemapper>();
}

/// Each pin that SPI3 can use with the first partial remapping has its `RemapIO`.
pub proof fn lemma_spi3_partial_remap_one_pins()
    ensures
        SPI3PartialRemapOneRemapper::wired(PORT_D, 2),
        SPI3PartialRemapOneRemapper::wired(PORT_C, 10),
        SPI3PartialRemapOneRemapper::wired(PORT_C, 11),
        SPI3PartialRemapOneRemapper::wired(PORT_C, 12),
{
    lemma_wired_pin::<PD2, Spi3, SPI3PartialRemapOneRemapper>();
    lemma_wired_pin::<PC10, Spi3, SPI3PartialRemapOneRemapper>();
    lemma_wired_pin::<PC11, Spi3, SPI3PartialRemapOneRemapper>();
    lemma_wired_pin::<PC12, Spi3, SPI3PartialRemapOneRemapper>();
}

/// Each pin that SPI3 can use with the second partial remapping has its `RemapIO`.
pub proof fn lemma_spi3_partial_remap_two_pins()
    ensures
        SPI3PartialRemapTwoRemapper::wired(PORT_D, 8),
        SPI3PartialRemapTwoRemapper::wired(PORT_D, 9),
        SPI3PartialRemapTwoRemapper::wired(PORT_D, 11),
        SPI3PartialRemapTwoRemapper::wired(PORT_D, 12),
{
    lemma_wired_pin::<PD8, Spi3, SPI3PartialRemapTwoRemapper>();
    lemma_wired_pin::<PD9, Spi3, SPI3PartialRemapTwoRemapper>();
    lemma_wired_pin::<PD11, Spi3, SPI3PartialRemapTwoRemapper>();
    lemma_wired_pin::<PD12, Spi3, SPI3PartialRemapTwoRemapper>();
}

/// Each pin that SPI3 can use with the full remapping has its `RemapIO`.
pub proof fn lemma_spi3_full_remap_pins()
    ensures
        SPI3FullRemapRemapper::wired(PORT_C, 2),
        SPI3FullRemapRemapper::wired(PORT_C, 3),
        SPI3FullRemapRemapper::wired(PORT_A, 0),
        SPI3FullRemapRemapper::wired(PORT_A, 1),
{
    lemma_wired_pin::<PC2, Spi3, SPI3FullRemapRemapper>();
    lemma_wired_pin::<PC3, Spi3, SPI3FullRemapRemapper>();
    lemma_wired_pin::<PA0, Spi3, SPI3FullRemapRemapper>();
    lemma_wired_pin::<PA1, Spi3, SPI3FullRemapRemapper>();
}

/// Slave select of Spi3: one of the pins that can carry it, in alternate mode
pub enum Nss<Otype = PushPull> {
    Unconnected(NoPin<Otype>),
    PA15(PA15<Alternate<Otype>>),
    PD2(PD2<Alternate<Otype>>),
    PD8(PD8<Alternate<Otype>>),
    PC2(PC2<Alternate<Otype>>),
}

impl<Otype> Sealed for Nss<Otype> {

}

impl<Otype> ReadPin for Nss<Otype> {
    open spec fn spec_is_low(&self, gpio: Gpio) -> bool {
        match self {
            Self::PA15(p) => p.spec_is_low(gpio),
            Self::PD2(p) => p.spec_is_low(gpio),
            Self::PD8(p) => p.spec_is_low(gpio),
            Self::PC2(p) => p.spec_is_low(gpio),
            Self::Unconnected(_) => false,
        }
    }

    fn is_low(&self, gpio: &Gpio) -> (low: bool) {
        match self {
            Self::PA15(p) => p.is_low(gpio),
            Self::PD2(p) => p.is_low(gpio),
            Self::PD8(p) => p.is_low(gpio),
            Self::PC2(p) => p.is_low(gpio),
            Self::Unconnected(_) => false,
        }
    }
}

impl<Otype> PinSpeed for Nss<Otype> {
    open spec fn with_speed(&self, gpio: Gpio, speed: Speed) -> Gpio {
        match self {
            Self::PA15(p) => p.with_speed(gpio, speed),
            Self::PD2(p) => p.with_speed(gpio, speed),
            Self::PD8(p) => p.with_speed(gpio, speed),
            Self::PC2(p) => p.with_speed(gpio, speed),
            Self::Unconnected(_) => gpio,
        }
    }

    fn set_speed(&mut self, gpio: &mut Gpio, speed: Speed) {
        match self {
            Self::PA15(p) => PinSpeed::set_speed(p, gpio, speed),
            Self::PD2(p) => PinSpeed::set_speed(p, gpio, speed),
            Self::PD8(p) => PinSpeed::set_speed(p, gpio, speed),
            Self::PC2(p) => PinSpeed::set_speed(p, gpio, speed),
            Self::Unconnected(_) => {},
        }
    }
}

impl<Otype> Nss<Otype> {
    /// The signal without a pin.
    pub fn from_no_pin<T>(_no: NoPin<T>) -> (signal: Self)
        ensures
            signal is Unconnected,
    {
        Self::Unconnected(NoPin::new())
    }

    /// Puts `PA15` into alternate mode and takes it for the signal.
    pub fn from_pa15<MODE>(p: PA15<MODE>, gpio: &mut Gpio) -> (signal: Self) where
        MODE: NotAlt + PinMode,
        Alternate<Otype>: PinMode,

        ensures
            signal is PA15,
            *final(gpio) == after::<Alternate<Otype>>(*old(gpio), PORT_A, 15),
    {
        Self::PA15(p.into_mode(gpio))
    }

    /// Gives `PA15` back in mode `MODE`, if it carries the signal.
    pub fn try_into_pa15<MODE>(self, gpio: &mut Gpio) -> (pin: Result<PA15<MODE>, ()>) where
        MODE: PinMode,
        Alternate<Otype>: PinMode,

        ensures
            pin is Ok <==> self is PA15,
            pin is Ok ==> *final(gpio) == after::<MODE>(*old(gpio), PORT_A, 15),
            pin is Err ==> *final(gpio) == *old(gpio),
    {
        match self {
            Self::PA15(p) => Ok(p.into_mode(gpio)),
            _ => Err(()),
        }
    }

    /// Puts `PD2` into alternate mode and takes it for the signal.
    pub fn from_pd2<MODE>(p: PD2<MODE>, gpio: &mut Gpio) -> (signal: Self) where
        MODE: NotAlt + PinMode,
        Alternate<Otype>: PinMode,

        ensures
            signal is PD2,
            *final(gpio) == after::<Alternate<Otype>>(*old(gpio), PORT_D, 2),
    {
        Self::PD2(p.into_mode(gpio))
    }

    /// Gives `PD2` back in mode `MODE`, if it carries the signal.
    pub fn try_into_pd2<MODE>(self, gpio: &mut Gpio) -> (pin: Result<PD2<MODE>, ()>) where
        MODE: PinMode,
        Alternate<Otype>: PinMode,

        ensures
            pin is Ok <==> self is PD2,
            pin is Ok ==> *final(gpio) == after::<MODE>(*old(gpio), PORT_D, 2),
            pin is Err ==> *final(gpio) == *old(gpio),
    {
        match self {
            Self::PD2(p) => Ok(p.into_mode(gpio)),
            _ => Err(()),
        }
    }

    /// Puts `PD8` into alternate mode and takes it for the signal.
    pub fn from_pd8<MODE>(p: PD8<MODE>, gpio: &mut Gpio) -> (signal: Self) where
        MODE: NotAlt + PinMode,
        Alternate<Otype>: PinMode,

        ensures
            signal is PD8,
            *final(gpio) == after::<Alternate<Otype>>(*old(gpio), PORT_D, 8),
    {
        Self::PD8(p.into_mode(gpio))
    }

    /// Gives `PD8` back in mode `MODE`, if it carries the signal.
    pub fn try_into_pd8<MODE>(self, gpio: &mut Gpio) -> (pin: Result<PD8<MODE>, ()>) where
        MODE: PinMode,
        Alternate<Otype>: PinMode,

        ensures
            pin is Ok <==> self is PD8,
            pin is Ok ==> *final(gpio) == after::<MODE>(*old(gpio), PORT_D, 8),
            pin is Err ==> *final(gpio) == *old(gpio),
    {
        match self {
            Self::PD8(p) => Ok(p.into_mode(gpio)),
            _ => Err(()),
        }
    }

    /// Puts `PC2` into alternate mode and takes it for the signal.
    pub fn from_pc2<MODE>(p: PC2<MODE>, gpio: &mut Gpio) -> (signal: Self) where
        MODE: NotAlt + PinMode,
        Alternate<Otype>: PinMode,

        ensures
            signal is PC2,
            *final(gpio) == after::<Alternate<Otype>>(*old(gpio), PORT_C, 2),
    {
        Self::PC2(p.into_mode(gpio))
    }

    /// Gives `PC2` back in mode `MODE`, if it carries the signal.
    pub fn try_into_pc2<MODE>(self, gpio: &mut Gpio) -> (pin: Result<PC2<MODE>, ()>) where
        MODE: PinMode,
        Alternate<Otype>: PinMode,

        ensures
            pin is Ok <==> self is PC2,
            pin is Ok ==> *final(gpio) == after::<MODE>(*old(gpio), PORT_C, 2),
            pin is Err ==> *final(gpio) == *old(gpio),
    {
        match self {
            Self::PC2(p) => Ok(p.into_mode(gpio)),
            _ => Err(()),
        }
    }
}

impl<T, Otype> IntoSignal<Nss<Otype>> for NoPin<T> {
    open spec fn taken(gpio: Gpio) -> Gpio {
        gpio
    }

    fn into_signal(self, gpio: &mut Gpio) -> (signal: Nss<Otype>) {
        Nss::from_no_pin(self)
    }
}

impl<MODE, Otype> IntoSignal<Nss<Otype>> for PA15<MODE> where
    MODE: NotAlt + PinMode,
    Alternate<Otype>: PinMode,
 {
    open spec fn taken(gpio: Gpio) -> Gpio {
        after::<Alternate<Otype>>(gpio, PORT_A, 15)
    }

    fn into_signal(self, gpio: &mut Gpio) -> (signal: Nss<Otype>) {
        Nss::from_pa15(self, gpio)
    }
}

impl<Otype> IntoSignal<Nss<Otype>> for PA15<Alternate<Otype>> {
    open spec fn taken(gpio: Gpio) -> Gpio {
        gpio
    }

    fn into_signal(self, gpio: &mut Gpio) -> (signal: Nss<Otype>) {
        Nss::PA15(self)
    }
}

impl<MODE, Otype> IntoSignal<Nss<Otype>> for PD2<MODE> where
    MODE: NotAlt + PinMode,
    Alternate<Otype>: PinMode,
 {
    open spec fn taken(gpio: Gpio) -> Gpio {
        after::<Alternate<Otype>>(gpio, PORT_D, 2)
    }

    fn into_signal(self, gpio: &mut Gpio) -> (signal: Nss<Otype>) {
        Nss::from_pd2(self, gpio)
    }
}

impl<Otype> IntoSignal<Nss<Otype>> for PD2<Alternate<Otype>> {
    open spec fn taken(gpio: Gpio) -> Gpio {
        gpio
    }

    fn into_signal(self, gpio: &mut Gpio) -> (signal: Nss<Otype>) {
        Nss::PD2(self)
    }
}

impl<MODE, Otype> IntoSignal<Nss<Otype>> for PD8<MODE> where
    MODE: NotAlt + PinMode,
    Alternate<Otype>: PinMode,
 {
    open spec fn taken(gpio: Gpio) -> Gpio {
        after::<Alternate<Otype>>(gpio, PORT_D, 8)
    }

    fn into_signal(self, gpio: &mut Gpio) -> (signal: Nss<Otype>) {
        Nss::from_pd8(self, gpio)
    }
}

impl<Otype> IntoSignal<Nss<Otype>> for PD8<Alternate<Otype>> {
    open spec fn taken(gpio: Gpio) -> Gpio {
        gpio
    }

    fn into_signal(self, gpio: &mut Gpio) -> (signal: Nss<Otype>) {
        Nss::PD8(self)
    }
}

impl<MODE, Otype> IntoSignal<Nss<Otype>> for PC2<MODE> where
    MODE: NotAlt + PinMode,
    Alternate<Otype>: PinMode,
 {
    open spec fn taken(gpio: Gpio) -> Gpio {
        after::<Alternate<Otype>>(gpio, PORT_C, 2)
    }

    fn into_signal(self, gpio: &mut Gpio) -> (signal: Nss<Otype>) {
        Nss::from_pc2(self, gpio)
    }
}

impl<Otype> IntoSignal<Nss<Otype>> for PC2<Alternate<Otype>> {
    open spec fn taken(gpio: Gpio) -> Gpio {
        gpio
    }

    fn into_signal(self, gpio: &mut Gpio) -> (signal: Nss<Otype>) {
        Nss::PC2(self)
    }
}

/// Serial clock of Spi3: one of the pins that can carry it, in alternate mode
pub enum Sck<Otype = PushPull> {
    Unconnected(NoPin<Otype>),
    PB3(PB3<Alternate<Otype>>),
    PC10(PC10<Alternate<Otype>>),
    PD9(PD9<Alternate<Otype>>),
    PC3(PC3<Alternate<Otype>>),
}

impl<Otype> Sealed for Sck<Otype> {

}

impl<Otype> ReadPin for Sck<Otype> {
    open spec fn spec_is_low(&self, gpio: Gpio) -> bool {
        match self {
            Self::PB3(p) => p.spec_is_low(gpio),
            Self::PC10(p) => p.spec_is_low(gpio),
            Self::PD9(p) => p.spec_is_low(gpio),
            Self::PC3(p) => p.spec_is_low(gpio),
            Self::Unconnected(_) => false,
        }
    }

    fn is_low(&self, gpio: &Gpio) -> (low: bool) {
        match self {
            Self::PB3(p) => p.is_low(gpio),
            Self::PC10(p) => p.is_low(gpio),
            Self::PD9(p) => p.is_low(gpio),
            Self::PC3(p) => p.is_low(gpio),
            Self::Unconnected(_) => false,
        }
    }
}

impl<Otype> PinSpeed for Sck<Otype> {
    open spec fn with_speed(&self, gpio: Gpio, speed: Speed) -> Gpio {
        match self {
            Self::PB3(p) => p.with_speed(gpio, speed),
            Self::PC10(p) => p.with_speed(gpio, speed),
            Self::PD9(p) => p.with_speed(gpio, speed),
            Self::PC3(p) => p.with_speed(gpio, speed),
            Self::Unconnected(_) => gpio,
        }
    }

    fn set_speed(&mut self, gpio: &mut Gpio, speed: Speed) {
        match self {
            Self::PB3(p) => PinSpeed::set_speed(p, gpio, speed),
            Self::PC10(p) => PinSpeed::set_speed(p, gpio, speed),
            Self::PD9(p) => PinSpeed::set_speed(p, gpio, speed),
            Self::PC3(p) => PinSpeed::set_speed(p, gpio, speed),
            Self::Unconnected(_) => {},
        }
    }
}

impl<Otype> Sck<Otype> {
    /// The signal without a pin.
    pub fn from_no_pin<T>(_no: NoPin<T>) -> (signal: Self)
        ensures
            signal is Unconnected,
    {
        Self::Unconnected(NoPin::new())
    }

    /// Puts `PB3` into alternate mode and takes it for the signal.
    pub fn from_pb3<MODE>(p: PB3<MODE>, gpio: &mut Gpio) -> (signal: Self) where
        MODE: NotAlt + PinMode,
        Alternate<Otype>: PinMode,

        ensures
            signal is PB3,
            *final(gpio) == after::<Alternate<Otype>>(*old(gpio), PORT_B, 3),
    {
        Self::PB3(p.into_mode(gpio))
    }

    /// Gives `PB3` back in mode `MODE`, if it carries the signal.
    pub fn try_into_pb3<MODE>(self, gpio: &mut Gpio) -> (pin: Result<PB3<MODE>, ()>) where
        MODE: PinMode,
        Alternate<Otype>: PinMode,

        ensures
            pin is Ok <==> self is PB3,
            pin is Ok ==> *final(gpio) == after::<MODE>(*old(gpio), PORT_B, 3),
            pin is Err ==> *final(gpio) == *old(gpio),
    {
        match self {
            Self::PB3(p) => Ok(p.into_mode(gpio)),
            _ => Err(()),
        }
    }

    /// Puts `PC10` into alternate mode and takes it for the signal.
    pub fn from_pc10<MODE>(p: PC10<MODE>, gpio: &mut Gpio) -> (signal: Self) where
        MODE: NotAlt + PinMode,
        Alternate<Otype>: PinMode,

        ensures
            signal is PC10,
            *final(gpio) == after::<Alternate<Otype>>(*old(gpio), PORT_C, 10),
    {
        Self::PC10(p.into_mode(gpio))
    }

    /// Gives `PC10` back in mode `MODE`, if it carries the signal.
    pub fn try_into_pc10<MODE>(self, gpio: &mut Gpio) -> (pin: Result<PC10<MODE>, ()>) where
        MODE: PinMode,
        Alternate<Otype>: PinMode,

        ensures
            pin is Ok <==> self is PC10,
            pin is Ok ==> *final(gpio) == after::<MODE>(*old(gpio), PORT_C, 10),
            pin is Err ==> *final(gpio) == *old(gpio),
    {
        match self {
            Self::PC10(p) => Ok(p.into_mode(gpio)),
            _ => Err(()),
        }
    }

    /// Puts `PD9` into alternate mode and takes it for the signal.
    pub fn from_pd9<MODE>(p: PD9<MODE>, gpio: &mut Gpio) -> (signal: Self) where
        MODE: NotAlt + PinMode,
        Alternate<Otype>: PinMode,

        ensures
            signal is PD9,
            *final(gpio) == after::<Alternate<Otype>>(*old(gpio), PORT_D, 9),
    {
        Self::PD9(p.into_mode(gpio))
    }

    /// Gives `PD9` back in mode `MODE`, if it carries the signal.
    pub fn try_into_pd9<MODE>(self, gpio: &mut Gpio) -> (pin: Result<PD9<MODE>, ()>) where
        MODE: PinMode,
        Alternate<Otype>: PinMode,

        ensures
            pin is Ok <==> self is PD9,
            pin is Ok ==> *final(gpio) == after::<MODE>(*old(gpio), PORT_D, 9),
            pin is Err ==> *final(gpio) == *old(gpio),
    {
        match self {
            Self::PD9(p) => Ok(p.into_mode(gpio)),
            _ => Err(()),
        }
    }

    /// Puts `PC3` into alternate mode and takes it for the signal.
    pub fn from_pc3<MODE>(p: PC3<MODE>, gpio: &mut Gpio) -> (signal: Self) where
        MODE: NotAlt + PinMode,
        Alternate<Otype>: PinMode,

        ensures
            signal is PC3,
            *final(gpio) == after::<Alternate<Otype>>(*old(gpio), PORT_C, 3),
    {
        Self::PC3(p.into_mode(gpio))
    }

    /// Gives `PC3` back in mode `MODE`, if it carries the signal.
    pub fn try_into_pc3<MODE>(self, gpio: &mut Gpio) -> (pin: Result<PC3<MODE>, ()>) where
        MODE: PinMode,
        Alternate<Otype>: PinMode,

        ensures
            pin is Ok <==> self is PC3,
            pin is Ok ==> *final(gpio) == after::<MODE>(*old(gpio), PORT_C, 3),
            pin is Err ==> *final(gpio) == *old(gpio),
    {
        match self {
            Self::PC3(p) => Ok(p.into_mode(gpio)),
            _ => Err(()),
        }
    }
}

impl<T, Otype> IntoSignal<Sck<Otype>> for NoPin<T> {
    open spec fn taken(gpio: Gpio) -> Gpio {
        gpio
    }

    fn into_signal(self, gpio: &mut Gpio) -> (signal: Sck<Otype>) {
        Sck::from_no_pin(self)
    }
}

impl<MODE, Otype> IntoSignal<Sck<Otype>> for PB3<MODE> where
    MODE: NotAlt + PinMode,
    Alternate<Otype>: PinMode,
 {
    open spec fn taken(gpio: Gpio) -> Gpio {
        after::<Alternate<Otype>>(gpio, PORT_B, 3)
    }

    fn into_signal(self, gpio: &mut Gpio) -> (signal: Sck<Otype>) {
        Sck::from_pb3(self, gpio)
    }
}

impl<Otype> IntoSignal<Sck<Otype>> for PB3<Alternate<Otype>> {
    open spec fn taken(gpio: Gpio) -> Gpio {
        gpio
    }

    fn into_signal(self, gpio: &mut Gpio) -> (signal: Sck<Otype>) {
        Sck::PB3(self)
    }
}

impl<MODE, Otype> IntoSignal<Sck<Otype>> for PC10<MODE> where
    MODE: NotAlt + PinMode,
    Alternate<Otype>: PinMode,
 {
    open spec fn taken(gpio: Gpio) -> Gpio {
        after::<Alternate<Otype>>(gpio, PORT_C, 10)
    }

    fn into_signal(self, gpio: &mut Gpio) -> (signal: Sck<Otype>) {
        Sck::from_pc10(self, gpio)
    }
}

impl<Otype> IntoSignal<Sck<Otype>> for PC10<Alternate<Otype>> {
    open spec fn taken(gpio: Gpio) -> Gpio {
        gpio
    }

    fn into_signal(self, gpio: &mut Gpio) -> (signal: Sck<Otype>) {
        Sck::PC10(self)
    }
}

impl<MODE, Otype> IntoSignal<Sck<Otype>> for PD9<MODE> where
    MODE: NotAlt + PinMode,
    Alternate<Otype>: PinMode,
 {
    open spec fn taken(gpio: Gpio) -> Gpio {
        after::<Alternate<Otype>>(gpio, PORT_D, 9)
    }

    fn into_signal(self, gpio: &mut Gpio) -> (signal: Sck<Otype>) {
        Sck::from_pd9(self, gpio)
    }
}

impl<Otype> IntoSignal<Sck<Otype>> for PD9<Alternate<Otype>> {
    open spec fn taken(gpio: Gpio) -> Gpio {
        gpio
    }

    fn into_signal(self, gpio: &mut Gpio) -> (signal: Sck<Otype>) {
        Sck::PD9(self)
    }
}

impl<MODE, Otype> IntoSignal<Sck<Otype>> for PC3<MODE> where
    MODE: NotAlt + PinMode,
    Alternate<Otype>: PinMode,
 {
    open spec fn taken(gpio: Gpio) -> Gpio {
        after::<Alternate<Otype>>(gpio, PORT_C, 3)
    }

    fn into_signal(self, gpio: &mut Gpio) -> (signal: Sck<Otype>) {
        Sck::from_pc3(self, gpio)
    }
}

impl<Otype> IntoSignal<Sck<Otype>> for PC3<Alternate<Otype>> {
    open spec fn taken(gpio: Gpio) -> Gpio {
        gpio
    }

    fn into_signal(self, gpio: &mut Gpio) -> (signal: Sck<Otype>) {
        Sck::PC3(self)
    }
}

/// Master in, slave out of Spi3: one of the pins that can carry it, in alternate mode
pub enum Miso<Otype = Input> {
    Unconnected(NoPin<Otype>),
    PB4(PB4<Alternate<Otype>>),
    PC10(PC10<Alternate<Otype>>),
    PD9(PD9<Alternate<Otype>>),
    PA0(PA0<Alternate<Otype>>),
}

impl<Otype> Sealed for Miso<Otype> {

}

impl<Otype> ReadPin for Miso<Otype> {
    open spec fn spec_is_low(&self, gpio: Gpio) -> bool {
        match self {
            Self::PB4(p) => p.spec_is_low(gpio),
            Self::PC10(p) => p.spec_is_low(gpio),
            Self::PD9(p) => p.spec_is_low(gpio),
            Self::PA0(p) => p.spec_is_low(gpio),
            Self::Unconnected(_) => false,
        }
    }

    fn is_low(&self, gpio: &Gpio) -> (low: bool) {
        match self {
            Self::PB4(p) => p.is_low(gpio),
            Self::PC10(p) => p.is_low(gpio),
            Self::PD9(p) => p.is_low(gpio),
            Self::PA0(p) => p.is_low(gpio),
            Self::Unconnected(_) => false,
        }
    }
}

impl<Otype> PinSpeed for Miso<Otype> {
    open spec fn with_speed(&self, gpio: Gpio, speed: Speed) -> Gpio {
        match self {
            Self::PB4(p) => p.with_speed(gpio, speed),
            Self::PC10(p) => p.with_speed(gpio, speed),
            Self::PD9(p) => p.with_speed(gpio, speed),
            Self::PA0(p) => p.with_speed(gpio, speed),
            Self::Unconnected(_) => gpio,
        }
    }

    fn set_speed(&mut self, gpio: &mut Gpio, speed: Speed) {
        match self {
            Self::PB4(p) => PinSpeed::set_speed(p, gpio, speed),
            Self::PC10(p) => PinSpeed::set_speed(p, gpio, speed),
            Self::PD9(p) => PinSpeed::set_speed(p, gpio, speed),
            Self::PA0(p) => PinSpeed::set_speed(p, gpio, speed),
            Self::Unconnected(_) => {},
        }
    }
}

impl<Otype> Miso<Otype> {
    /// The signal without a pin.
    pub fn from_no_pin<T>(_no: NoPin<T>) -> (signal: Self)
        ensures
            signal is Unconnected,
    {
        Self::Unconnected(NoPin::new())
    }

    /// Puts `PB4` into alternate mode and takes it for the signal.
    pub fn from_pb4<MODE>(p: PB4<MODE>, gpio: &mut Gpio) -> (signal: Self) where
        MODE: NotAlt + PinMode,
        Alternate<Otype>: PinMode,

        ensures
            signal is PB4,
            *final(gpio) == after::<Alternate<Otype>>(*old(gpio), PORT_B, 4),
    {
        Self::PB4(p.into_mode(gpio))
    }

    /// Gives `PB4` back in mode `MODE`, if it carries the signal.
    pub fn try_into_pb4<MODE>(self, gpio: &mut Gpio) -> (pin: Result<PB4<MODE>, ()>) where
        MODE: PinMode,
        Alternate<Otype>: PinMode,

        ensures
            pin is Ok <==> self is PB4,
            pin is Ok ==> *final(gpio) == after::<MODE>(*old(gpio), PORT_B, 4),
            pin is Err ==> *final(gpio) == *old(gpio),
    {
        match self {
            Self::PB4(p) => Ok(p.into_mode(gpio)),
            _ => Err(()),
        }
    }

    /// Puts `PC10` into alternate mode and takes it for the signal.
    pub fn from_pc10<MODE>(p: PC10<MODE>, gpio: &mut Gpio) -> (signal: Self) where
        MODE: NotAlt + PinMode,
        Alternate<Otype>: PinMode,

        ensures
            signal is PC10,
            *final(gpio) == after::<Alternate<Otype>>(*old(gpio), PORT_C, 10),
    {
        Self::PC10(p.into_mode(gpio))
    }

    /// Gives `PC10` back in mode `MODE`, if it carries the signal.
    pub fn try_into_pc10<MODE>(self, gpio: &mut Gpio) -> (pin: Result<PC10<MODE>, ()>) where
        MODE: PinMode,
        Alternate<Otype>: PinMode,

        ensures
            pin is Ok <==> self is PC10,
            pin is Ok ==> *final(gpio) == after::<MODE>(*old(gpio), PORT_C, 10),
            pin is Err ==> *final(gpio) == *old(gpio),
    {
        match self {
            Self::PC10(p) => Ok(p.into_mode(gpio)),
            _ => Err(()),
        }
    }

    /// Puts `PD9` into alternate mode and takes it for the signal.
    pub fn from_pd9<MODE>(p: PD9<MODE>, gpio: &mut Gpio) -> (signal: Self) where
        MODE: NotAlt + PinMode,
        Alternate<Otype>: PinMode,

        ensures
            signal is PD9,
            *final(gpio) == after::<Alternate<Otype>>(*old(gpio), PORT_D, 9),
    {
        Self::PD9(p.into_mode(gpio))
    }

    /// Gives `PD9` back in mode `MODE`, if it carries the signal.
    pub fn try_into_pd9<MODE>(self, gpio: &mut Gpio) -> (pin: Result<PD9<MODE>, ()>) where
        MODE: PinMode,
        Alternate<Otype>: PinMode,

        ensures
            pin is Ok <==> self is PD9,
            pin is Ok ==> *final(gpio) == after::<MODE>(*old(gpio), PORT_D, 9),
            pin is Err ==> *final(gpio) == *old(gpio),
    {
        match self {
            Self::PD9(p) => Ok(p.into_mode(gpio)),
            _ => Err(()),
        }
    }

    /// Puts `PA0` into alternate mode and takes it for the signal.
    pub fn from_pa0<MODE>(p: PA0<MODE>, gpio: &mut Gpio) -> (signal: Self) where
        MODE: NotAlt + PinMode,
        Alternate<Otype>: PinMode,

        ensures
            signal is PA0,
            *final(gpio) == after::<Alternate<Otype>>(*old(gpio), PORT_A, 0),
    {
        Self::PA0(p.into_mode(gpio))
    }

    /// Gives `PA0` back in mode `MODE`, if it carries the signal.
    pub fn try_into_pa0<MODE>(self, gpio: &mut Gpio) -> (pin: Result<PA0<MODE>, ()>) where
        MODE: PinMode,
        Alternate<Otype>: PinMode,

        ensures
            pin is Ok <==> self is PA0,
            pin is Ok ==> *final(gpio) == after::<MODE>(*old(gpio), PORT_A, 0),
            pin is Err ==> *final(gpio) == *old(gpio),
    {
        match self {
            Self::PA0(p) => Ok(p.into_mode(gpio)),
            _ => Err(()),
        }
    }
}

impl<T, Otype> IntoSignal<Miso<Otype>> for NoPin<T> {
    open spec fn taken(gpio: Gpio) -> Gpio {
        gpio
    }

    fn into_signal(self, gpio: &mut Gpio) -> (signal: Miso<Otype>) {
        Miso::from_no_pin(self)
    }
}

impl<MODE, Otype> IntoSignal<Miso<Otype>> for PB4<MODE> where
    MODE: NotAlt + PinMode,
    Alternate<Otype>: PinMode,
 {
    open spec fn taken(gpio: Gpio) -> Gpio {
        after::<Alternate<Otype>>(gpio, PORT_B, 4)
    }

    fn into_signal(self, gpio: &mut Gpio) -> (signal: Miso<Otype>) {
        Miso::from_pb4(self, gpio)
    }
}

impl<Otype> IntoSignal<Miso<Otype>> for PB4<Alternate<Otype>> {
    open spec fn taken(gpio: Gpio) -> Gpio {
        gpio
    }

    fn into_signal(self, gpio: &mut Gpio) -> (signal: Miso<Otype>) {
        Miso::PB4(self)
    }
}

impl<MODE, Otype> IntoSignal<Miso<Otype>> for PC10<MODE> where
    MODE: NotAlt + PinMode,
    Alternate<Otype>: PinMode,
 {
    open spec fn taken(gpio: Gpio) -> Gpio {
        after::<Alternate<Otype>>(gpio, PORT_C, 10)
    }

    fn into_signal(self, gpio: &mut Gpio) -> (signal: Miso<Otype>) {
        Miso::from_pc10(self, gpio)
    }
}

impl<Otype> IntoSignal<Miso<Otype>> for PC10<Alternate<Otype>> {
    open spec fn taken(gpio: Gpio) -> Gpio {
        gpio
    }

    fn into_signal(self, gpio: &mut Gpio) -> (signal: Miso<Otype>) {
        Miso::PC10(self)
    }
}

impl<MODE, Otype> IntoSignal<Miso<Otype>> for PD9<MODE> where
    MODE: NotAlt + PinMode,
    Alternate<Otype>: PinMode,
 {
    open spec fn taken(gpio: Gpio) -> Gpio {
        after::<Alternate<Otype>>(gpio, PORT_D, 9)
    }

    fn into_signal(self, gpio: &mut Gpio) -> (signal: Miso<Otype>) {
        Miso::from_pd9(self, gpio)
    }
}

impl<Otype> IntoSignal<Miso<Otype>> for PD9<Alternate<Otype>> {
    open spec fn taken(gpio: Gpio) -> Gpio {
        gpio
    }

    fn into_signal(self, gpio: &mut Gpio) -> (signal: Miso<Otype>) {
        Miso::PD9(self)
    }
}

impl<MODE, Otype> IntoSignal<Miso<Otype>> for PA0<MODE> where
    MODE: NotAlt + PinMode,
    Alternate<Otype>: PinMode,
 {
    open spec fn taken(gpio: Gpio) -> Gpio {
        after::<Alternate<Otype>>(gpio, PORT_A, 0)
    }

    fn into_signal(self, gpio: &mut Gpio) -> (signal: Miso<Otype>) {
        Miso::from_pa0(self, gpio)
    }
}

impl<Otype> IntoSignal<Miso<Otype>> for PA0<Alternate<Otype>> {
    open spec fn taken(gpio: Gpio) -> Gpio {
        gpio
    }

    fn into_signal(self, gpio: &mut Gpio) -> (signal: Miso<Otype>) {
        Miso::PA0(self)
    }
}

/// Master out, slave in of Spi3: one of the pins that can carry it, in alternate mode
pub enum Mosi<Otype = PushPull> {
    Unconnected(NoPin<Otype>),
    PB5(PB5<Alternate<Otype>>),
    PC12(PC12<Alternate<Otype>>),
    PD12(PD12<Alternate<Otype>>),
    PA1(PA1<Alternate<Otype>>),
}

impl<Otype> Sealed for Mosi<Otype> {

}

impl<Otype> ReadPin for Mosi<Otype> {
    open spec fn spec_is_low(&self, gpio: Gpio) -> bool {
        match self {
            Self::PB5(p) => p.spec_is_low(gpio),
            Self::PC12(p) => p.spec_is_low(gpio),
            Self::PD12(p) => p.spec_is_low(gpio),
            Self::PA1(p) => p.spec_is_low(gpio),
            Self::Unconnected(_) => false,
        }
    }

    fn is_low(&self, gpio: &Gpio) -> (low: bool) {
        match self {
            Self::PB5(p) => p.is_low(gpio),
            Self::PC12(p) => p.is_low(gpio),
            Self::PD12(p) => p.is_low(gpio),
            Self::PA1(p) => p.is_low(gpio),
            Self::Unconnected(_) => false,
        }
    }
}

impl<Otype> PinSpeed for Mosi<Otype> {
    open spec fn with_speed(&self, gpio: Gpio, speed: Speed) -> Gpio {
        match self {
            Self::PB5(p) => p.with_speed(gpio, speed),
            Self::PC12(p) => p.with_speed(gpio, speed),
            Self::PD12(p) => p.with_speed(gpio, speed),
            Self::PA1(p) => p.with_speed(gpio, speed),
            Self::Unconnected(_) => gpio,
        }
    }

    fn set_speed(&mut self, gpio: &mut Gpio, speed: Speed) {
        match self {
            Self::PB5(p) => PinSpeed::set_speed(p, gpio, speed),
            Self::PC12(p) => PinSpeed::set_speed(p, gpio, speed),
            Self::PD12(p) => PinSpeed::set_speed(p, gpio, speed),
            Self::PA1(p) => PinSpeed::set_speed(p, gpio, speed),
            Self::Unconnected(_) => {},
        }
    }
}

impl<Otype> Mosi<Otype> {
    /// The signal without a pin.
    pub fn from_no_pin<T>(_no: NoPin<T>) -> (signal: Self)
        ensures
            signal is Unconnected,
    {
        Self::Unconnected(NoPin::new())
    }

    /// Puts `PB5` into alternate mode and takes it for the signal.
    pub fn from_pb5<MODE>(p: PB5<MODE>, gpio: &mut Gpio) -> (signal: Self) where
        MODE: NotAlt + PinMode,
        Alternate<Otype>: PinMode,

        ensures
            signal is PB5,
            *final(gpio) == after::<Alternate<Otype>>(*old(gpio), PORT_B, 5),
    {
        Self::PB5(p.into_mode(gpio))
    }

    /// Gives `PB5` back in mode `MODE`, if it carries the signal.
    pub fn try_into_pb5<MODE>(self, gpio: &mut Gpio) -> (pin: Result<PB5<MODE>, ()>) where
        MODE: PinMode,
        Alternate<Otype>: PinMode,

        ensures
            pin is Ok <==> self is PB5,
            pin is Ok ==> *final(gpio) == after::<MODE>(*old(gpio), PORT_B, 5),
            pin is Err ==> *final(gpio) == *old(gpio),
    {
        match self {
            Self::PB5(p) => Ok(p.into_mode(gpio)),
            _ => Err(()),
        }
    }

    /// Puts `PC12` into alternate mode and takes it for the signal.
    pub fn from_pc12<MODE>(p: PC12<MODE>, gpio: &mut Gpio) -> (signal: Self) where
        MODE: NotAlt + PinMode,
        Alternate<Otype>: PinMode,

        ensures
            signal is PC12,
            *final(gpio) == after::<Alternate<Otype>>(*old(gpio), PORT_C, 12),
    {
        Self::PC12(p.into_mode(gpio))
    }

    /// Gives `PC12` back in mode `MODE`, if it carries the signal.
    pub fn try_into_pc12<MODE>(self, gpio: &mut Gpio) -> (pin: Result<PC12<MODE>, ()>) where
        MODE: PinMode,
        Alternate<Otype>: PinMode,

        ensures
            pin is Ok <==> self is PC12,
            pin is Ok ==> *final(gpio) == after::<MODE>(*old(gpio), PORT_C, 12),
            pin is Err ==> *final(gpio) == *old(gpio),
    {
        match self {
            Self::PC12(p) => Ok(p.into_mode(gpio)),
            _ => Err(()),
        }
    }

    /// Puts `PD12` into alternate mode and takes it for the signal.
    pub fn from_pd12<MODE>(p: PD12<MODE>, gpio: &mut Gpio) -> (signal: Self) where
        MODE: NotAlt + PinMode,
        Alternate<Otype>: PinMode,

        ensures
            signal is PD12,
            *final(gpio) == after::<Alternate<Otype>>(*old(gpio), PORT_D, 12),
    {
        Self::PD12(p.into_mode(gpio))
    }

    /// Gives `PD12` back in mode `MODE`, if it carries the signal.
    pub fn try_into_pd12<MODE>(self, gpio: &mut Gpio) -> (pin: Result<PD12<MODE>, ()>) where
        MODE: PinMode,
        Alternate<Otype>: PinMode,

        ensures
            pin is Ok <==> self is PD12,
            pin is Ok ==> *final(gpio) == after::<MODE>(*old(gpio), PORT_D, 12),
            pin is Err ==> *final(gpio) == *old(gpio),
    {
        match self {
            Self::PD12(p) => Ok(p.into_mode(gpio)),
            _ => Err(()),
        }
    }

    /// Puts `PA1` into alternate mode and takes it for the signal.
    pub fn from_pa1<MODE>(p: PA1<MODE>, gpio: &mut Gpio) -> (signal: Self) where
        MODE: NotAlt + PinMode,
        Alternate<Otype>: PinMode,

        ensures
            signal is PA1,
            *final(gpio) == after::<Alternate<Otype>>(*old(gpio), PORT_A, 1),
    {
        Self::PA1(p.into_mode(gpio))
    }

    /// Gives `PA1` back in mode `MODE`, if it carries the signal.
    pub fn try_into_pa1<MODE>(self, gpio: &mut Gpio) -> (pin: Result<PA1<MODE>, ()>) where
        MODE: PinMode,
        Alternate<Otype>: PinMode,

        ensures
            pin is Ok <==> self is PA1,
            pin is Ok ==> *final(gpio) == after::<MODE>(*old(gpio), PORT_A, 1),
            pin is Err ==> *final(gpio) == *old(gpio),
    {
        match self {
            Self::PA1(p) => Ok(p.into_mode(gpio)),
            _ => Err(()),
        }
    }
}

impl<T, Otype> IntoSignal<Mosi<Otype>> for NoPin<T> {
    open spec fn taken(gpio: Gpio) -> Gpio {
        gpio
    }

    fn into_signal(self, gpio: &mut Gpio) -> (signal: Mosi<Otype>) {
        Mosi::from_no_pin(self)
    }
}

impl<MODE, Otype> IntoSignal<Mosi<Otype>> for PB5<MODE> where
    MODE: NotAlt + PinMode,
    Alternate<Otype>: PinMode,
 {
    open spec fn taken(gpio: Gpio) -> Gpio {
        after::<Alternate<Otype>>(gpio, PORT_B, 5)
    }

    fn into_signal(self, gpio: &mut Gpio) -> (signal: Mosi<Otype>) {
        Mosi::from_pb5(self, gpio)
    }
}

impl<Otype> IntoSignal<Mosi<Otype>> for PB5<Alternate<Otype>> {
    open spec fn taken(gpio: Gpio) -> Gpio {
        gpio
    }

    fn into_signal(self, gpio: &mut Gpio) -> (signal: Mosi<Otype>) {
        Mosi::PB5(self)
    }
}

impl<MODE, Otype> IntoSignal<Mosi<Otype>> for PC12<MODE> where
    MODE: NotAlt + PinMode,
    Alternate<Otype>: PinMode,
 {
    open spec fn taken(gpio: Gpio) -> Gpio {
        after::<Alternate<Otype>>(gpio, PORT_C, 12)
    }

    fn into_signal(self, gpio: &mut Gpio) -> (signal: Mosi<Otype>) {
        Mosi::from_pc12(self, gpio)
    }
}

impl<Otype> IntoSignal<Mosi<Otype>> for PC12<Alternate<Otype>> {
    open spec fn taken(gpio: Gpio) -> Gpio {
        gpio
    }

    fn into_signal(self, gpio: &mut Gpio) -> (signal: Mosi<Otype>) {
        Mosi::PC12(self)
    }
}

impl<MODE, Otype> IntoSignal<Mosi<Otype>> for PD12<MODE> where
    MODE: NotAlt + PinMode,
    Alternate<Otype>: PinMode,
 {
    open spec fn taken(gpio: Gpio) -> Gpio {
        after::<Alternate<Otype>>(gpio, PORT_D, 12)
    }

    fn into_signal(self, gpio: &mut Gpio) -> (signal: Mosi<Otype>) {
        Mosi::from_pd12(self, gpio)
    }
}

impl<Otype> IntoSignal<Mosi<Otype>> for PD12<Alternate<Otype>> {
    open spec fn taken(gpio: Gpio) -> Gpio {
        gpio
    }

    fn into_signal(self, gpio: &mut Gpio) -> (signal: Mosi<Otype>) {
        Mosi::PD12(self)
    }
}

impl<MODE, Otype> IntoSignal<Mosi<Otype>> for PA1<MODE> where
    MODE: NotAlt + PinMode,
    Alternate<Otype>: PinMode,
 {
    open spec fn taken(gpio: Gpio) -> Gpio {
        after::<Alternate<Otype>>(gpio, PORT_A, 1)
    }

    fn into_signal(self, gpio: &mut Gpio) -> (signal: Mosi<Otype>) {
        Mosi::from_pa1(self, gpio)
    }
}

impl<Otype> IntoSignal<Mosi<Otype>> for PA1<Alternate<Otype>> {
    open spec fn taken(gpio: Gpio) -> Gpio {
        gpio
    }

    fn into_signal(self, gpio: &mut Gpio) -> (signal: Mosi<Otype>) {
        Mosi::PA1(self)
    }
}

impl SpiCommon for Spi3 {
    type Sck = Sck;

    type Miso = Miso;

    type Mosi = Mosi;

    type Nss = Nss;
}

} // verus!
