//! SPI2: where its signals can be routed to, and how.

use vstd::prelude::*;
use crate::gpio::Alternate;
use crate::gpio::Floating;
use crate::gpio::NoPin;
use crate::gpio::PinMode;
use crate::gpio::PinSpeed;
use crate::gpio::PushPull;
use crate::gpio::ReadPin;
use crate::gpio::Speed;
use crate::gpio::alt::IntoSignal;
use crate::gpio::alt::SpiCommon;
use crate::gpio::alt::altmap::Remap;
use crate::gpio::alt::altmap::RemapIO;
use crate::gpio::alt::altmap::lemma_wired_pin;
use crate::gpio::convert::after;
use crate::gpio::marker::NotAlt;
use crate::gpio::port::PORT_B;
use crate::gpio::port::PORT_C;
use crate::gpio::port::PORT_E;
use crate::pac::Afio;
use crate::pac::Gpio;
use crate::pac::Spi2;
use crate::sealed::Sealed;
use crate::gpio::PB12;
use crate::gpio::PB13;
use crate::gpio::PB14;
use crate::gpio::PB15;
use crate::gpio::PC6;
use crate::gpio::PC7;
use crate::gpio::PC8;
use crate::gpio::PC9;
use crate::gpio::PE10;
use crate::gpio::PE11;
use crate::gpio::PE12;
use crate::gpio::PE13;

verus! {

/// SPI2 without remapping
pub struct SPI2NoRemapRemapper();

/// SPI2 with the partial remapping
pub struct SPI2PartialRemapRemapper();

/// SPI2 with the full remapping
pub struct SPI2FullRemapRemapper();

impl Remap for SPI2NoRemapRemapper {
    open spec fn remapped(afio: Afio) -> Afio {
        Afio {
            rmp_cfg3: crate::pac::RmpCfg3 { spi2_rmp: 0, ..afio.rmp_cfg3 },
            ..afio
        }
    }

    open spec fn wired(port: u8, pin: u8) -> bool {
        port == PORT_B && (pin == 12 || pin == 13 || pin == 14 || pin == 15)
    }

    fn remap(afio: &mut Afio) {
        afio.rmp_cfg3.spi2_rmp = 0;
    }
}

impl Remap for SPI2PartialRemapRemapper {
    open spec fn remapped(afio: Afio) -> Afio {
        Afio {
            rmp_cfg3: crate::pac::RmpCfg3 { spi2_rmp: 1, ..afio.rmp_cfg3 },
            ..afio
        }
    }

    open spec fn wired(port: u8, pin: u8) -> bool {
        port == PORT_C && (pin == 6 || pin == 7 || pin == 8 || pin == 9)
    }

    fn remap(afio: &mut Afio) {
        afio.rmp_cfg3.spi2_rmp = 1;
    }
}

impl Remap for SPI2FullRemapRemapper {
    open spec fn remapped(afio: Afio) -> Afio {
        Afio {
            rmp_cfg3: crate::pac::RmpCfg3 { spi2_rmp: 3, ..afio.rmp_cfg3 },
            ..afio
        }
    }

    open spec fn wired(port: u8, pin: u8) -> bool {
        port == PORT_E && (pin == 10 || pin == 11 || pin == 12 || pin == 13)
    }

    fn remap(afio: &mut Afio) {
        afio.rmp_cfg3.spi2_rmp = 3;
    }
}

impl<T> RemapIO<Spi2, SPI2NoRemapRemapper> for PB12<T> {
    proof fn lemma_wired() {
    }
}

impl<T> RemapIO<Spi2, SPI2NoRemapRemapper> for PB13<T> {
    proof fn lemma_wired() {
    }
}

impl<T> RemapIO<Spi2, SPI2NoRemapRemapper> for PB14<T> {
    proof fn lemma_wired() {
    }
}

impl<T> RemapIO<Spi2, SPI2NoRemapRemapper> for PB15<T> {
    proof fn lemma_wired() {
    }
}

impl<T> RemapIO<Spi2, SPI2PartialRemapRemapper> for PC6<T> {
    proof fn lemma_wired() {
    }
}

impl<T> RemapIO<Spi2, SPI2PartialRemapRemapper> for PC7<T> {
    proof fn lemma_wired() {
    }
}

impl<T> RemapIO<Spi2, SPI2PartialRemapRemapper> for PC8<T> {
    proof fn lemma_wired() {
    }
}

impl<T> RemapIO<Spi2, SPI2PartialRemapRemapper> for PC9<T> {
    proof fn lemma_wired() {
    }
}

impl<T> RemapIO<Spi2, SPI2FullRemapRemapper> for PE10<T> {
    proof fn lemma_wired() {
    }
}

impl<T> RemapIO<Spi2, SPI2FullRemapRemapper> for PE11<T> {
    proof fn lemma_wired() {
    }
}

impl<T> RemapIO<Spi2, SPI2FullRemapRemapper> for PE12<T> {
    proof fn lemma_wired() {
    }
}

impl<T> RemapIO<Spi2, SPI2FullRemapRemapper> for PE13<T> {
    proof fn lemma_wired() {
    }
}

/// Each pin that SPI2 can use without remapping has its `RemapIO`.
pub proof fn lemma_spi2_no_remap_pins()
    ensures
        SPI2NoRemapRemapper::wired(PORT_B, 12),
        SPI2NoRemapRemapper::wired(PORT_B, 13),
        SPI2NoRemapRemapper::wired(PORT_B, 14),
        SPI2NoRemapRemapper::wired(PORT_B, 15),
{
    lemma_wired_pin::<PB12, Spi2, SPI2NoRemapRemapper>();
    lemma_wired_pin::<PB13, Spi2, SPI2NoRemapRemapper>();
    lemma_wired_pin::<PB14, Spi2, SPI2NoRemapRemapper>();
    lemma_wired_pin::<PB15, Spi2, SPI2NoRemapRemapper>();
}

/// Each pin that SPI2 can use with the partial remapping has its `RemapIO`.
pub proof fn lemma_spi2_partial_remap_pins()
    ensures
        SPI2PartialRemapRemapper::wired(PORT_C, 6),
        SPI2PartialRemapRemapper::wired(PORT_C, 7),
        SPI2PartialRemapRemapper::wired(PORT_C, 8),
        SPI2PartialRemapRemapper::wired(PORT_C, 9),
{
    lemma_wired_pin::<PC6, Spi2, SPI2PartialRemapRemapper>();
    lemma_wired_pin::<PC7, Spi2, SPI2PartialRemapRemapper>();
    lemma_wired_pin::<PC8, Spi2, SPI2PartialRemapRemapper>();
    lemma_wired_pin::<PC9, Spi2, SPI2PartialRemapRemapper>();
}

/// Each pin that SPI2 can use with the full remapping has its `RemapIO`.
pub proof fn lemma_spi2_full_remap_pins()
    ensures
        SPI2FullRemapRemapper::wired(PORT_E, 10),
        SPI2FullRemapRemapper::wired(PORT_E, 11),
        SPI2FullRemapRemapper::wired(PORT_E, 12),
        SPI2FullRemapRemapper::wired(PORT_E, 13),
{
    lemma_wired_pin::<PE10, Spi2, SPI2FullRemapRemapper>();
    lemma_wired_pin::<PE11, Spi2, SPI2FullRemapRemapper>();
    lemma_wired_pin::<PE12, Spi2, SPI2FullRemapRemapper>();
    lemma_wired_pin::<PE13, Spi2, SPI2FullRemapRemapper>();
}

/// Slave select of Spi2: one of the pins that can carry it, in alternate mode
pub enum Nss<Otype = PushPull> {
    Unconnected(NoPin<Otype>),
    PB12(PB12<Alternate<Otype>>),
    PC6(PC6<Alternate<Otype>>),
    PE10(PE10<Alternate<Otype>>),
}

impl<Otype> Sealed for Nss<Otype> {

}

impl<Otype> ReadPin for Nss<Otype> {
    open spec fn spec_is_low(&self, gpio: Gpio) -> bool {
        match self {
            Self::PB12(p) => p.spec_is_low(gpio),
            Self::PC6(p) => p.spec_is_low(gpio),
            Self::PE10(p) => p.spec_is_low(gpio),
            Self::Unconnected(_) => false,
        }
    }

    fn is_low(&self, gpio: &Gpio) -> (low: bool) {
        match self {
            Self::PB12(p) => p.is_low(gpio),
            Self::PC6(p) => p.is_low(gpio),
            Self::PE10(p) => p.is_low(gpio),
            Self::Unconnected(_) => false,
        }
    }
}

impl<Otype> PinSpeed for Nss<Otype> {
    open spec fn with_speed(&self, gpio: Gpio, speed: Speed) -> Gpio {
        match self {
            Self::PB12(p) => p.with_speed(gpio, speed),
            Self::PC6(p) => p.with_speed(gpio, speed),
            Self::PE10(p) => p.with_speed(gpio, speed),
            Self::Unconnected(_) => gpio,
        }
    }

    fn set_speed(&mut self, gpio: &mut Gpio, speed: Speed) {
        match self {
            Self::PB12(p) => PinSpeed::set_speed(p, gpio, speed),
            Self::PC6(p) => PinSpeed::set_speed(p, gpio, speed),
            Self::PE10(p) => PinSpeed::set_speed(p, gpio, speed),
            Self::Unconnected(_) => {},
        }
    }
}

impl<Otype> Nss<Otype> {
    /// The signal without a pin.
    pub fn from_no_pin<T>(_no: NoPin<T>) -> (signal: Self)
        ensures
            signal is Unconnected,
    {
        Self::Unconnected(NoPin::new())
    }

    /// Puts `PB12` into alternate mode and takes it for the signal.
    pub fn from_pb12<MODE>(p: PB12<MODE>, gpio: &mut Gpio) -> (signal: Self) where
        MODE: NotAlt + PinMode,
        Alternate<Otype>: PinMode,

        ensures
            signal is PB12,
            *final(gpio) == after::<Alternate<Otype>>(*old(gpio), PORT_B, 12),
    {
        Self::PB12(p.into_mode(gpio))
    }

    /// Gives `PB12` back in mode `MODE`, if it carries the signal.
    pub fn try_into_pb12<MODE>(self, gpio: &mut Gpio) -> (pin: Result<PB12<MODE>, ()>) where
        MODE: PinMode,
        Alternate<Otype>: PinMode,

        ensures
            pin is Ok <==> self is PB12,
            pin is Ok ==> *final(gpio) == after::<MODE>(*old(gpio), PORT_B, 12),
            pin is Err ==> *final(gpio) == *old(gpio),
    {
        match self {
            Self::PB12(p) => Ok(p.into_mode(gpio)),
            _ => Err(()),
        }
    }

    /// Puts `PC6` into alternate mode and takes it for the signal.
    pub fn from_pc6<MODE>(p: PC6<MODE>, gpio: &mut Gpio) -> (signal: Self) where
        MODE: NotAlt + PinMode,
        Alternate<Otype>: PinMode,

        ensures
            signal is PC6,
            *final(gpio) == after::<Alternate<Otype>>(*old(gpio), PORT_C, 6),
    {
        Self::PC6(p.into_mode(gpio))
    }

    /// Gives `PC6` back in mode `MODE`, if it carries the signal.
    pub fn try_into_pc6<MODE>(self, gpio: &mut Gpio) -> (pin: Result<PC6<MODE>, ()>) where
        MODE: PinMode,
        Alternate<Otype>: PinMode,

        ensures
            pin is Ok <==> self is PC6,
            pin is Ok ==> *final(gpio) == after::<MODE>(*old(gpio), PORT_C, 6),
            pin is Err ==> *final(gpio) == *old(gpio),
    {
        match self {
            Self::PC6(p) => Ok(p.into_mode(gpio)),
            _ => Err(()),
        }
    }

    /// Puts `PE10` into alternate mode and takes it for the signal.
    pub fn from_pe10<MODE>(p: PE10<MODE>, gpio: &mut Gpio) -> (signal: Self) where
        MODE: NotAlt + PinMode,
        Alternate<Otype>: PinMode,

        ensures
            signal is PE10,
            *final(gpio) == after::<Alternate<Otype>>(*old(gpio), PORT_E, 10),
    {
        Self::PE10(p.into_mode(gpio))
    }

    /// Gives `PE10` back in mode `MODE`, if it carries the signal.
    pub fn try_into_pe10<MODE>(self, gpio: &mut Gpio) -> (pin: Result<PE10<MODE>, ()>) where
        MODE: PinMode,
        Alternate<Otype>: PinMode,

        ensures
            pin is Ok <==> self is PE10,
            pin is Ok ==> *final(gpio) == after::<MODE>(*old(gpio), PORT_E, 10),
            pin is Err ==> *final(gpio) == *old(gpio),
    {
        match self {
            Self::PE10(p) => Ok(p.into_mode(gpio)),
            _ => Err(()),
        }
    }
}

impl<T, Otype> IntoSignal<Nss<Otype>> for NoPin<T> {
    open spec fn taken(gpio: Gpio) -> Gpio {
        gpio
    }

    fn into_signal(self, gpio: &mut Gpio) -> (signal: Nss<Otype>) {
        Nss::from_no_pin(self)
    }
}

impl<MODE, Otype> IntoSignal<Nss<Otype>> for PB12<MODE> where
    MODE: NotAlt + PinMode,
    Alternate<Otype>: PinMode,
 {
    open spec fn taken(gpio: Gpio) -> Gpio {
        after::<Alternate<Otype>>(gpio, PORT_B, 12)
    }

    fn into_signal(self, gpio: &mut Gpio) -> (signal: Nss<Otype>) {
        Nss::from_pb12(self, gpio)
    }
}

impl<Otype> IntoSignal<Nss<Otype>> for PB12<Alternate<Otype>> {
    open spec fn taken(gpio: Gpio) -> Gpio {
        gpio
    }

    fn into_signal(self, gpio: &mut Gpio) -> (signal: Nss<Otype>) {
        Nss::PB12(self)
    }
}

impl<MODE, Otype> IntoSignal<Nss<Otype>> for PC6<MODE> where
    MODE: NotAlt + PinMode,
    Alternate<Otype>: PinMode,
 {
    open spec fn taken(gpio: Gpio) -> Gpio {
        after::<Alternate<Otype>>(gpio, PORT_C, 6)
    }

    fn into_signal(self, gpio: &mut Gpio) -> (signal: Nss<Otype>) {
        Nss::from_pc6(self, gpio)
    }
}

impl<Otype> IntoSignal<Nss<Otype>> for PC6<Alternate<Otype>> {
    open spec fn taken(gpio: Gpio) -> Gpio {
        gpio
    }

    fn into_signal(self, gpio: &mut Gpio) -> (signal: Nss<Otype>) {
        Nss::PC6(self)
    }
}

impl<MODE, Otype> IntoSignal<Nss<Otype>> for PE10<MODE> where
    MODE: NotAlt + PinMode,
    Alternate<Otype>: PinMode,
 {
    open spec fn taken(gpio: Gpio) -> Gpio {
        after::<Alternate<Otype>>(gpio, PORT_E, 10)
    }

    fn into_signal(self, gpio: &mut Gpio) -> (signal: Nss<Otype>) {
        Nss::from_pe10(self, gpio)
    }
}

impl<Otype> IntoSignal<Nss<Otype>> for PE10<Alternate<Otype>> {
    open spec fn taken(gpio: Gpio) -> Gpio {
        gpio
    }

    fn into_signal(self, gpio: &mut Gpio) -> (signal: Nss<Otype>) {
        Nss::PE10(self)
    }
}

/// Serial clock of Spi2: one of the pins that can carry it, in alternate mode
pub enum Sck<Otype = PushPull> {
    Unconnected(NoPin<Otype>),
    PB13(PB13<Alternate<Otype>>),
    PC7(PC7<Alternate<Otype>>),
    PE11(PE11<Alternate<Otype>>),
}

impl<Otype> Sealed for Sck<Otype> {

}

impl<Otype> ReadPin for Sck<Otype> {
    open spec fn spec_is_low(&self, gpio: Gpio) -> bool {
        match self {
            Self::PB13(p) => p.spec_is_low(gpio),
            Self::PC7(p) => p.spec_is_low(gpio),
            Self::PE11(p) => p.spec_is_low(gpio),
            Self::Unconnected(_) => false,
        }
    }

    fn is_low(&self, gpio: &Gpio) -> (low: bool) {
        match self {
            Self::PB13(p) => p.is_low(gpio),
            Self::PC7(p) => p.is_low(gpio),
            Self::PE11(p) => p.is_low(gpio),
            Self::Unconnected(_) => false,
        }
    }
}

impl<Otype> PinSpeed for Sck<Otype> {
    open spec fn with_speed(&self, gpio: Gpio, speed: Speed) -> Gpio {
        match self {
            Self::PB13(p) => p.with_speed(gpio, speed),
            Self::PC7(p) => p.with_speed(gpio, speed),
            Self::PE11(p) => p.with_speed(gpio, speed),
            Self::Unconnected(_) => gpio,
        }
    }

    fn set_speed(&mut self, gpio: &mut Gpio, speed: Speed) {
        match self {
            Self::PB13(p) => PinSpeed::set_speed(p, gpio, speed),
            Self::PC7(p) => PinSpeed::set_speed(p, gpio, speed),
            Self::PE11(p) => PinSpeed::set_speed(p, gpio, speed),
            Self::Unconnected(_) => {},
        }
    }
}

impl<Otype> Sck<Otype> {
    /// The signal without a pin.
    pub fn from_no_pin<T>(_no: NoPin<T>) -> (signal: Self)
        ensures
            signal is Unconnected,
    {
        Self::Unconnected(NoPin::new())
    }

    /// Puts `PB13` into alternate mode and takes it for the signal.
    pub fn from_pb13<MODE>(p: PB13<MODE>, gpio: &mut Gpio) -> (signal: Self) where
        MODE: NotAlt + PinMode,
        Alternate<Otype>: PinMode,

        ensures
            signal is PB13,
            *final(gpio) == after::<Alternate<Otype>>(*old(gpio), PORT_B, 13),
    {
        Self::PB13(p.into_mode(gpio))
    }

    /// Gives `PB13` back in mode `MODE`, if it carries the signal.
    pub fn try_into_pb13<MODE>(self, gpio: &mut Gpio) -> (pin: Result<PB13<MODE>, ()>) where
        MODE: PinMode,
        Alternate<Otype>: PinMode,

        ensures
            pin is Ok <==> self is PB13,
            pin is Ok ==> *final(gpio) == after::<MODE>(*old(gpio), PORT_B, 13),
            pin is Err ==> *final(gpio) == *old(gpio),
    {
        match self {
            Self::PB13(p) => Ok(p.into_mode(gpio)),
            _ => Err(()),
        }
    }

    /// Puts `PC7` into alternate mode and takes it for the signal.
    pub fn from_pc7<MODE>(p: PC7<MODE>, gpio: &mut Gpio) -> (signal: Self) where
        MODE: NotAlt + PinMode,
        Alternate<Otype>: PinMode,

        ensures
            signal is PC7,
            *final(gpio) == after::<Alternate<Otype>>(*old(gpio), PORT_C, 7),
    {
        Self::PC7(p.into_mode(gpio))
    }

    /// Gives `PC7` back in mode `MODE`, if it carries the signal.
    pub fn try_into_pc7<MODE>(self, gpio: &mut Gpio) -> (pin: Result<PC7<MODE>, ()>) where
        MODE: PinMode,
        Alternate<Otype>: PinMode,

        ensures
            pin is Ok <==> self is PC7,
            pin is Ok ==> *final(gpio) == after::<MODE>(*old(gpio), PORT_C, 7),
            pin is Err ==> *final(gpio) == *old(gpio),
    {
        match self {
            Self::PC7(p) => Ok(p.into_mode(gpio)),
            _ => Err(()),
        }
    }

    /// Puts `PE11` into alternate mode and takes it for the signal.
    pub fn from_pe11<MODE>(p: PE11<MODE>, gpio: &mut Gpio) -> (signal: Self) where
        MODE: NotAlt + PinMode,
        Alternate<Otype>: PinMode,

        ensures
            signal is PE11,
            *final(gpio) == after::<Alternate<Otype>>(*old(gpio), PORT_E, 11),
    {
        Self::PE11(p.into_mode(gpio))
    }

    /// Gives `PE11` back in mode `MODE`, if it carries the signal.
    pub fn try_into_pe11<MODE>(self, gpio: &mut Gpio) -> (pin: Result<PE11<MODE>, ()>) where
        MODE: PinMode,
        Alternate<Otype>: PinMode,

        ensures
            pin is Ok <==> self is PE11,
            pin is Ok ==> *final(gpio) == after::<MODE>(*old(gpio), PORT_E, 11),
            pin is Err ==> *final(gpio) == *old(gpio),
    {
        match self {
            Self::PE11(p) => Ok(p.into_mode(gpio)),
            _ => Err(()),
        }
    }
}

impl<T, Otype> IntoSignal<Sck<Otype>> for NoPin<T> {
    open spec fn taken(gpio: Gpio) -> Gpio {
        gpio
    }

    fn into_signal(self, gpio: &mut Gpio) -> (signal: Sck<Otype>) {
        Sck::from_no_pin(self)
    }
}

impl<MODE, Otype> IntoSignal<Sck<Otype>> for PB13<MODE> where
    MODE: NotAlt + PinMode,
    Alternate<Otype>: PinMode,
 {
    open spec fn taken(gpio: Gpio) -> Gpio {
        after::<Alternate<Otype>>(gpio, PORT_B, 13)
    }

    fn into_signal(self, gpio: &mut Gpio) -> (signal: Sck<Otype>) {
        Sck::from_pb13(self, gpio)
    }
}

impl<Otype> IntoSignal<Sck<Otype>> for PB13<Alternate<Otype>> {
    open spec fn taken(gpio: Gpio) -> Gpio {
        gpio
    }

    fn into_signal(self, gpio: &mut Gpio) -> (signal: Sck<Otype>) {
        Sck::PB13(self)
    }
}

impl<MODE, Otype> IntoSignal<Sck<Otype>> for PC7<MODE> where
    MODE: NotAlt + PinMode,
    Alternate<Otype>: PinMode,
 {
    open spec fn taken(gpio: Gpio) -> Gpio {
        after::<Alternate<Otype>>(gpio, PORT_C, 7)
    }

    fn into_signal(self, gpio: &mut Gpio) -> (signal: Sck<Otype>) {
        Sck::from_pc7(self, gpio)
    }
}

impl<Otype> IntoSignal<Sck<Otype>> for PC7<Alternate<Otype>> {
    open spec fn taken(gpio: Gpio) -> Gpio {
        gpio
    }

    fn into_signal(self, gpio: &mut Gpio) -> (signal: Sck<Otype>) {
        Sck::PC7(self)
    }
}

impl<MODE, Otype> IntoSignal<Sck<Otype>> for PE11<MODE> where
    MODE: NotAlt + PinMode,
    Alternate<Otype>: PinMode,
 {
    open spec fn taken(gpio: Gpio) -> Gpio {
        after::<Alternate<Otype>>(gpio, PORT_E, 11)
    }

    fn into_signal(self, gpio: &mut Gpio) -> (signal: Sck<Otype>) {
        Sck::from_pe11(self, gpio)
    }
}

impl<Otype> IntoSignal<Sck<Otype>> for PE11<Alternate<Otype>> {
    open spec fn taken(gpio: Gpio) -> Gpio {
        gpio
    }

    fn into_signal(self, gpio: &mut Gpio) -> (signal: Sck<Otype>) {
        Sck::PE11(self)
    }
}

/// Master in, slave out of Spi2: one of the pins that can carry it, in alternate mode
pub enum Miso<Otype = Floating> {
    Unconnected(NoPin<Otype>),
    PB14(PB14<Alternate<Otype>>),
    PC8(PC8<Alternate<Otype>>),
    PE12(PE12<Alternate<Otype>>),
}

impl<Otype> Sealed for Miso<Otype> {

}

impl<Otype> ReadPin for Miso<Otype> {
    open spec fn spec_is_low(&self, gpio: Gpio) -> bool {
        match self {
            Self::PB14(p) => p.spec_is_low(gpio),
            Self::PC8(p) => p.spec_is_low(gpio),
            Self::PE12(p) => p.spec_is_low(gpio),
            Self::Unconnected(_) => false,
        }
    }

    fn is_low(&self, gpio: &Gpio) -> (low: bool) {
        match self {
            Self::PB14(p) => p.is_low(gpio),
            Self::PC8(p) => p.is_low(gpio),
            Self::PE12(p) => p.is_low(gpio),
            Self::Unconnected(_) => false,
        }
    }
}

impl<Otype> PinSpeed for Miso<Otype> {
    open spec fn with_speed(&self, gpio: Gpio, speed: Speed) -> Gpio {
        match self {
            Self::PB14(p) => p.with_speed(gpio, speed),
            Self::PC8(p) => p.with_speed(gpio, speed),
            Self::PE12(p) => p.with_speed(gpio, speed),
            Self::Unconnected(_) => gpio,
        }
    }

    fn set_speed(&mut self, gpio: &mut Gpio, speed: Speed) {
        match self {
            Self::PB14(p) => PinSpeed::set_speed(p, gpio, speed),
            Self::PC8(p) => PinSpeed::set_speed(p, gpio, speed),
            Self::PE12(p) => PinSpeed::set_speed(p, gpio, speed),
            Self::Unconnected(_) => {},
        }
    }
}

impl<Otype> Miso<Otype> {
    /// The signal without a pin.
    pub fn from_no_pin<T>(_no: NoPin<T>) -> (signal: Self)
        ensures
            signal is Unconnected,
    {
        Self::Unconnected(NoPin::new())
    }

    /// Puts `PB14` into alternate mode and takes it for the signal.
    pub fn from_pb14<MODE>(p: PB14<MODE>, gpio: &mut Gpio) -> (signal: Self) where
        MODE: NotAlt + PinMode,
        Alternate<Otype>: PinMode,

        ensures
            signal is PB14,
            *final(gpio) == after::<Alternate<Otype>>(*old(gpio), PORT_B, 14),
    {
        Self::PB14(p.into_mode(gpio))
    }

    /// Gives `PB14` back in mode `MODE`, if it carries the signal.
    pub fn try_into_pb14<MODE>(self, gpio: &mut Gpio) -> (pin: Result<PB14<MODE>, ()>) where
        MODE: PinMode,
        Alternate<Otype>: PinMode,

        ensures
            pin is Ok <==> self is PB14,
            pin is Ok ==> *final(gpio) == after::<MODE>(*old(gpio), PORT_B, 14),
            pin is Err ==> *final(gpio) == *old(gpio),
    {
        match self {
            Self::PB14(p) => Ok(p.into_mode(gpio)),
            _ => Err(()),
        }
    }

    /// Puts `PC8` into alternate mode and takes it for the signal.
    pub fn from_pc8<MODE>(p: PC8<MODE>, gpio: &mut Gpio) -> (signal: Self) where
        MODE: NotAlt + PinMode,
        Alternate<Otype>: PinMode,

        ensures
            signal is PC8,
            *final(gpio) == after::<Alternate<Otype>>(*old(gpio), PORT_C, 8),
    {
        Self::PC8(p.into_mode(gpio))
    }

    /// Gives `PC8` back in mode `MODE`, if it carries the signal.
    pub fn try_into_pc8<MODE>(self, gpio: &mut Gpio) -> (pin: Result<PC8<MODE>, ()>) where
        MODE: PinMode,
        Alternate<Otype>: PinMode,

        ensures
            pin is Ok <==> self is PC8,
            pin is Ok ==> *final(gpio) == after::<MODE>(*old(gpio), PORT_C, 8),
            pin is Err ==> *final(gpio) == *old(gpio),
    {
        match self {
            Self::PC8(p) => Ok(p.into_mode(gpio)),
            _ => Err(()),
        }
    }

    /// Puts `PE12` into alternate mode and takes it for the signal.
    pub fn from_pe12<MODE>(p: PE12<MODE>, gpio: &mut Gpio) -> (signal: Self) where
        MODE: NotAlt + PinMode,
        Alternate<Otype>: PinMode,

        ensures
            signal is PE12,
            *final(gpio) == after::<Alternate<Otype>>(*old(gpio), PORT_E, 12),
    {
        Self::PE12(p.into_mode(gpio))
    }

    /// Gives `PE12` back in mode `MODE`, if it carries the signal.
    pub fn try_into_pe12<MODE>(self, gpio: &mut Gpio) -> (pin: Result<PE12<MODE>, ()>) where
        MODE: PinMode,
        Alternate<Otype>: PinMode,

        ensures
            pin is Ok <==> self is PE12,
            pin is Ok ==> *final(gpio) == after::<MODE>(*old(gpio), PORT_E, 12),
            pin is Err ==> *final(gpio) == *old(gpio),
    {
        match self {
            Self::PE12(p) => Ok(p.into_mode(gpio)),
            _ => Err(()),
        }
    }
}

impl<T, Otype> IntoSignal<Miso<Otype>> for NoPin<T> {
    open spec fn taken(gpio: Gpio) -> Gpio {
        gpio
    }

    fn into_signal(self, gpio: &mut Gpio) -> (signal: Miso<Otype>) {
        Miso::from_no_pin(self)
    }
}

impl<MODE, Otype> IntoSignal<Miso<Otype>> for PB14<MODE> where
    MODE: NotAlt + PinMode,
    Alternate<Otype>: PinMode,
 {
    open spec fn taken(gpio: Gpio) -> Gpio {
        after::<Alternate<Otype>>(gpio, PORT_B, 14)
    }

    fn into_signal(self, gpio: &mut Gpio) -> (signal: Miso<Otype>) {
        Miso::from_pb14(self, gpio)
    }
}

impl<Otype> IntoSignal<Miso<Otype>> for PB14<Alternate<Otype>> {
    open spec fn taken(gpio: Gpio) -> Gpio {
        gpio
    }

    fn into_signal(self, gpio: &mut Gpio) -> (signal: Miso<Otype>) {
        Miso::PB14(self)
    }
}

impl<MODE, Otype> IntoSignal<Miso<Otype>> for PC8<MODE> where
    MODE: NotAlt + PinMode,
    Alternate<Otype>: PinMode,
 {
    open spec fn taken(gpio: Gpio) -> Gpio {
        after::<Alternate<Otype>>(gpio, PORT_C, 8)
    }

    fn into_signal(self, gpio: &mut Gpio) -> (signal: Miso<Otype>) {
        Miso::from_pc8(self, gpio)
    }
}

impl<Otype> IntoSignal<Miso<Otype>> for PC8<Alternate<Otype>> {
    open spec fn taken(gpio: Gpio) -> Gpio {
        gpio
    }

    fn into_signal(self, gpio: &mut Gpio) -> (signal: Miso<Otype>) {
        Miso::PC8(self)
    }
}

impl<MODE, Otype> IntoSignal<Miso<Otype>> for PE12<MODE> where
    MODE: NotAlt + PinMode,
    Alternate<Otype>: PinMode,
 {
    open spec fn taken(gpio: Gpio) -> Gpio {
        after::<Alternate<Otype>>(gpio, PORT_E, 12)
    }

    fn into_signal(self, gpio: &mut Gpio) -> (signal: Miso<Otype>) {
        Miso::from_pe12(self, gpio)
    }
}

impl<Otype> IntoSignal<Miso<Otype>> for PE12<Alternate<Otype>> {
    open spec fn taken(gpio: Gpio) -> Gpio {
        gpio
    }

    fn into_signal(self, gpio: &mut Gpio) -> (signal: Miso<Otype>) {
        Miso::PE12(self)
    }
}

/// Master out, slave in of Spi2: one of the pins that can carry it, in alternate mode
pub enum Mosi<Otype = PushPull> {
    Unconnected(NoPin<Otype>),
    PB15(PB15<Alternate<Otype>>),
    PC9(PC9<Alternate<Otype>>),
    PE13(PE13<Alternate<Otype>>),
}

impl<Otype> Sealed for Mosi<Otype> {

}

impl<Otype> ReadPin for Mosi<Otype> {
    open spec fn spec_is_low(&self, gpio: Gpio) -> bool {
        match self {
            Self::PB15(p) => p.spec_is_low(gpio),
            Self::PC9(p) => p.spec_is_low(gpio),
            Self::PE13(p) => p.spec_is_low(gpio),
            Self::Unconnected(_) => false,
        }
    }

    fn is_low(&self, gpio: &Gpio) -> (low: bool) {
        match self {
            Self::PB15(p) => p.is_low(gpio),
            Self::PC9(p) => p.is_low(gpio),
            Self::PE13(p) => p.is_low(gpio),
            Self::Unconnected(_) => false,
        }
    }
}

impl<Otype> PinSpeed for Mosi<Otype> {
    open spec fn with_speed(&self, gpio: Gpio, speed: Speed) -> Gpio {
        match self {
            Self::PB15(p) => p.with_speed(gpio, speed),
            Self::PC9(p) => p.with_speed(gpio, speed),
            Self::PE13(p) => p.with_speed(gpio, speed),
            Self::Unconnected(_) => gpio,
        }
    }

    fn set_speed(&mut self, gpio: &mut Gpio, speed: Speed) {
        match self {
            Self::PB15(p) => PinSpeed::set_speed(p, gpio, speed),
            Self::PC9(p) => PinSpeed::set_speed(p, gpio, speed),
            Self::PE13(p) => PinSpeed::set_speed(p, gpio, speed),
            Self::Unconnected(_) => {},
        }
    }
}

impl<Otype> Mosi<Otype> {
    /// The signal without a pin.
    pub fn from_no_pin<T>(_no: NoPin<T>) -> (signal: Self)
        ensures
            signal is Unconnected,
    {
        Self::Unconnected(NoPin::new())
    }

    /// Puts `PB15` into alternate mode and takes it for the signal.
    pub fn from_pb15<MODE>(p: PB15<MODE>, gpio: &mut Gpio) -> (signal: Self) where
        MODE: NotAlt + PinMode,
        Alternate<Otype>: PinMode,

        ensures
            signal is PB15,
            *final(gpio) == after::<Alternate<Otype>>(*old(gpio), PORT_B, 15),
    {
        Self::PB15(p.into_mode(gpio))
    }

    /// Gives `PB15` back in mode `MODE`, if it carries the signal.
    pub fn try_into_pb15<MODE>(self, gpio: &mut Gpio) -> (pin: Result<PB15<MODE>, ()>) where
        MODE: PinMode,
        Alternate<Otype>: PinMode,

        ensures
            pin is Ok <==> self is PB15,
            pin is Ok ==> *final(gpio) == after::<MODE>(*old(gpio), PORT_B, 15),
            pin is Err ==> *final(gpio) == *old(gpio),
    {
        match self {
            Self::PB15(p) => Ok(p.into_mode(gpio)),
            _ => Err(()),
        }
    }

    /// Puts `PC9` into alternate mode and takes it for the signal.
    pub fn from_pc9<MODE>(p: PC9<MODE>, gpio: &mut Gpio) -> (signal: Self) where
        MODE: NotAlt + PinMode,
        Alternate<Otype>: PinMode,

        ensures
            signal is PC9,
            *final(gpio) == after::<Alternate<Otype>>(*old(gpio), PORT_C, 9),
    {
        Self::PC9(p.into_mode(gpio))
    }

    /// Gives `PC9` back in mode `MODE`, if it carries the signal.
    pub fn try_into_pc9<MODE>(self, gpio: &mut Gpio) -> (pin: Result<PC9<MODE>, ()>) where
        MODE: PinMode,
        Alternate<Otype>: PinMode,

        ensures
            pin is Ok <==> self is PC9,
            pin is Ok ==> *final(gpio) == after::<MODE>(*old(gpio), PORT_C, 9),
            pin is Err ==> *final(gpio) == *old(gpio),
    {
        match self {
            Self::PC9(p) => Ok(p.into_mode(gpio)),
            _ => Err(()),
        }
    }

    /// Puts `PE13` into alternate mode and takes it for the signal.
    pub fn from_pe13<MODE>(p: PE13<MODE>, gpio: &mut Gpio) -> (signal: Self) where
        MODE: NotAlt + PinMode,
        Alternate<Otype>: PinMode,

        ensures
            signal is PE13,
            *final(gpio) == after::<Alternate<Otype>>(*old(gpio), PORT_E, 13),
    {
        Self::PE13(p.into_mode(gpio))
    }

    /// Gives `PE13` back in mode `MODE`, if it carries the signal.
    pub fn try_into_pe13<MODE>(self, gpio: &mut Gpio) -> (pin: Result<PE13<MODE>, ()>) where
        MODE: PinMode,
        Alternate<Otype>: PinMode,

        ensures
            pin is Ok <==> self is PE13,
            pin is Ok ==> *final(gpio) == after::<MODE>(*old(gpio), PORT_E, 13),
            pin is Err ==> *final(gpio) == *old(gpio),
    {
        match self {
            Self::PE13(p) => Ok(p.into_mode(gpio)),
            _ => Err(()),
        }
    }
}

impl<T, Otype> IntoSignal<Mosi<Otype>> for NoPin<T> {
    open spec fn taken(gpio: Gpio) -> Gpio {
        gpio
    }

    fn into_signal(self, gpio: &mut Gpio) -> (signal: Mosi<Otype>) {
        Mosi::from_no_pin(self)
    }
}

impl<MODE, Otype> IntoSignal<Mosi<Otype>> for PB15<MODE> where
    MODE: NotAlt + PinMode,
    Alternate<Otype>: PinMode,
 {
    open spec fn taken(gpio: Gpio) -> Gpio {
        after::<Alternate<Otype>>(gpio, PORT_B, 15)
    }

    fn into_signal(self, gpio: &mut Gpio) -> (signal: Mosi<Otype>) {
        Mosi::from_pb15(self, gpio)
    }
}

impl<Otype> IntoSignal<Mosi<Otype>> for PB15<Alternate<Otype>> {
    open spec fn taken(gpio: Gpio) -> Gpio {
        gpio
    }

    fn into_signal(self, gpio: &mut Gpio) -> (signal: Mosi<Otype>) {
        Mosi::PB15(self)
    }
}

impl<MODE, Otype> IntoSignal<Mosi<Otype>> for PC9<MODE> where
    MODE: NotAlt + PinMode,
    Alternate<Otype>: PinMode,
 {
    open spec fn taken(gpio: Gpio) -> Gpio {
        after::<Alternate<Otype>>(gpio, PORT_C, 9)
    }

    fn into_signal(self, gpio: &mut Gpio) -> (signal: Mosi<Otype>) {
        Mosi::from_pc9(self, gpio)
    }
}

impl<Otype> IntoSignal<Mosi<Otype>> for PC9<Alternate<Otype>> {
    open spec fn taken(gpio: Gpio) -> Gpio {
        gpio
    }

    fn into_signal(self, gpio: &mut Gpio) -> (signal: Mosi<Otype>) {
        Mosi::PC9(self)
    }
}

impl<MODE, Otype> IntoSignal<Mosi<Otype>> for PE13<MODE> where
    MODE: NotAlt + PinMode,
    Alternate<Otype>: PinMode,
 {
    open spec fn taken(gpio: Gpio) -> Gpio {
        after::<Alternate<Otype>>(gpio, PORT_E, 13)
    }

    fn into_signal(self, gpio: &mut Gpio) -> (signal: Mosi<Otype>) {
        Mosi::from_pe13(self, gpio)
    }
}

impl<Otype> IntoSignal<Mosi<Otype>> for PE13<Alternate<Otype>> {
    open spec fn taken(gpio: Gpio) -> Gpio {
        gpio
    }

    fn into_signal(self, gpio: &mut Gpio) -> (signal: Mosi<Otype>) {
        Mosi::PE13(self)
    }
}

impl SpiCommon for Spi2 {
    type Sck = Sck;

    type Miso = Miso;

    type Mosi = Mosi;

    type Nss = Nss;
}

} // verus!
