//! TIM1: where its signals can be routed to, and how.

use vstd::prelude::*;
use crate::gpio::Alternate;
use crate::gpio::Floating;
use crate::gpio::NoPin;
use crate::gpio::PinMode;
use crate::gpio::PinSpeed;
use crate::gpio::PushPull;
use crate::gpio::ReadPin;
use crate::gpio::Speed;
use crate::gpio::alt::IntoSignal;
use crate::gpio::alt::TimBkin;
use crate::gpio::alt::TimCPin;
use crate::gpio::alt::TimNCPin;
use crate::gpio::alt::altmap::Remap;
use crate::gpio::alt::altmap::RemapIO;
use crate::gpio::alt::altmap::lemma_wired_pin;
use crate::gpio::convert::after;
use crate::gpio::marker::NotAlt;
use crate::gpio::port::PORT_A;
use crate::gpio::port::PORT_B;
use crate::gpio::port::PORT_E;
use crate::pac::Afio;
use crate::pac::Gpio;
use crate::pac::Tim1;
use crate::sealed::Sealed;
use crate::gpio::PA6;
use crate::gpio::PA7;
use crate::gpio::PA8;
use crate::gpio::PA9;
use crate::gpio::PA10;
use crate::gpio::PA11;
use crate::gpio::PA12;
use crate::gpio::PB0;
use crate::gpio::PB1;
use crate::gpio::PB5;
use crate::gpio::PB12;
use crate::gpio::PB13;
use crate::gpio::PB14;
use crate::gpio::PB15;
use crate::gpio::PE7;
use crate::gpio::PE8;
use crate::gpio::PE9;
use crate::gpio::PE10;
use crate::gpio::PE11;
use crate::gpio::PE12;
use crate::gpio::PE13;
use crate::gpio::PE14;
use crate::gpio::PE15;

verus! {

/// TIM1 without remapping
pub struct TIM1NoRemapRemapper();

/// TIM1 with the first partial remapping
pub struct TIM1PartialRemapOneRemapper();

/// TIM1 with the second partial remapping
pub struct TIM1PartialRemapTwoRemapper();

/// TIM1 with the full remapping
pub struct TIM1FullRemapRemapper();

impl Remap for TIM1NoRemapRemapper {
    open spec fn remapped(afio: Afio) -> Afio {
        Afio {
            rmp_cfg: crate::pac::RmpCfg { tim1_rmp: 0, ..afio.rmp_cfg },
            ..afio
        }
    }

    open spec fn wired(port: u8, pin: u8) -> bool {
        ||| port == PORT_A && (pin == 12 || pin == 8 || pin == 9 || pin == 10 || pin == 11)
        ||| port == PORT_B && (pin == 12 || pin == 13 || pin == 14 || pin == 15)
    }

    fn remap(afio: &mut Afio) {
        afio.rmp_cfg.tim1_rmp = 0;
    }
}

impl Remap for TIM1PartialRemapOneRemapper {
    open spec fn remapped(afio: Afio) -> Afio {
        Afio {
            rmp_cfg: crate::pac::RmpCfg { tim1_rmp: 1, ..afio.rmp_cfg },
            ..afio
        }
    }

    open spec fn wired(port: u8, pin: u8) -> bool {
        ||| port == PORT_A && (pin == 12 || pin == 8 || pin == 9 || pin == 10 || pin == 11 || pin == 6 || pin == 7)
        ||| port == PORT_B && (pin == 0 || pin == 1)
    }

    fn remap(afio: &mut Afio) {
        afio.rmp_cfg.tim1_rmp = 1;
    }
}

impl Remap for TIM1PartialRemapTwoRemapper {
    open spec fn remapped(afio: Afio) -> Afio {
        Afio {
            rmp_cfg: crate::pac::RmpCfg { tim1_rmp: 2, ..afio.rmp_cfg },
            ..afio
        }
    }

    open spec fn wired(port: u8, pin: u8) -> bool {
        ||| port == PORT_A && (pin == 12 || pin == 8 || pin == 9 || pin == 10 || pin == 11)
        ||| port == PORT_B && (pin == 5 || pin == 13 || pin == 14 || pin == 15)
    }

    fn remap(afio: &mut Afio) {
        afio.rmp_cfg.tim1_rmp = 2;
    }
}

impl Remap for TIM1FullRemapRemapper {
    open spec fn remapped(afio: Afio) -> Afio {
        Afio {
            rmp_cfg: crate::pac::RmpCfg { tim1_rmp: 3, ..afio.rmp_cfg },
            ..afio
        }
    }

    open spec fn wired(port: u8, pin: u8) -> bool {
        port == PORT_E && (pin == 7 || pin == 9 || pin == 11 || pin == 13 || pin == 14 || pin == 15 || pin == 8 || pin == 10 || pin == 12)
    }

    fn remap(afio: &mut Afio) {
        afio.rmp_cfg.tim1_rmp = 3;
    }
}

impl RemapIO<Tim1, TIM1NoRemapRemapper> for PA12 {
    proof fn lemma_wired() {
    }
}

impl RemapIO<Tim1, TIM1NoRemapRemapper> for PA8 {
    proof fn lemma_wired() {
    }
}

impl RemapIO<Tim1, TIM1NoRemapRemapper> for PA9 {
    proof fn lemma_wired() {
    }
}

impl RemapIO<Tim1, TIM1NoRemapRemapper> for PA10 {
    proof fn lemma_wired() {
    }
}

impl RemapIO<Tim1, TIM1NoRemapRemapper> for PA11 {
    proof fn lemma_wired() {
    }
}

impl RemapIO<Tim1, TIM1NoRemapRemapper> for PB12 {
    proof fn lemma_wired() {
    }
}

impl RemapIO<Tim1, TIM1NoRemapRemapper> for PB13 {
    proof fn lemma_wired() {
    }
}

impl RemapIO<Tim1, TIM1NoRemapRemapper> for PB14 {
    proof fn lemma_wired() {
    }
}

impl RemapIO<Tim1, TIM1NoRemapRemapper> for PB15 {
    proof fn lemma_wired() {
    }
}

impl RemapIO<Tim1, TIM1PartialRemapOneRemapper> for PA12 {
    proof fn lemma_wired() {
    }
}

impl RemapIO<Tim1, TIM1PartialRemapOneRemapper> for PA8 {
    proof fn lemma_wired() {
    }
}

impl RemapIO<Tim1, TIM1PartialRemapOneRemapper> for PA9 {
    proof fn lemma_wired() {
    }
}

impl RemapIO<Tim1, TIM1PartialRemapOneRemapper> for PA10 {
    proof fn lemma_wired() {
    }
}

impl RemapIO<Tim1, TIM1PartialRemapOneRemapper> for PA11 {
    proof fn lemma_wired() {
    }
}

impl RemapIO<Tim1, TIM1PartialRemapOneRemapper> for PA6 {
    proof fn lemma_wired() {
    }
}

impl RemapIO<Tim1, TIM1PartialRemapOneRemapper> for PA7 {
    proof fn lemma_wired() {
    }
}

impl RemapIO<Tim1, TIM1PartialRemapOneRemapper> for PB0 {
    proof fn lemma_wired() {
    }
}

impl RemapIO<Tim1, TIM1PartialRemapOneRemapper> for PB1 {
    proof fn lemma_wired() {
    }
}

impl RemapIO<Tim1, TIM1PartialRemapTwoRemapper> for PA12 {
    proof fn lemma_wired() {
    }
}

impl RemapIO<Tim1, TIM1PartialRemapTwoRemapper> for PA8 {
    proof fn lemma_wired() {
    }
}

impl RemapIO<Tim1, TIM1PartialRemapTwoRemapper> for PA9 {
    proof fn lemma_wired() {
    }
}

impl RemapIO<Tim1, TIM1PartialRemapTwoRemapper> for PA10 {
    proof fn lemma_wired() {
    }
}

impl RemapIO<Tim1, TIM1PartialRemapTwoRemapper> for PA11 {
    proof fn lemma_wired() {
    }
}

impl RemapIO<Tim1, TIM1PartialRemapTwoRemapper> for PB5 {
    proof fn lemma_wired() {
    }
}

impl RemapIO<Tim1, TIM1PartialRemapTwoRemapper> for PB13 {
    proof fn lemma_wired() {
    }
}

impl RemapIO<Tim1, TIM1PartialRemapTwoRemapper> for PB14 {
    proof fn lemma_wired() {
    }
}

impl RemapIO<Tim1, TIM1PartialRemapTwoRemapper> for PB15 {
    proof fn lemma_wired() {
    }
}

impl RemapIO<Tim1, TIM1FullRemapRemapper> for PE7 {
    proof fn lemma_wired() {
    }
}

impl RemapIO<Tim1, TIM1FullRemapRemapper> for PE9 {
    proof fn lemma_wired() {
    }
}

impl RemapIO<Tim1, TIM1FullRemapRemapper> for PE11 {
    proof fn lemma_wired() {
    }
}

impl RemapIO<Tim1, TIM1FullRemapRemapper> for PE13 {
    proof fn lemma_wired() {
    }
}

impl RemapIO<Tim1, TIM1FullRemapRemapper> for PE14 {
    proof fn lemma_wired() {
    }
}

impl RemapIO<Tim1, TIM1FullRemapRemapper> for PE15 {
    proof fn lemma_wired() {
    }
}

impl RemapIO<Tim1, TIM1FullRemapRemapper> for PE8 {
    proof fn lemma_wired() {
    }
}

impl RemapIO<Tim1, TIM1FullRemapRemapper> for PE10 {
    proof fn lemma_wired() {
    }
}

impl RemapIO<Tim1, TIM1FullRemapRemapper> for PE12 {
    proof fn lemma_wired() {
    }
}

/// Each pin that TIM1 can use without remapping has its `RemapIO`.
pub proof fn lemma_tim1_no_remap_pins()
    ensures
        TIM1NoRemapRemapper::wired(PORT_A, 12),
        TIM1NoRemapRemapper::wired(PORT_A, 8),
        TIM1NoRemapRemapper::wired(PORT_A, 9),
        TIM1NoRemapRemapper::wired(PORT_A, 10),
        TIM1NoRemapRemapper::wired(PORT_A, 11),
        TIM1NoRemapRemapper::wired(PORT_B, 12),
        TIM1NoRemapRemapper::wired(PORT_B, 13),
        TIM1NoRemapRemapper::wired(PORT_B, 14),
        TIM1NoRemapRemapper::wired(PORT_B, 15),
{
    lemma_wired_pin::<PA12, Tim1, TIM1NoRemapRemapper>();
    lemma_wired_pin::<PA8, Tim1, TIM1NoRemapRemapper>();
    lemma_wired_pin::<PA9, Tim1, TIM1NoRemapRemapper>();
    lemma_wired_pin::<PA10, Tim1, TIM1NoRemapRemapper>();
    lemma_wired_pin::<PA11, Tim1, TIM1NoRemapRemapper>();
    lemma_wired_pin::<PB12, Tim1, TIM1NoRemapRemapper>();
    lemma_wired_pin::<PB13, Tim1, TIM1NoRemapRemapper>();
    lemma_wired_pin::<PB14, Tim1, TIM1NoRemapRemapper>();
    lemma_wired_pin::<PB15, Tim1, TIM1NoRemapRemapper>();
}

/// Each pin that TIM1 can use with the first partial remapping has its `RemapIO`.
pub proof fn lemma_tim1_partial_remap_one_pins()
    ensures
        TIM1PartialRemapOneRemapper::wired(PORT_A, 12),
        TIM1PartialRemapOneRemapper::wired(PORT_A, 8),
        TIM1PartialRemapOneRemapper::wired(PORT_A, 9),
        TIM1PartialRemapOneRemapper::wired(PORT_A, 10),
        TIM1PartialRemapOneRemapper::wired(PORT_A, 11),
        TIM1PartialRemapOneRemapper::wired(PORT_A, 6),
        TIM1PartialRemapOneRemapper::wired(PORT_A, 7),
        TIM1PartialRemapOneRemapper::wired(PORT_B, 0),
        TIM1PartialRemapOneRemapper::wired(PORT_B, 1),
{
    lemma_wired_pin::<PA12, Tim1, TIM1PartialRemapOneRemapper>();
    lemma_wired_pin::<PA8, Tim1, TIM1PartialRemapOneRemapper>();
    lemma_wired_pin::<PA9, Tim1, TIM1PartialRemapOneRemapper>();
    lemma_wired_pin::<PA10, Tim1, TIM1PartialRemapOneRemapper>();
    lemma_wired_pin::<PA11, Tim1, TIM1PartialRemapOneRemapper>();
    lemma_wired_pin::<PA6, Tim1, TIM1PartialRemapOneRemapper>();
    lemma_wired_pin::<PA7, Tim1, TIM1PartialRemapOneRemapper>();
    lemma_wired_pin::<PB0, Tim1, TIM1PartialRemapOneRemapper>();
    lemma_wired_pin::<PB1, Tim1, TIM1PartialRemapOneRemapper>();
}

/// Each pin that TIM1 can use with the second partial remapping has its `RemapIO`.
pub proof fn lemma_tim1_partial_remap_two_pins()
    ensures
        TIM1PartialRemapTwoRemapper::wired(PORT_A, 12),
        TIM1PartialRemapTwoRemapper::wired(PORT_A, 8),
        TIM1PartialRemapTwoRemapper::wired(PORT_A, 9),
        TIM1PartialRemapTwoRemapper::wired(PORT_A, 10),
        TIM1PartialRemapTwoRemapper::wired(PORT_A, 11),
        TIM1PartialRemapTwoRemapper::wired(PORT_B, 5),
        TIM1PartialRemapTwoRemapper::wired(PORT_B, 13),
        TIM1PartialRemapTwoRemapper::wired(PORT_B, 14),
        TIM1PartialRemapTwoRemapper::wired(PORT_B, 15),
{
    lemma_wired_pin::<PA12, Tim1, TIM1PartialRemapTwoRemapper>();
    lemma_wired_pin::<PA8, Tim1, TIM1PartialRemapTwoRemapper>();
    lemma_wired_pin::<PA9, Tim1, TIM1PartialRemapTwoRemapper>();
    lemma_wired_pin::<PA10, Tim1, TIM1PartialRemapTwoRemapper>();
    lemma_wired_pin::<PA11, Tim1, TIM1PartialRemapTwoRemapper>();
    lemma_wired_pin::<PB5, Tim1, TIM1PartialRemapTwoRemapper>();
    lemma_wired_pin::<PB13, Tim1, TIM1PartialRemapTwoRemapper>();
    lemma_wired_pin::<PB14, Tim1, TIM1PartialRemapTwoRemapper>();
    lemma_wired_pin::<PB15, Tim1, TIM1PartialRemapTwoRemapper>();
}

/// Each pin that TIM1 can use with the full remapping has its `RemapIO`.
pub proof fn lemma_tim1_full_remap_pins()
    ensures
        TIM1FullRemapRemapper::wired(PORT_E, 7),
        TIM1FullRemapRemapper::wired(PORT_E, 9),
        TIM1FullRemapRemapper::wired(PORT_E, 11),
        TIM1FullRemapRemapper::wired(PORT_E, 13),
        TIM1FullRemapRemapper::wired(PORT_E, 14),
        TIM1FullRemapRemapper::wired(PORT_E, 15),
        TIM1FullRemapRemapper::wired(PORT_E, 8),
        TIM1FullRemapRemapper::wired(PORT_E, 10),
        TIM1FullRemapRemapper::wired(PORT_E, 12),
{
    lemma_wired_pin::<PE7, Tim1, TIM1FullRemapRemapper>();
    lemma_wired_pin::<PE9, Tim1, TIM1FullRemapRemapper>();
    lemma_wired_pin::<PE11, Tim1, TIM1FullRemapRemapper>();
    lemma_wired_pin::<PE13, Tim1, TIM1FullRemapRemapper>();
    lemma_wired_pin::<PE14, Tim1, TIM1FullRemapRemapper>();
    lemma_wired_pin::<PE15, Tim1, TIM1FullRemapRemapper>();
    lemma_wired_pin::<PE8, Tim1, TIM1FullRemapRemapper>();
    lemma_wired_pin::<PE10, Tim1, TIM1FullRemapRemapper>();
    lemma_wired_pin::<PE12, Tim1, TIM1FullRemapRemapper>();
}

/// Channel 1 of Tim1: one of the pins that can carry it, in alternate mode
pub enum Ch1<Otype = PushPull> {
    Unconnected(NoPin<Otype>),
    PA8(PA8<Alternate<Otype>>),
    PE7(PE7<Alternate<Otype>>),
}

impl<Otype> Sealed for Ch1<Otype> {

}

impl<Otype> ReadPin for Ch1<Otype> {
    open spec fn spec_is_low(&self, gpio: Gpio) -> bool {
        match self {
            Self::PA8(p) => p.spec_is_low(gpio),
            Self::PE7(p) => p.spec_is_low(gpio),
            Self::Unconnected(_) => false,
        }
    }

    fn is_low(&self, gpio: &Gpio) -> (low: bool) {
        match self {
            Self::PA8(p) => p.is_low(gpio),
            Self::PE7(p) => p.is_low(gpio),
            Self::Unconnected(_) => false,
        }
    }
}

impl<Otype> PinSpeed for Ch1<Otype> {
    open spec fn with_speed(&self, gpio: Gpio, speed: Speed) -> Gpio {
        match self {
            Self::PA8(p) => p.with_speed(gpio, speed),
            Self::PE7(p) => p.with_speed(gpio, speed),
            Self::Unconnected(_) => gpio,
        }
    }

    fn set_speed(&mut self, gpio: &mut Gpio, speed: Speed) {
        match self {
            Self::PA8(p) => PinSpeed::set_speed(p, gpio, speed),
            Self::PE7(p) => PinSpeed::set_speed(p, gpio, speed),
            Self::Unconnected(_) => {},
        }
    }
}

impl<Otype> Ch1<Otype> {
    /// The signal without a pin.
    pub fn from_no_pin<T>(_no: NoPin<T>) -> (signal: Self)
        ensures
            signal is Unconnected,
    {
        Self::Unconnected(NoPin::new())
    }

    /// Puts `PA8` into alternate mode and takes it for the signal.
    pub fn from_pa8<MODE>(p: PA8<MODE>, gpio: &mut Gpio) -> (signal: Self) where
        MODE: NotAlt + PinMode,
        Alternate<Otype>: PinMode,

        ensures
            signal is PA8,
            *final(gpio) == after::<Alternate<Otype>>(*old(gpio), PORT_A, 8),
    {
        Self::PA8(p.into_mode(gpio))
    }

    /// Gives `PA8` back in mode `MODE`, if it carries the signal.
    pub fn try_into_pa8<MODE>(self, gpio: &mut Gpio) -> (pin: Result<PA8<MODE>, ()>) where
        MODE: PinMode,
        Alternate<Otype>: PinMode,

        ensures
            pin is Ok <==> self is PA8,
            pin is Ok ==> *final(gpio) == after::<MODE>(*old(gpio), PORT_A, 8),
            pin is Err ==> *final(gpio) == *old(gpio),
    {
        match self {
            Self::PA8(p) => Ok(p.into_mode(gpio)),
            _ => Err(()),
        }
    }

    /// Puts `PE7` into alternate mode and takes it for the signal.
    pub fn from_pe7<MODE>(p: PE7<MODE>, gpio: &mut Gpio) -> (signal: Self) where
        MODE: NotAlt + PinMode,
        Alternate<Otype>: PinMode,

        ensures
            signal is PE7,
            *final(gpio) == after::<Alternate<Otype>>(*old(gpio), PORT_E, 7),
    {
        Self::PE7(p.into_mode(gpio))
    }

    /// Gives `PE7` back in mode `MODE`, if it carries the signal.
    pub fn try_into_pe7<MODE>(self, gpio: &mut Gpio) -> (pin: Result<PE7<MODE>, ()>) where
        MODE: PinMode,
        Alternate<Otype>: PinMode,

        ensures
            pin is Ok <==> self is PE7,
            pin is Ok ==> *final(gpio) == after::<MODE>(*old(gpio), PORT_E, 7),
            pin is Err ==> *final(gpio) == *old(gpio),
    {
        match self {
            Self::PE7(p) => Ok(p.into_mode(gpio)),
            _ => Err(()),
        }
    }
}

impl<T, Otype> IntoSignal<Ch1<Otype>> for NoPin<T> {
    open spec fn taken(gpio: Gpio) -> Gpio {
        gpio
    }

    fn into_signal(self, gpio: &mut Gpio) -> (signal: Ch1<Otype>) {
        Ch1::from_no_pin(self)
    }
}

impl<MODE, Otype> IntoSignal<Ch1<Otype>> for PA8<MODE> where
    MODE: NotAlt + PinMode,
    Alternate<Otype>: PinMode,
 {
    open spec fn taken(gpio: Gpio) -> Gpio {
        after::<Alternate<Otype>>(gpio, PORT_A, 8)
    }

    fn into_signal(self, gpio: &mut Gpio) -> (signal: Ch1<Otype>) {
        Ch1::from_pa8(self, gpio)
    }
}

impl<Otype> IntoSignal<Ch1<Otype>> for PA8<Alternate<Otype>> {
    open spec fn taken(gpio: Gpio) -> Gpio {
        gpio
    }

    fn into_signal(self, gpio: &mut Gpio) -> (signal: Ch1<Otype>) {
        Ch1::PA8(self)
    }
}

impl<MODE, Otype> IntoSignal<Ch1<Otype>> for PE7<MODE> where
    MODE: NotAlt + PinMode,
    Alternate<Otype>: PinMode,
 {
    open spec fn taken(gpio: Gpio) -> Gpio {
        after::<Alternate<Otype>>(gpio, PORT_E, 7)
    }

    fn into_signal(self, gpio: &mut Gpio) -> (signal: Ch1<Otype>) {
        Ch1::from_pe7(self, gpio)
    }
}

impl<Otype> IntoSignal<Ch1<Otype>> for PE7<Alternate<Otype>> {
    open spec fn taken(gpio: Gpio) -> Gpio {
        gpio
    }

    fn into_signal(self, gpio: &mut Gpio) -> (signal: Ch1<Otype>) {
        Ch1::PE7(self)
    }
}

/// Channel 2 of Tim1: one of the pins that can carry it, in alternate mode
pub enum Ch2<Otype = PushPull> {
    Unconnected(NoPin<Otype>),
    PA9(PA9<Alternate<Otype>>),
    PE9(PE9<Alternate<Otype>>),
}

impl<Otype> Sealed for Ch2<Otype> {

}

impl<Otype> ReadPin for Ch2<Otype> {
    open spec fn spec_is_low(&self, gpio: Gpio) -> bool {
        match self {
            Self::PA9(p) => p.spec_is_low(gpio),
            Self::PE9(p) => p.spec_is_low(gpio),
            Self::Unconnected(_) => false,
        }
    }

    fn is_low(&self, gpio: &Gpio) -> (low: bool) {
        match self {
            Self::PA9(p) => p.is_low(gpio),
            Self::PE9(p) => p.is_low(gpio),
            Self::Unconnected(_) => false,
        }
    }
}

impl<Otype> PinSpeed for Ch2<Otype> {
    open spec fn with_speed(&self, gpio: Gpio, speed: Speed) -> Gpio {
        match self {
            Self::PA9(p) => p.with_speed(gpio, speed),
            Self::PE9(p) => p.with_speed(gpio, speed),
            Self::Unconnected(_) => gpio,
        }
    }

    fn set_speed(&mut self, gpio: &mut Gpio, speed: Speed) {
        match self {
            Self::PA9(p) => PinSpeed::set_speed(p, gpio, speed),
            Self::PE9(p) => PinSpeed::set_speed(p, gpio, speed),
            Self::Unconnected(_) => {},
        }
    }
}

impl<Otype> Ch2<Otype> {
    /// The signal without a pin.
    pub fn from_no_pin<T>(_no: NoPin<T>) -> (signal: Self)
        ensures
            signal is Unconnected,
    {
        Self::Unconnected(NoPin::new())
    }

    /// Puts `PA9` into alternate mode and takes it for the signal.
    pub fn from_pa9<MODE>(p: PA9<MODE>, gpio: &mut Gpio) -> (signal: Self) where
        MODE: NotAlt + PinMode,
        Alternate<Otype>: PinMode,

        ensures
            signal is PA9,
            *final(gpio) == after::<Alternate<Otype>>(*old(gpio), PORT_A, 9),
    {
        Self::PA9(p.into_mode(gpio))
    }

    /// Gives `PA9` back in mode `MODE`, if it carries the signal.
    pub fn try_into_pa9<MODE>(self, gpio: &mut Gpio) -> (pin: Result<PA9<MODE>, ()>) where
        MODE: PinMode,
        Alternate<Otype>: PinMode,

        ensures
            pin is Ok <==> self is PA9,
            pin is Ok ==> *final(gpio) == after::<MODE>(*old(gpio), PORT_A, 9),
            pin is Err ==> *final(gpio) == *old(gpio),
    {
        match self {
            Self::PA9(p) => Ok(p.into_mode(gpio)),
            _ => Err(()),
        }
    }

    /// Puts `PE9` into alternate mode and takes it for the signal.
    pub fn from_pe9<MODE>(p: PE9<MODE>, gpio: &mut Gpio) -> (signal: Self) where
        MODE: NotAlt + PinMode,
        Alternate<Otype>: PinMode,

        ensures
            signal is PE9,
            *final(gpio) == after::<Alternate<Otype>>(*old(gpio), PORT_E, 9),
    {
        Self::PE9(p.into_mode(gpio))
    }

    /// Gives `PE9` back in mode `MODE`, if it carries the signal.
    pub fn try_into_pe9<MODE>(self, gpio: &mut Gpio) -> (pin: Result<PE9<MODE>, ()>) where
        MODE: PinMode,
        Alternate<Otype>: PinMode,

        ensures
            pin is Ok <==> self is PE9,
            pin is Ok ==> *final(gpio) == after::<MODE>(*old(gpio), PORT_E, 9),
            pin is Err ==> *final(gpio) == *old(gpio),
    {
        match self {
            Self::PE9(p) => Ok(p.into_mode(gpio)),
            _ => Err(()),
        }
    }
}

impl<T, Otype> IntoSignal<Ch2<Otype>> for NoPin<T> {
    open spec fn taken(gpio: Gpio) -> Gpio {
        gpio
    }

    fn into_signal(self, gpio: &mut Gpio) -> (signal: Ch2<Otype>) {
        Ch2::from_no_pin(self)
    }
}

impl<MODE, Otype> IntoSignal<Ch2<Otype>> for PA9<MODE> where
    MODE: NotAlt + PinMode,
    Alternate<Otype>: PinMode,
 {
    open spec fn taken(gpio: Gpio) -> Gpio {
        after::<Alternate<Otype>>(gpio, PORT_A, 9)
    }

    fn into_signal(self, gpio: &mut Gpio) -> (signal: Ch2<Otype>) {
        Ch2::from_pa9(self, gpio)
    }
}

impl<Otype> IntoSignal<Ch2<Otype>> for PA9<Alternate<Otype>> {
    open spec fn taken(gpio: Gpio) -> Gpio {
        gpio
    }

    fn into_signal(self, gpio: &mut Gpio) -> (signal: Ch2<Otype>) {
        Ch2::PA9(self)
    }
}

impl<MODE, Otype> IntoSignal<Ch2<Otype>> for PE9<MODE> where
    MODE: NotAlt + PinMode,
    Alternate<Otype>: PinMode,
 {
    open spec fn taken(gpio: Gpio) -> Gpio {
        after::<Alternate<Otype>>(gpio, PORT_E, 9)
    }

    fn into_signal(self, gpio: &mut Gpio) -> (signal: Ch2<Otype>) {
        Ch2::from_pe9(self, gpio)
    }
}

impl<Otype> IntoSignal<Ch2<Otype>> for PE9<Alternate<Otype>> {
    open spec fn taken(gpio: Gpio) -> Gpio {
        gpio
    }

    fn into_signal(self, gpio: &mut Gpio) -> (signal: Ch2<Otype>) {
        Ch2::PE9(self)
    }
}

/// Channel 3 of Tim1: one of the pins that can carry it, in alternate mode
pub enum Ch3<Otype = PushPull> {
    Unconnected(NoPin<Otype>),
    PA10(PA10<Alternate<Otype>>),
    PE13(PE13<Alternate<Otype>>),
}

impl<Otype> Sealed for Ch3<Otype> {

}

impl<Otype> ReadPin for Ch3<Otype> {
    open spec fn spec_is_low(&self, gpio: Gpio) -> bool {
        match self {
            Self::PA10(p) => p.spec_is_low(gpio),
            Self::PE13(p) => p.spec_is_low(gpio),
            Self::Unconnected(_) => false,
        }
    }

    fn is_low(&self, gpio: &Gpio) -> (low: bool) {
        match self {
            Self::PA10(p) => p.is_low(gpio),
            Self::PE13(p) => p.is_low(gpio),
            Self::Unconnected(_) => false,
        }
    }
}

impl<Otype> PinSpeed for Ch3<Otype> {
    open spec fn with_speed(&self, gpio: Gpio, speed: Speed) -> Gpio {
        match self {
            Self::PA10(p) => p.with_speed(gpio, speed),
            Self::PE13(p) => p.with_speed(gpio, speed),
            Self::Unconnected(_) => gpio,
        }
    }

    fn set_speed(&mut self, gpio: &mut Gpio, speed: Speed) {
        match self {
            Self::PA10(p) => PinSpeed::set_speed(p, gpio, speed),
            Self::PE13(p) => PinSpeed::set_speed(p, gpio, speed),
            Self::Unconnected(_) => {},
        }
    }
}

impl<Otype> Ch3<Otype> {
    /// The signal without a pin.
    pub fn from_no_pin<T>(_no: NoPin<T>) -> (signal: Self)
        ensures
            signal is Unconnected,
    {
        Self::Unconnected(NoPin::new())
    }

    /// Puts `PA10` into alternate mode and takes it for the signal.
    pub fn from_pa10<MODE>(p: PA10<MODE>, gpio: &mut Gpio) -> (signal: Self) where
        MODE: NotAlt + PinMode,
        Alternate<Otype>: PinMode,

        ensures
            signal is PA10,
            *final(gpio) == after::<Alternate<Otype>>(*old(gpio), PORT_A, 10),
    {
        Self::PA10(p.into_mode(gpio))
    }

    /// Gives `PA10` back in mode `MODE`, if it carries the signal.
    pub fn try_into_pa10<MODE>(self, gpio: &mut Gpio) -> (pin: Result<PA10<MODE>, ()>) where
        MODE: PinMode,
        Alternate<Otype>: PinMode,

        ensures
            pin is Ok <==> self is PA10,
            pin is Ok ==> *final(gpio) == after::<MODE>(*old(gpio), PORT_A, 10),
            pin is Err ==> *final(gpio) == *old(gpio),
    {
        match self {
            Self::PA10(p) => Ok(p.into_mode(gpio)),
            _ => Err(()),
        }
    }

    /// Puts `PE13` into alternate mode and takes it for the signal.
    pub fn from_pe13<MODE>(p: PE13<MODE>, gpio: &mut Gpio) -> (signal: Self) where
        MODE: NotAlt + PinMode,
        Alternate<Otype>: PinMode,

        ensures
            signal is PE13,
            *final(gpio) == after::<Alternate<Otype>>(*old(gpio), PORT_E, 13),
    {
        Self::PE13(p.into_mode(gpio))
    }

    /// Gives `PE13` back in mode `MODE`, if it carries the signal.
    pub fn try_into_pe13<MODE>(self, gpio: &mut Gpio) -> (pin: Result<PE13<MODE>, ()>) where
        MODE: PinMode,
        Alternate<Otype>: PinMode,

        ensures
            pin is Ok <==> self is PE13,
            pin is Ok ==> *final(gpio) == after::<MODE>(*old(gpio), PORT_E, 13),
            pin is Err ==> *final(gpio) == *old(gpio),
    {
        match self {
            Self::PE13(p) => Ok(p.into_mode(gpio)),
            _ => Err(()),
        }
    }
}

impl<T, Otype> IntoSignal<Ch3<Otype>> for NoPin<T> {
    open spec fn taken(gpio: Gpio) -> Gpio {
        gpio
    }

    fn into_signal(self, gpio: &mut Gpio) -> (signal: Ch3<Otype>) {
        Ch3::from_no_pin(self)
    }
}

impl<MODE, Otype> IntoSignal<Ch3<Otype>> for PA10<MODE> where
    MODE: NotAlt + PinMode,
    Alternate<Otype>: PinMode,
 {
    open spec fn taken(gpio: Gpio) -> Gpio {
        after::<Alternate<Otype>>(gpio, PORT_A, 10)
    }

    fn into_signal(self, gpio: &mut Gpio) -> (signal: Ch3<Otype>) {
        Ch3::from_pa10(self, gpio)
    }
}

impl<Otype> IntoSignal<Ch3<Otype>> for PA10<Alternate<Otype>> {
    open spec fn taken(gpio: Gpio) -> Gpio {
        gpio
    }

    fn into_signal(self, gpio: &mut Gpio) -> (signal: Ch3<Otype>) {
        Ch3::PA10(self)
    }
}

impl<MODE, Otype> IntoSignal<Ch3<Otype>> for PE13<MODE> where
    MODE: NotAlt + PinMode,
    Alternate<Otype>: PinMode,
 {
    open spec fn taken(gpio: Gpio) -> Gpio {
        after::<Alternate<Otype>>(gpio, PORT_E, 13)
    }

    fn into_signal(self, gpio: &mut Gpio) -> (signal: Ch3<Otype>) {
        Ch3::from_pe13(self, gpio)
    }
}

impl<Otype> IntoSignal<Ch3<Otype>> for PE13<Alternate<Otype>> {
    open spec fn taken(gpio: Gpio) -> Gpio {
        gpio
    }

    fn into_signal(self, gpio: &mut Gpio) -> (signal: Ch3<Otype>) {
        Ch3::PE13(self)
    }
}

/// Channel 4 of Tim1: one of the pins that can carry it, in alternate mode
pub enum Ch4<Otype = PushPull> {
    Unconnected(NoPin<Otype>),
    PA11(PA11<Alternate<Otype>>),
    PE14(PE14<Alternate<Otype>>),
}

impl<Otype> Sealed for Ch4<Otype> {

}

impl<Otype> ReadPin for Ch4<Otype> {
    open spec fn spec_is_low(&self, gpio: Gpio) -> bool {
        match self {
            Self::PA11(p) => p.spec_is_low(gpio),
            Self::PE14(p) => p.spec_is_low(gpio),
            Self::Unconnected(_) => false,
        }
    }

    fn is_low(&self, gpio: &Gpio) -> (low: bool) {
        match self {
            Self::PA11(p) => p.is_low(gpio),
            Self::PE14(p) => p.is_low(gpio),
            Self::Unconnected(_) => false,
        }
    }
}

impl<Otype> PinSpeed for Ch4<Otype> {
    open spec fn with_speed(&self, gpio: Gpio, speed: Speed) -> Gpio {
        match self {
            Self::PA11(p) => p.with_speed(gpio, speed),
            Self::PE14(p) => p.with_speed(gpio, speed),
            Self::Unconnected(_) => gpio,
        }
    }

    fn set_speed(&mut self, gpio: &mut Gpio, speed: Speed) {
        match self {
            Self::PA11(p) => PinSpeed::set_speed(p, gpio, speed),
            Self::PE14(p) => PinSpeed::set_speed(p, gpio, speed),
            Self::Unconnected(_) => {},
        }
    }
}

impl<Otype> Ch4<Otype> {
    /// The signal without a pin.
    pub fn from_no_pin<T>(_no: NoPin<T>) -> (signal: Self)
        ensures
            signal is Unconnected,
    {
        Self::Unconnected(NoPin::new())
    }

    /// Puts `PA11` into alternate mode and takes it for the signal.
    pub fn from_pa11<MODE>(p: PA11<MODE>, gpio: &mut Gpio) -> (signal: Self) where
        MODE: NotAlt + PinMode,
        Alternate<Otype>: PinMode,

        ensures
            signal is PA11,
            *final(gpio) == after::<Alternate<Otype>>(*old(gpio), PORT_A, 11),
    {
        Self::PA11(p.into_mode(gpio))
    }

    /// Gives `PA11` back in mode `MODE`, if it carries the signal.
    pub fn try_into_pa11<MODE>(self, gpio: &mut Gpio) -> (pin: Result<PA11<MODE>, ()>) where
        MODE: PinMode,
        Alternate<Otype>: PinMode,

        ensures
            pin is Ok <==> self is PA11,
            pin is Ok ==> *final(gpio) == after::<MODE>(*old(gpio), PORT_A, 11),
            pin is Err ==> *final(gpio) == *old(gpio),
    {
        match self {
            Self::PA11(p) => Ok(p.into_mode(gpio)),
            _ => Err(()),
        }
    }

    /// Puts `PE14` into alternate mode and takes it for the signal.
    pub fn from_pe14<MODE>(p: PE14<MODE>, gpio: &mut Gpio) -> (signal: Self) where
        MODE: NotAlt + PinMode,
        Alternate<Otype>: PinMode,

        ensures
            signal is PE14,
            *final(gpio) == after::<Alternate<Otype>>(*old(gpio), PORT_E, 14),
    {
        Self::PE14(p.into_mode(gpio))
    }

    /// Gives `PE14` back in mode `MODE`, if it carries the signal.
    pub fn try_into_pe14<MODE>(self, gpio: &mut Gpio) -> (pin: Result<PE14<MODE>, ()>) where
        MODE: PinMode,
        Alternate<Otype>: PinMode,

        ensures
            pin is Ok <==> self is PE14,
            pin is Ok ==> *final(gpio) == after::<MODE>(*old(gpio), PORT_E, 14),
            pin is Err ==> *final(gpio) == *old(gpio),
    {
        match self {
            Self::PE14(p) => Ok(p.into_mode(gpio)),
            _ => Err(()),
        }
    }
}

impl<T, Otype> IntoSignal<Ch4<Otype>> for NoPin<T> {
    open spec fn taken(gpio: Gpio) -> Gpio {
        gpio
    }

    fn into_signal(self, gpio: &mut Gpio) -> (signal: Ch4<Otype>) {
        Ch4::from_no_pin(self)
    }
}

impl<MODE, Otype> IntoSignal<Ch4<Otype>> for PA11<MODE> where
    MODE: NotAlt + PinMode,
    Alternate<Otype>: PinMode,
 {
    open spec fn taken(gpio: Gpio) -> Gpio {
        after::<Alternate<Otype>>(gpio, PORT_A, 11)
    }

    fn into_signal(self, gpio: &mut Gpio) -> (signal: Ch4<Otype>) {
        Ch4::from_pa11(self, gpio)
    }
}

impl<Otype> IntoSignal<Ch4<Otype>> for PA11<Alternate<Otype>> {
    open spec fn taken(gpio: Gpio) -> Gpio {
        gpio
    }

    fn into_signal(self, gpio: &mut Gpio) -> (signal: Ch4<Otype>) {
        Ch4::PA11(self)
    }
}

impl<MODE, Otype> IntoSignal<Ch4<Otype>> for PE14<MODE> where
    MODE: NotAlt + PinMode,
    Alternate<Otype>: PinMode,
 {
    open spec fn taken(gpio: Gpio) -> Gpio {
        after::<Alternate<Otype>>(gpio, PORT_E, 14)
    }

    fn into_signal(self, gpio: &mut Gpio) -> (signal: Ch4<Otype>) {
        Ch4::from_pe14(self, gpio)
    }
}

impl<Otype> IntoSignal<Ch4<Otype>> for PE14<Alternate<Otype>> {
    open spec fn taken(gpio: Gpio) -> Gpio {
        gpio
    }

    fn into_signal(self, gpio: &mut Gpio) -> (signal: Ch4<Otype>) {
        Ch4::PE14(self)
    }
}

/// Complementary output of channel 1 of Tim1: one of the pins that can carry it, in alternate mode
pub enum Ch1n<Otype = PushPull> {
    Unconnected(NoPin<Otype>),
    PB13(PB13<Alternate<Otype>>),
    PA7(PA7<Alternate<Otype>>),
    PE8(PE8<Alternate<Otype>>),
}

impl<Otype> Sealed for Ch1n<Otype> {

}

impl<Otype> ReadPin for Ch1n<Otype> {
    open spec fn spec_is_low(&self, gpio: Gpio) -> bool {
        match self {
            Self::PB13(p) => p.spec_is_low(gpio),
            Self::PA7(p) => p.spec_is_low(gpio),
            Self::PE8(p) => p.spec_is_low(gpio),
            Self::Unconnected(_) => false,
        }
    }

    fn is_low(&self, gpio: &Gpio) -> (low: bool) {
        match self {
            Self::PB13(p) => p.is_low(gpio),
            Self::PA7(p) => p.is_low(gpio),
            Self::PE8(p) => p.is_low(gpio),
            Self::Unconnected(_) => false,
        }
    }
}

impl<Otype> PinSpeed for Ch1n<Otype> {
    open spec fn with_speed(&self, gpio: Gpio, speed: Speed) -> Gpio {
        match self {
            Self::PB13(p) => p.with_speed(gpio, speed),
            Self::PA7(p) => p.with_speed(gpio, speed),
            Self::PE8(p) => p.with_speed(gpio, speed),
            Self::Unconnected(_) => gpio,
        }
    }

    fn set_speed(&mut self, gpio: &mut Gpio, speed: Speed) {
        match self {
            Self::PB13(p) => PinSpeed::set_speed(p, gpio, speed),
            Self::PA7(p) => PinSpeed::set_speed(p, gpio, speed),
            Self::PE8(p) => PinSpeed::set_speed(p, gpio, speed),
            Self::Unconnected(_) => {},
        }
    }
}

impl<Otype> Ch1n<Otype> {
    /// The signal without a pin.
    pub fn from_no_pin<T>(_no: NoPin<T>) -> (signal: Self)
        ensures
            signal is Unconnected,
    {
        Self::Unconnected(NoPin::new())
    }

    /// Puts `PB13` into alternate mode and takes it for the signal.
    pub fn from_pb13<MODE>(p: PB13<MODE>, gpio: &mut Gpio) -> (signal: Self) where
        MODE: NotAlt + PinMode,
        Alternate<Otype>: PinMode,

        ensures
            signal is PB13,
            *final(gpio) == after::<Alternate<Otype>>(*old(gpio), PORT_B, 13),
    {
        Self::PB13(p.into_mode(gpio))
    }

    /// Gives `PB13` back in mode `MODE`, if it carries the signal.
    pub fn try_into_pb13<MODE>(self, gpio: &mut Gpio) -> (pin: Result<PB13<MODE>, ()>) where
        MODE: PinMode,
        Alternate<Otype>: PinMode,

        ensures
            pin is Ok <==> self is PB13,
            pin is Ok ==> *final(gpio) == after::<MODE>(*old(gpio), PORT_B, 13),
            pin is Err ==> *final(gpio) == *old(gpio),
    {
        match self {
            Self::PB13(p) => Ok(p.into_mode(gpio)),
            _ => Err(()),
        }
    }

    /// Puts `PA7` into alternate mode and takes it for the signal.
    pub fn from_pa7<MODE>(p: PA7<MODE>, gpio: &mut Gpio) -> (signal: Self) where
        MODE: NotAlt + PinMode,
        Alternate<Otype>: PinMode,

        ensures
            signal is PA7,
            *final(gpio) == after::<Alternate<Otype>>(*old(gpio), PORT_A, 7),
    {
        Self::PA7(p.into_mode(gpio))
    }

    /// Gives `PA7` back in mode `MODE`, if it carries the signal.
    pub fn try_into_pa7<MODE>(self, gpio: &mut Gpio) -> (pin: Result<PA7<MODE>, ()>) where
        MODE: PinMode,
        Alternate<Otype>: PinMode,

        ensures
            pin is Ok <==> self is PA7,
            pin is Ok ==> *final(gpio) == after::<MODE>(*old(gpio), PORT_A, 7),
            pin is Err ==> *final(gpio) == *old(gpio),
    {
        match self {
            Self::PA7(p) => Ok(p.into_mode(gpio)),
            _ => Err(()),
        }
    }

    /// Puts `PE8` into alternate mode and takes it for the signal.
    pub fn from_pe8<MODE>(p: PE8<MODE>, gpio: &mut Gpio) -> (signal: Self) where
        MODE: NotAlt + PinMode,
        Alternate<Otype>: PinMode,

        ensures
            signal is PE8,
            *final(gpio) == after::<Alternate<Otype>>(*old(gpio), PORT_E, 8),
    {
        Self::PE8(p.into_mode(gpio))
    }

    /// Gives `PE8` back in mode `MODE`, if it carries the signal.
    pub fn try_into_pe8<MODE>(self, gpio: &mut Gpio) -> (pin: Result<PE8<MODE>, ()>) where
        MODE: PinMode,
        Alternate<Otype>: PinMode,

        ensures
            pin is Ok <==> self is PE8,
            pin is Ok ==> *final(gpio) == after::<MODE>(*old(gpio), PORT_E, 8),
            pin is Err ==> *final(gpio) == *old(gpio),
    {
        match self {
            Self::PE8(p) => Ok(p.into_mode(gpio)),
            _ => Err(()),
        }
    }
}

impl<T, Otype> IntoSignal<Ch1n<Otype>> for NoPin<T> {
    open spec fn taken(gpio: Gpio) -> Gpio {
        gpio
    }

    fn into_signal(self, gpio: &mut Gpio) -> (signal: Ch1n<Otype>) {
        Ch1n::from_no_pin(self)
    }
}

impl<MODE, Otype> IntoSignal<Ch1n<Otype>> for PB13<MODE> where
    MODE: NotAlt + PinMode,
    Alternate<Otype>: PinMode,
 {
    open spec fn taken(gpio: Gpio) -> Gpio {
        after::<Alternate<Otype>>(gpio, PORT_B, 13)
    }

    fn into_signal(self, gpio: &mut Gpio) -> (signal: Ch1n<Otype>) {
        Ch1n::from_pb13(self, gpio)
    }
}

impl<Otype> IntoSignal<Ch1n<Otype>> for PB13<Alternate<Otype>> {
    open spec fn taken(gpio: Gpio) -> Gpio {
        gpio
    }

    fn into_signal(self, gpio: &mut Gpio) -> (signal: Ch1n<Otype>) {
        Ch1n::PB13(self)
    }
}

impl<MODE, Otype> IntoSignal<Ch1n<Otype>> for PA7<MODE> where
    MODE: NotAlt + PinMode,
    Alternate<Otype>: PinMode,
 {
    open spec fn taken(gpio: Gpio) -> Gpio {
        after::<Alternate<Otype>>(gpio, PORT_A, 7)
    }

    fn into_signal(self, gpio: &mut Gpio) -> (signal: Ch1n<Otype>) {
        Ch1n::from_pa7(self, gpio)
    }
}

impl<Otype> IntoSignal<Ch1n<Otype>> for PA7<Alternate<Otype>> {
    open spec fn taken(gpio: Gpio) -> Gpio {
        gpio
    }

    fn into_signal(self, gpio: &mut Gpio) -> (signal: Ch1n<Otype>) {
        Ch1n::PA7(self)
    }
}

impl<MODE, Otype> IntoSignal<Ch1n<Otype>> for PE8<MODE> where
    MODE: NotAlt + PinMode,
    Alternate<Otype>: PinMode,
 {
    open spec fn taken(gpio: Gpio) -> Gpio {
        after::<Alternate<Otype>>(gpio, PORT_E, 8)
    }

    fn into_signal(self, gpio: &mut Gpio) -> (signal: Ch1n<Otype>) {
        Ch1n::from_pe8(self, gpio)
    }
}

impl<Otype> IntoSignal<Ch1n<Otype>> for PE8<Alternate<Otype>> {
    open spec fn taken(gpio: Gpio) -> Gpio {
        gpio
    }

    fn into_signal(self, gpio: &mut Gpio) -> (signal: Ch1n<Otype>) {
        Ch1n::PE8(self)
    }
}

/// Complementary output of channel 2 of Tim1: one of the pins that can carry it, in alternate mode
pub enum Ch2n<Otype = PushPull> {
    Unconnected(NoPin<Otype>),
    PB14(PB14<Alternate<Otype>>),
    PB0(PB0<Alternate<Otype>>),
    PE10(PE10<Alternate<Otype>>),
}

impl<Otype> Sealed for Ch2n<Otype> {

}

impl<Otype> ReadPin for Ch2n<Otype> {
    open spec fn spec_is_low(&self, gpio: Gpio) -> bool {
        match self {
            Self::PB14(p) => p.spec_is_low(gpio),
            Self::PB0(p) => p.spec_is_low(gpio),
            Self::PE10(p) => p.spec_is_low(gpio),
            Self::Unconnected(_) => false,
        }
    }

    fn is_low(&self, gpio: &Gpio) -> (low: bool) {
        match self {
            Self::PB14(p) => p.is_low(gpio),
            Self::PB0(p) => p.is_low(gpio),
            Self::PE10(p) => p.is_low(gpio),
            Self::Unconnected(_) => false,
        }
    }
}

impl<Otype> PinSpeed for Ch2n<Otype> {
    open spec fn with_speed(&self, gpio: Gpio, speed: Speed) -> Gpio {
        match self {
            Self::PB14(p) => p.with_speed(gpio, speed),
            Self::PB0(p) => p.with_speed(gpio, speed),
            Self::PE10(p) => p.with_speed(gpio, speed),
            Self::Unconnected(_) => gpio,
        }
    }

    fn set_speed(&mut self, gpio: &mut Gpio, speed: Speed) {
        match self {
            Self::PB14(p) => PinSpeed::set_speed(p, gpio, speed),
            Self::PB0(p) => PinSpeed::set_speed(p, gpio, speed),
            Self::PE10(p) => PinSpeed::set_speed(p, gpio, speed),
            Self::Unconnected(_) => {},
        }
    }
}

impl<Otype> Ch2n<Otype> {
    /// The signal without a pin.
    pub fn from_no_pin<T>(_no: NoPin<T>) -> (signal: Self)
        ensures
            signal is Unconnected,
    {
        Self::Unconnected(NoPin::new())
    }

    /// Puts `PB14` into alternate mode and takes it for the signal.
    pub fn from_pb14<MODE>(p: PB14<MODE>, gpio: &mut Gpio) -> (signal: Self) where
        MODE: NotAlt + PinMode,
        Alternate<Otype>: PinMode,

        ensures
            signal is PB14,
            *final(gpio) == after::<Alternate<Otype>>(*old(gpio), PORT_B, 14),
    {
        Self::PB14(p.into_mode(gpio))
    }

    /// Gives `PB14` back in mode `MODE`, if it carries the signal.
    pub fn try_into_pb14<MODE>(self, gpio: &mut Gpio) -> (pin: Result<PB14<MODE>, ()>) where
        MODE: PinMode,
        Alternate<Otype>: PinMode,

        ensures
            pin is Ok <==> self is PB14,
            pin is Ok ==> *final(gpio) == after::<MODE>(*old(gpio), PORT_B, 14),
            pin is Err ==> *final(gpio) == *old(gpio),
    {
        match self {
            Self::PB14(p) => Ok(p.into_mode(gpio)),
            _ => Err(()),
        }
    }

    /// Puts `PB0` into alternate mode and takes it for the signal.
    pub fn from_pb0<MODE>(p: PB0<MODE>, gpio: &mut Gpio) -> (signal: Self) where
        MODE: NotAlt + PinMode,
        Alternate<Otype>: PinMode,

        ensures
            signal is PB0,
            *final(gpio) == after::<Alternate<Otype>>(*old(gpio), PORT_B, 0),
    {
        Self::PB0(p.into_mode(gpio))
    }

    /// Gives `PB0` back in mode `MODE`, if it carries the signal.
    pub fn try_into_pb0<MODE>(self, gpio: &mut Gpio) -> (pin: Result<PB0<MODE>, ()>) where
        MODE: PinMode,
        Alternate<Otype>: PinMode,

        ensures
            pin is Ok <==> self is PB0,
            pin is Ok ==> *final(gpio) == after::<MODE>(*old(gpio), PORT_B, 0),
            pin is Err ==> *final(gpio) == *old(gpio),
    {
        match self {
            Self::PB0(p) => Ok(p.into_mode(gpio)),
            _ => Err(()),
        }
    }

    /// Puts `PE10` into alternate mode and takes it for the signal.
    pub fn from_pe10<MODE>(p: PE10<MODE>, gpio: &mut Gpio) -> (signal: Self) where
        MODE: NotAlt + PinMode,
        Alternate<Otype>: PinMode,

        ensures
            signal is PE10,
            *final(gpio) == after::<Alternate<Otype>>(*old(gpio), PORT_E, 10),
    {
        Self::PE10(p.into_mode(gpio))
    }

    /// Gives `PE10` back in mode `MODE`, if it carries the signal.
    pub fn try_into_pe10<MODE>(self, gpio: &mut Gpio) -> (pin: Result<PE10<MODE>, ()>) where
        MODE: PinMode,
        Alternate<Otype>: PinMode,

        ensures
            pin is Ok <==> self is PE10,
            pin is Ok ==> *final(gpio) == after::<MODE>(*old(gpio), PORT_E, 10),
            pin is Err ==> *final(gpio) == *old(gpio),
    {
        match self {
            Self::PE10(p) => Ok(p.into_mode(gpio)),
            _ => Err(()),
        }
    }
}

impl<T, Otype> IntoSignal<Ch2n<Otype>> for NoPin<T> {
    open spec fn taken(gpio: Gpio) -> Gpio {
        gpio
    }

    fn into_signal(self, gpio: &mut Gpio) -> (signal: Ch2n<Otype>) {
        Ch2n::from_no_pin(self)
    }
}

impl<MODE, Otype> IntoSignal<Ch2n<Otype>> for PB14<MODE> where
    MODE: NotAlt + PinMode,
    Alternate<Otype>: PinMode,
 {
    open spec fn taken(gpio: Gpio) -> Gpio {
        after::<Alternate<Otype>>(gpio, PORT_B, 14)
    }

    fn into_signal(self, gpio: &mut Gpio) -> (signal: Ch2n<Otype>) {
        Ch2n::from_pb14(self, gpio)
    }
}

impl<Otype> IntoSignal<Ch2n<Otype>> for PB14<Alternate<Otype>> {
    open spec fn taken(gpio: Gpio) -> Gpio {
        gpio
    }

    fn into_signal(self, gpio: &mut Gpio) -> (signal: Ch2n<Otype>) {
        Ch2n::PB14(self)
    }
}

impl<MODE, Otype> IntoSignal<Ch2n<Otype>> for PB0<MODE> where
    MODE: NotAlt + PinMode,
    Alternate<Otype>: PinMode,
 {
    open spec fn taken(gpio: Gpio) -> Gpio {
        after::<Alternate<Otype>>(gpio, PORT_B, 0)
    }

    fn into_signal(self, gpio: &mut Gpio) -> (signal: Ch2n<Otype>) {
        Ch2n::from_pb0(self, gpio)
    }
}

impl<Otype> IntoSignal<Ch2n<Otype>> for PB0<Alternate<Otype>> {
    open spec fn taken(gpio: Gpio) -> Gpio {
        gpio
    }

    fn into_signal(self, gpio: &mut Gpio) -> (signal: Ch2n<Otype>) {
        Ch2n::PB0(self)
    }
}

impl<MODE, Otype> IntoSignal<Ch2n<Otype>> for PE10<MODE> where
    MODE: NotAlt + PinMode,
    Alternate<Otype>: PinMode,
 {
    open spec fn taken(gpio: Gpio) -> Gpio {
        after::<Alternate<Otype>>(gpio, PORT_E, 10)
    }

    fn into_signal(self, gpio: &mut Gpio) -> (signal: Ch2n<Otype>) {
        Ch2n::from_pe10(self, gpio)
    }
}

impl<Otype> IntoSignal<Ch2n<Otype>> for PE10<Alternate<Otype>> {
    open spec fn taken(gpio: Gpio) -> Gpio {
        gpio
    }

    fn into_signal(self, gpio: &mut Gpio) -> (signal: Ch2n<Otype>) {
        Ch2n::PE10(self)
    }
}

/// Complementary output of channel 3 of Tim1: one of the pins that can carry it, in alternate mode
pub enum Ch3n<Otype = PushPull> {
    Unconnected(NoPin<Otype>),
    PB15(PB15<Alternate<Otype>>),
    PB1(PB1<Alternate<Otype>>),
    PE12(PE12<Alternate<Otype>>),
}

impl<Otype> Sealed for Ch3n<Otype> {

}

impl<Otype> ReadPin for Ch3n<Otype> {
    open spec fn spec_is_low(&self, gpio: Gpio) -> bool {
        match self {
            Self::PB15(p) => p.spec_is_low(gpio),
            Self::PB1(p) => p.spec_is_low(gpio),
            Self::PE12(p) => p.spec_is_low(gpio),
            Self::Unconnected(_) => false,
        }
    }

    fn is_low(&self, gpio: &Gpio) -> (low: bool) {
        match self {
            Self::PB15(p) => p.is_low(gpio),
            Self::PB1(p) => p.is_low(gpio),
            Self::PE12(p) => p.is_low(gpio),
            Self::Unconnected(_) => false,
        }
    }
}

impl<Otype> PinSpeed for Ch3n<Otype> {
    open spec fn with_speed(&self, gpio: Gpio, speed: Speed) -> Gpio {
        match self {
            Self::PB15(p) => p.with_speed(gpio, speed),
            Self::PB1(p) => p.with_speed(gpio, speed),
            Self::PE12(p) => p.with_speed(gpio, speed),
            Self::Unconnected(_) => gpio,
        }
    }

    fn set_speed(&mut self, gpio: &mut Gpio, speed: Speed) {
        match self {
            Self::PB15(p) => PinSpeed::set_speed(p, gpio, speed),
            Self::PB1(p) => PinSpeed::set_speed(p, gpio, speed),
            Self::PE12(p) => PinSpeed::set_speed(p, gpio, speed),
            Self::Unconnected(_) => {},
        }
    }
}

impl<Otype> Ch3n<Otype> {
    /// The signal without a pin.
    pub fn from_no_pin<T>(_no: NoPin<T>) -> (signal: Self)
        ensures
            signal is Unconnected,
    {
        Self::Unconnected(NoPin::new())
    }

    /// Puts `PB15` into alternate mode and takes it for the signal.
    pub fn from_pb15<MODE>(p: PB15<MODE>, gpio: &mut Gpio) -> (signal: Self) where
        MODE: NotAlt + PinMode,
        Alternate<Otype>: PinMode,

        ensures
            signal is PB15,
            *final(gpio) == after::<Alternate<Otype>>(*old(gpio), PORT_B, 15),
    {
        Self::PB15(p.into_mode(gpio))
    }

    /// Gives `PB15` back in mode `MODE`, if it carries the signal.
    pub fn try_into_pb15<MODE>(self, gpio: &mut Gpio) -> (pin: Result<PB15<MODE>, ()>) where
        MODE: PinMode,
        Alternate<Otype>: PinMode,

        ensures
            pin is Ok <==> self is PB15,
            pin is Ok ==> *final(gpio) == after::<MODE>(*old(gpio), PORT_B, 15),
            pin is Err ==> *final(gpio) == *old(gpio),
    {
        match self {
            Self::PB15(p) => Ok(p.into_mode(gpio)),
            _ => Err(()),
        }
    }

    /// Puts `PB1` into alternate mode and takes it for the signal.
    pub fn from_pb1<MODE>(p: PB1<MODE>, gpio: &mut Gpio) -> (signal: Self) where
        MODE: NotAlt + PinMode,
        Alternate<Otype>: PinMode,

        ensures
            signal is PB1,
            *final(gpio) == after::<Alternate<Otype>>(*old(gpio), PORT_B, 1),
    {
        Self::PB1(p.into_mode(gpio))
    }

    /// Gives `PB1` back in mode `MODE`, if it carries the signal.
    pub fn try_into_pb1<MODE>(self, gpio: &mut Gpio) -> (pin: Result<PB1<MODE>, ()>) where
        MODE: PinMode,
        Alternate<Otype>: PinMode,

        ensures
            pin is Ok <==> self is PB1,
            pin is Ok ==> *final(gpio) == after::<MODE>(*old(gpio), PORT_B, 1),
            pin is Err ==> *final(gpio) == *old(gpio),
    {
        match self {
            Self::PB1(p) => Ok(p.into_mode(gpio)),
            _ => Err(()),
        }
    }

    /// Puts `PE12` into alternate mode and takes it for the signal.
    pub fn from_pe12<MODE>(p: PE12<MODE>, gpio: &mut Gpio) -> (signal: Self) where
        MODE: NotAlt + PinMode,
        Alternate<Otype>: PinMode,

        ensures
            signal is PE12,
            *final(gpio) == after::<Alternate<Otype>>(*old(gpio), PORT_E, 12),
    {
        Self::PE12(p.into_mode(gpio))
    }

    /// Gives `PE12` back in mode `MODE`, if it carries the signal.
    pub fn try_into_pe12<MODE>(self, gpio: &mut Gpio) -> (pin: Result<PE12<MODE>, ()>) where
        MODE: PinMode,
        Alternate<Otype>: PinMode,

        ensures
            pin is Ok <==> self is PE12,
            pin is Ok ==> *final(gpio) == after::<MODE>(*old(gpio), PORT_E, 12),
            pin is Err ==> *final(gpio) == *old(gpio),
    {
        match self {
            Self::PE12(p) => Ok(p.into_mode(gpio)),
            _ => Err(()),
        }
    }
}

impl<T, Otype> IntoSignal<Ch3n<Otype>> for NoPin<T> {
    open spec fn taken(gpio: Gpio) -> Gpio {
        gpio
    }

    fn into_signal(self, gpio: &mut Gpio) -> (signal: Ch3n<Otype>) {
        Ch3n::from_no_pin(self)
    }
}

impl<MODE, Otype> IntoSignal<Ch3n<Otype>> for PB15<MODE> where
    MODE: NotAlt + PinMode,
    Alternate<Otype>: PinMode,
 {
    open spec fn taken(gpio: Gpio) -> Gpio {
        after::<Alternate<Otype>>(gpio, PORT_B, 15)
    }

    fn into_signal(self, gpio: &mut Gpio) -> (signal: Ch3n<Otype>) {
        Ch3n::from_pb15(self, gpio)
    }
}

impl<Otype> IntoSignal<Ch3n<Otype>> for PB15<Alternate<Otype>> {
    open spec fn taken(gpio: Gpio) -> Gpio {
        gpio
    }

    fn into_signal(self, gpio: &mut Gpio) -> (signal: Ch3n<Otype>) {
        Ch3n::PB15(self)
    }
}

impl<MODE, Otype> IntoSignal<Ch3n<Otype>> for PB1<MODE> where
    MODE: NotAlt + PinMode,
    Alternate<Otype>: PinMode,
 {
    open spec fn taken(gpio: Gpio) -> Gpio {
        after::<Alternate<Otype>>(gpio, PORT_B, 1)
    }

    fn into_signal(self, gpio: &mut Gpio) -> (signal: Ch3n<Otype>) {
        Ch3n::from_pb1(self, gpio)
    }
}

impl<Otype> IntoSignal<Ch3n<Otype>> for PB1<Alternate<Otype>> {
    open spec fn taken(gpio: Gpio) -> Gpio {
        gpio
    }

    fn into_signal(self, gpio: &mut Gpio) -> (signal: Ch3n<Otype>) {
        Ch3n::PB1(self)
    }
}

impl<MODE, Otype> IntoSignal<Ch3n<Otype>> for PE12<MODE> where
    MODE: NotAlt + PinMode,
    Alternate<Otype>: PinMode,
 {
    open spec fn taken(gpio: Gpio) -> Gpio {
        after::<Alternate<Otype>>(gpio, PORT_E, 12)
    }

    fn into_signal(self, gpio: &mut Gpio) -> (signal: Ch3n<Otype>) {
        Ch3n::from_pe12(self, gpio)
    }
}

impl<Otype> IntoSignal<Ch3n<Otype>> for PE12<Alternate<Otype>> {
    open spec fn taken(gpio: Gpio) -> Gpio {
        gpio
    }

    fn into_signal(self, gpio: &mut Gpio) -> (signal: Ch3n<Otype>) {
        Ch3n::PE12(self)
    }
}

/// External trigger of Tim1: one of the pins that can carry it, in alternate mode
pub enum Etr<Otype = PushPull> {
    Unconnected(NoPin<Otype>),
    PA12(PA12<Alternate<Otype>>),
    PE7(PE7<Alternate<Otype>>),
}

impl<Otype> Sealed for Etr<Otype> {

}

impl<Otype> ReadPin for Etr<Otype> {
    open spec fn spec_is_low(&self, gpio: Gpio) -> bool {
        match self {
            Self::PA12(p) => p.spec_is_low(gpio),
            Self::PE7(p) => p.spec_is_low(gpio),
            Self::Unconnected(_) => false,
        }
    }

    fn is_low(&self, gpio: &Gpio) -> (low: bool) {
        match self {
            Self::PA12(p) => p.is_low(gpio),
            Self::PE7(p) => p.is_low(gpio),
            Self::Unconnected(_) => false,
        }
    }
}

impl<Otype> PinSpeed for Etr<Otype> {
    open spec fn with_speed(&self, gpio: Gpio, speed: Speed) -> Gpio {
        match self {
            Self::PA12(p) => p.with_speed(gpio, speed),
            Self::PE7(p) => p.with_speed(gpio, speed),
            Self::Unconnected(_) => gpio,
        }
    }

    fn set_speed(&mut self, gpio: &mut Gpio, speed: Speed) {
        match self {
            Self::PA12(p) => PinSpeed::set_speed(p, gpio, speed),
            Self::PE7(p) => PinSpeed::set_speed(p, gpio, speed),
            Self::Unconnected(_) => {},
        }
    }
}

impl<Otype> Etr<Otype> {
    /// The signal without a pin.
    pub fn from_no_pin<T>(_no: NoPin<T>) -> (signal: Self)
        ensures
            signal is Unconnected,
    {
        Self::Unconnected(NoPin::new())
    }

    /// Puts `PA12` into alternate mode and takes it for the signal.
    pub fn from_pa12<MODE>(p: PA12<MODE>, gpio: &mut Gpio) -> (signal: Self) where
        MODE: NotAlt + PinMode,
        Alternate<Otype>: PinMode,

        ensures
            signal is PA12,
            *final(gpio) == after::<Alternate<Otype>>(*old(gpio), PORT_A, 12),
    {
        Self::PA12(p.into_mode(gpio))
    }

    /// Gives `PA12` back in mode `MODE`, if it carries the signal.
    pub fn try_into_pa12<MODE>(self, gpio: &mut Gpio) -> (pin: Result<PA12<MODE>, ()>) where
        MODE: PinMode,
        Alternate<Otype>: PinMode,

        ensures
            pin is Ok <==> self is PA12,
            pin is Ok ==> *final(gpio) == after::<MODE>(*old(gpio), PORT_A, 12),
            pin is Err ==> *final(gpio) == *old(gpio),
    {
        match self {
            Self::PA12(p) => Ok(p.into_mode(gpio)),
            _ => Err(()),
        }
    }

    /// Puts `PE7` into alternate mode and takes it for the signal.
    pub fn from_pe7<MODE>(p: PE7<MODE>, gpio: &mut Gpio) -> (signal: Self) where
        MODE: NotAlt + PinMode,
        Alternate<Otype>: PinMode,

        ensures
            signal is PE7,
            *final(gpio) == after::<Alternate<Otype>>(*old(gpio), PORT_E, 7),
    {
        Self::PE7(p.into_mode(gpio))
    }

    /// Gives `PE7` back in mode `MODE`, if it carries the signal.
    pub fn try_into_pe7<MODE>(self, gpio: &mut Gpio) -> (pin: Result<PE7<MODE>, ()>) where
        MODE: PinMode,
        Alternate<Otype>: PinMode,

        ensures
            pin is Ok <==> self is PE7,
            pin is Ok ==> *final(gpio) == after::<MODE>(*old(gpio), PORT_E, 7),
            pin is Err ==> *final(gpio) == *old(gpio),
    {
        match self {
            Self::PE7(p) => Ok(p.into_mode(gpio)),
            _ => Err(()),
        }
    }
}

impl<T, Otype> IntoSignal<Etr<Otype>> for NoPin<T> {
    open spec fn taken(gpio: Gpio) -> Gpio {
        gpio
    }

    fn into_signal(self, gpio: &mut Gpio) -> (signal: Etr<Otype>) {
        Etr::from_no_pin(self)
    }
}

impl<MODE, Otype> IntoSignal<Etr<Otype>> for PA12<MODE> where
    MODE: NotAlt + PinMode,
    Alternate<Otype>: PinMode,
 {
    open spec fn taken(gpio: Gpio) -> Gpio {
        after::<Alternate<Otype>>(gpio, PORT_A, 12)
    }

    fn into_signal(self, gpio: &mut Gpio) -> (signal: Etr<Otype>) {
        Etr::from_pa12(self, gpio)
    }
}

impl<Otype> IntoSignal<Etr<Otype>> for PA12<Alternate<Otype>> {
    open spec fn taken(gpio: Gpio) -> Gpio {
        gpio
    }

    fn into_signal(self, gpio: &mut Gpio) -> (signal: Etr<Otype>) {
        Etr::PA12(self)
    }
}

impl<MODE, Otype> IntoSignal<Etr<Otype>> for PE7<MODE> where
    MODE: NotAlt + PinMode,
    Alternate<Otype>: PinMode,
 {
    open spec fn taken(gpio: Gpio) -> Gpio {
        after::<Alternate<Otype>>(gpio, PORT_E, 7)
    }

    fn into_signal(self, gpio: &mut Gpio) -> (signal: Etr<Otype>) {
        Etr::from_pe7(self, gpio)
    }
}

impl<Otype> IntoSignal<Etr<Otype>> for PE7<Alternate<Otype>> {
    open spec fn taken(gpio: Gpio) -> Gpio {
        gpio
    }

    fn into_signal(self, gpio: &mut Gpio) -> (signal: Etr<Otype>) {
        Etr::PE7(self)
    }
}

/// Break input of Tim1: one of the pins that can carry it, in alternate mode
pub enum Bkin<Otype = Floating> {
    Unconnected(NoPin<Otype>),
    PB12(PB12<Alternate<Otype>>),
    PA6(PA6<Alternate<Otype>>),
    PB5(PB5<Alternate<Otype>>),
    PE15(PE15<Alternate<Otype>>),
}

impl<Otype> Sealed for Bkin<Otype> {

}

impl<Otype> ReadPin for Bkin<Otype> {
    open spec fn spec_is_low(&self, gpio: Gpio) -> bool {
        match self {
            Self::PB12(p) => p.spec_is_low(gpio),
            Self::PA6(p) => p.spec_is_low(gpio),
            Self::PB5(p) => p.spec_is_low(gpio),
            Self::PE15(p) => p.spec_is_low(gpio),
            Self::Unconnected(_) => false,
        }
    }

    fn is_low(&self, gpio: &Gpio) -> (low: bool) {
        match self {
            Self::PB12(p) => p.is_low(gpio),
            Self::PA6(p) => p.is_low(gpio),
            Self::PB5(p) => p.is_low(gpio),
            Self::PE15(p) => p.is_low(gpio),
            Self::Unconnected(_) => false,
        }
    }
}

impl<Otype> PinSpeed for Bkin<Otype> {
    open spec fn with_speed(&self, gpio: Gpio, speed: Speed) -> Gpio {
        match self {
            Self::PB12(p) => p.with_speed(gpio, speed),
            Self::PA6(p) => p.with_speed(gpio, speed),
            Self::PB5(p) => p.with_speed(gpio, speed),
            Self::PE15(p) => p.with_speed(gpio, speed),
            Self::Unconnected(_) => gpio,
        }
    }

    fn set_speed(&mut self, gpio: &mut Gpio, speed: Speed) {
        match self {
            Self::PB12(p) => PinSpeed::set_speed(p, gpio, speed),
            Self::PA6(p) => PinSpeed::set_speed(p, gpio, speed),
            Self::PB5(p) => PinSpeed::set_speed(p, gpio, speed),
            Self::PE15(p) => PinSpeed::set_speed(p, gpio, speed),
            Self::Unconnected(_) => {},
        }
    }
}

impl<Otype> Bkin<Otype> {
    /// The signal without a pin.
    pub fn from_no_pin<T>(_no: NoPin<T>) -> (signal: Self)
        ensures
            signal is Unconnected,
    {
        Self::Unconnected(NoPin::new())
    }

    /// Puts `PB12` into alternate mode and takes it for the signal.
    pub fn from_pb12<MODE>(p: PB12<MODE>, gpio: &mut Gpio) -> (signal: Self) where
        MODE: NotAlt + PinMode,
        Alternate<Otype>: PinMode,

        ensures
            signal is PB12,
            *final(gpio) == after::<Alternate<Otype>>(*old(gpio), PORT_B, 12),
    {
        Self::PB12(p.into_mode(gpio))
    }

    /// Gives `PB12` back in mode `MODE`, if it carries the signal.
    pub fn try_into_pb12<MODE>(self, gpio: &mut Gpio) -> (pin: Result<PB12<MODE>, ()>) where
        MODE: PinMode,
        Alternate<Otype>: PinMode,

        ensures
            pin is Ok <==> self is PB12,
            pin is Ok ==> *final(gpio) == after::<MODE>(*old(gpio), PORT_B, 12),
            pin is Err ==> *final(gpio) == *old(gpio),
    {
        match self {
            Self::PB12(p) => Ok(p.into_mode(gpio)),
            _ => Err(()),
        }
    }

    /// Puts `PA6` into alternate mode and takes it for the signal.
    pub fn from_pa6<MODE>(p: PA6<MODE>, gpio: &mut Gpio) -> (signal: Self) where
        MODE: NotAlt + PinMode,
        Alternate<Otype>: PinMode,

        ensures
            signal is PA6,
            *final(gpio) == after::<Alternate<Otype>>(*old(gpio), PORT_A, 6),
    {
        Self::PA6(p.into_mode(gpio))
    }

    /// Gives `PA6` back in mode `MODE`, if it carries the signal.
    pub fn try_into_pa6<MODE>(self, gpio: &mut Gpio) -> (pin: Result<PA6<MODE>, ()>) where
        MODE: PinMode,
        Alternate<Otype>: PinMode,

        ensures
            pin is Ok <==> self is PA6,
            pin is Ok ==> *final(gpio) == after::<MODE>(*old(gpio), PORT_A, 6),
            pin is Err ==> *final(gpio) == *old(gpio),
    {
        match self {
            Self::PA6(p) => Ok(p.into_mode(gpio)),
            _ => Err(()),
        }
    }

    /// Puts `PB5` into alternate mode and takes it for the signal.
    pub fn from_pb5<MODE>(p: PB5<MODE>, gpio: &mut Gpio) -> (signal: Self) where
        MODE: NotAlt + PinMode,
        Alternate<Otype>: PinMode,

        ensures
            signal is PB5,
            *final(gpio) == after::<Alternate<Otype>>(*old(gpio), PORT_B, 5),
    {
        Self::PB5(p.into_mode(gpio))
    }

    /// Gives `PB5` back in mode `MODE`, if it carries the signal.
    pub fn try_into_pb5<MODE>(self, gpio: &mut Gpio) -> (pin: Result<PB5<MODE>, ()>) where
        MODE: PinMode,
        Alternate<Otype>: PinMode,

        ensures
            pin is Ok <==> self is PB5,
            pin is Ok ==> *final(gpio) == after::<MODE>(*old(gpio), PORT_B, 5),
            pin is Err ==> *final(gpio) == *old(gpio),
    {
        match self {
            Self::PB5(p) => Ok(p.into_mode(gpio)),
            _ => Err(()),
        }
    }

    /// Puts `PE15` into alternate mode and takes it for the signal.
    pub fn from_pe15<MODE>(p: PE15<MODE>, gpio: &mut Gpio) -> (signal: Self) where
        MODE: NotAlt + PinMode,
        Alternate<Otype>: PinMode,

        ensures
            signal is PE15,
            *final(gpio) == after::<Alternate<Otype>>(*old(gpio), PORT_E, 15),
    {
        Self::PE15(p.into_mode(gpio))
    }

    /// Gives `PE15` back in mode `MODE`, if it carries the signal.
    pub fn try_into_pe15<MODE>(self, gpio: &mut Gpio) -> (pin: Result<PE15<MODE>, ()>) where
        MODE: PinMode,
        Alternate<Otype>: PinMode,

        ensures
            pin is Ok <==> self is PE15,
            pin is Ok ==> *final(gpio) == after::<MODE>(*old(gpio), PORT_E, 15),
            pin is Err ==> *final(gpio) == *old(gpio),
    {
        match self {
            Self::PE15(p) => Ok(p.into_mode(gpio)),
            _ => Err(()),
        }
    }
}

impl<T, Otype> IntoSignal<Bkin<Otype>> for NoPin<T> {
    open spec fn taken(gpio: Gpio) -> Gpio {
        gpio
    }

    fn into_signal(self, gpio: &mut Gpio) -> (signal: Bkin<Otype>) {
        Bkin::from_no_pin(self)
    }
}

impl<MODE, Otype> IntoSignal<Bkin<Otype>> for PB12<MODE> where
    MODE: NotAlt + PinMode,
    Alternate<Otype>: PinMode,
 {
    open spec fn taken(gpio: Gpio) -> Gpio {
        after::<Alternate<Otype>>(gpio, PORT_B, 12)
    }

    fn into_signal(self, gpio: &mut Gpio) -> (signal: Bkin<Otype>) {
        Bkin::from_pb12(self, gpio)
    }
}

impl<Otype> IntoSignal<Bkin<Otype>> for PB12<Alternate<Otype>> {
    open spec fn taken(gpio: Gpio) -> Gpio {
        gpio
    }

    fn into_signal(self, gpio: &mut Gpio) -> (signal: Bkin<Otype>) {
        Bkin::PB12(self)
    }
}

impl<MODE, Otype> IntoSignal<Bkin<Otype>> for PA6<MODE> where
    MODE: NotAlt + PinMode,
    Alternate<Otype>: PinMode,
 {
    open spec fn taken(gpio: Gpio) -> Gpio {
        after::<Alternate<Otype>>(gpio, PORT_A, 6)
    }

    fn into_signal(self, gpio: &mut Gpio) -> (signal: Bkin<Otype>) {
        Bkin::from_pa6(self, gpio)
    }
}

impl<Otype> IntoSignal<Bkin<Otype>> for PA6<Alternate<Otype>> {
    open spec fn taken(gpio: Gpio) -> Gpio {
        gpio
    }

    fn into_signal(self, gpio: &mut Gpio) -> (signal: Bkin<Otype>) {
        Bkin::PA6(self)
    }
}

impl<MODE, Otype> IntoSignal<Bkin<Otype>> for PB5<MODE> where
    MODE: NotAlt + PinMode,
    Alternate<Otype>: PinMode,
 {
    open spec fn taken(gpio: Gpio) -> Gpio {
        after::<Alternate<Otype>>(gpio, PORT_B, 5)
    }

    fn into_signal(self, gpio: &mut Gpio) -> (signal: Bkin<Otype>) {
        Bkin::from_pb5(self, gpio)
    }
}

impl<Otype> IntoSignal<Bkin<Otype>> for PB5<Alternate<Otype>> {
    open spec fn taken(gpio: Gpio) -> Gpio {
        gpio
    }

    fn into_signal(self, gpio: &mut Gpio) -> (signal: Bkin<Otype>) {
        Bkin::PB5(self)
    }
}

impl<MODE, Otype> IntoSignal<Bkin<Otype>> for PE15<MODE> where
    MODE: NotAlt + PinMode,
    Alternate<Otype>: PinMode,
 {
    open spec fn taken(gpio: Gpio) -> Gpio {
        after::<Alternate<Otype>>(gpio, PORT_E, 15)
    }

    fn into_signal(self, gpio: &mut Gpio) -> (signal: Bkin<Otype>) {
        Bkin::from_pe15(self, gpio)
    }
}

impl<Otype> IntoSignal<Bkin<Otype>> for PE15<Alternate<Otype>> {
    open spec fn taken(gpio: Gpio) -> Gpio {
        gpio
    }

    fn into_signal(self, gpio: &mut Gpio) -> (signal: Bkin<Otype>) {
        Bkin::PE15(self)
    }
}

impl<Otype> TimCPin<0, Otype> for Tim1 {
    type Ch = Ch1<Otype>;
}

impl<Otype> TimCPin<1, Otype> for Tim1 {
    type Ch = Ch2<Otype>;
}

impl<Otype> TimCPin<2, Otype> for Tim1 {
    type Ch = Ch3<Otype>;
}

impl<Otype> TimCPin<3, Otype> for Tim1 {
    type Ch = Ch4<Otype>;
}

impl<Otype> TimNCPin<0, Otype> for Tim1 {
    type ChN = Ch1n<Otype>;
}

impl<Otype> TimNCPin<1, Otype> for Tim1 {
    type ChN = Ch2n<Otype>;
}

impl<Otype> TimNCPin<2, Otype> for Tim1 {
    type ChN = Ch3n<Otype>;
}

impl TimBkin for Tim1 {
    type Bkin = Bkin;
}

} // verus!
