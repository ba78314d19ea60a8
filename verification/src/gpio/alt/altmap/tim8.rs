//! TIM8: where its signals can be routed to, and how.

use vstd::prelude::*;
use crate::gpio::Alternate;
use crate::gpio::Floating;
use crate::gpio::NoPin;
use crate::gpio::PinMode;
use crate::gpio::PinSpeed;
use crate::gpio::PushPull;
use crate::gpio::ReadPin;
use crate::gpio::Speed;
use crate::gpio::alt::IntoSignal;
use crate::gpio::alt::TimBkin;
use crate::gpio::alt::TimCPin;
use crate::gpio::alt::TimNCPin;
use crate::gpio::alt::altmap::Remap;
use crate::gpio::alt::altmap::RemapIO;
use crate::gpio::alt::altmap::lemma_wired_pin;
use crate::gpio::convert::after;
use crate::gpio::marker::NotAlt;
use crate::gpio::port::PORT_A;
use crate::gpio::port::PORT_B;
use crate::gpio::port::PORT_C;
use crate::gpio::port::PORT_D;
use crate::pac::Afio;
use crate::pac::Gpio;
use crate::pac::Tim8;
use crate::sealed::Sealed;
use crate::gpio::PA0;
use crate::gpio::PA6;
use crate::gpio::PA7;
use crate::gpio::PA15;
use crate::gpio::PB0;
use crate::gpio::PB1;
use crate::gpio::PB3;
use crate::gpio::PB4;
use crate::gpio::PC6;
use crate::gpio::PC7;
use crate::gpio::PC8;
use crate::gpio::PC9;
use crate::gpio::PC12;
use crate::gpio::PD2;
use crate::gpio::PD14;
use crate::gpio::PD15;

verus! {

/// TIM8 without remapping
pub struct TIM8NoRemapRemapper();

/// TIM8 with the partial remapping
pub struct TIM8PartialRemapRemapper();

/// TIM8 with the full remapping
pub struct TIM8FullRemapRemapper();

impl Remap for TIM8NoRemapRemapper {
    open spec fn remapped(afio: Afio) -> Afio {
        Afio {
            rmp_cfg3: crate::pac::RmpCfg3 { tim8_rmp: 0, ..afio.rmp_cfg3 },
            ..afio
        }
    }

    open spec fn wired(port: u8, pin: u8) -> bool {
        ||| port == PORT_A && (pin == 0 || pin == 6 || pin == 7)
        ||| port == PORT_C && (pin == 6 || pin == 7 || pin == 8 || pin == 9)
        ||| port == PORT_B && (pin == 0 || pin == 1)
    }

    fn remap(afio: &mut Afio) {
        afio.rmp_cfg3.tim8_rmp = 0;
    }
}

impl Remap for TIM8PartialRemapRemapper {
    open spec fn remapped(afio: Afio) -> Afio {
        Afio {
            rmp_cfg3: crate::pac::RmpCfg3 { tim8_rmp: 1, ..afio.rmp_cfg3 },
            ..afio
        }
    }

    open spec fn wired(port: u8, pin: u8) -> bool {
        ||| port == PORT_B && (pin == 4 || pin == 3)
        ||| port == PORT_C && (pin == 6 || pin == 7 || pin == 8 || pin == 9 || pin == 12)
        ||| port == PORT_A && pin == 15
        ||| port == PORT_D && pin == 2
    }

    fn remap(afio: &mut Afio) {
        afio.rmp_cfg3.tim8_rmp = 1;
    }
}

impl Remap for TIM8FullRemapRemapper {
    open spec fn remapped(afio: Afio) -> Afio {
        Afio {
            rmp_cfg3: crate::pac::RmpCfg3 { tim8_rmp: 3, ..afio.rmp_cfg3 },
            ..afio
        }
    }

    open spec fn wired(port: u8, pin: u8) -> bool {
        ||| port == PORT_B && (pin == 4 || pin == 3)
        ||| port == PORT_D && (pin == 14 || pin == 15 || pin == 2)
        ||| port == PORT_C && (pin == 8 || pin == 9 || pin == 12)
        ||| port == PORT_A && pin == 15
    }

    fn remap(afio: &mut Afio) {
        afio.rmp_cfg3.tim8_rmp = 3;
    }
}

impl RemapIO<Tim8, TIM8NoRemapRemapper> for PA0 {
    proof fn lemma_wired() {
    }
}

impl RemapIO<Tim8, TIM8NoRemapRemapper> for PC6 {
    proof fn lemma_wired() {
    }
}

impl RemapIO<Tim8, TIM8NoRemapRemapper> for PC7 {
    proof fn lemma_wired() {
    }
}

impl RemapIO<Tim8, TIM8NoRemapRemapper> for PC8 {
    proof fn lemma_wired() {
    }
}

impl RemapIO<Tim8, TIM8NoRemapRemapper> for PC9 {
    proof fn lemma_wired() {
    }
}

impl RemapIO<Tim8, TIM8NoRemapRemapper> for PA6 {
    proof fn lemma_wired() {
    }
}

impl RemapIO<Tim8, TIM8NoRemapRemapper> for PA7 {
    proof fn lemma_wired() {
    }
}

impl RemapIO<Tim8, TIM8NoRemapRemapper> for PB0 {
    proof fn lemma_wired() {
    }
}

impl RemapIO<Tim8, TIM8NoRemapRemapper> for PB1 {
    proof fn lemma_wired() {
    }
}

impl RemapIO<Tim8, TIM8PartialRemapRemapper> for PB4 {
    proof fn lemma_wired() {
    }
}

impl RemapIO<Tim8, TIM8PartialRemapRemapper> for PC6 {
    proof fn lemma_wired() {
    }
}

impl RemapIO<Tim8, TIM8PartialRemapRemapper> for PC7 {
    proof fn lemma_wired() {
    }
}

impl RemapIO<Tim8, TIM8PartialRemapRemapper> for PC8 {
    proof fn lemma_wired() {
    }
}

impl RemapIO<Tim8, TIM8PartialRemapRemapper> for PC9 {
    proof fn lemma_wired() {
    }
}

impl RemapIO<Tim8, TIM8PartialRemapRemapper> for PB3 {
    proof fn lemma_wired() {
    }
}

impl RemapIO<Tim8, TIM8PartialRemapRemapper> for PA15 {
    proof fn lemma_wired() {
    }
}

impl RemapIO<Tim8, TIM8PartialRemapRemapper> for PC12 {
    proof fn lemma_wired() {
    }
}

impl RemapIO<Tim8, TIM8PartialRemapRemapper> for PD2 {
    proof fn lemma_wired() {
    }
}

impl RemapIO<Tim8, TIM8FullRemapRemapper> for PB4 {
    proof fn lemma_wired() {
    }
}

impl RemapIO<Tim8, TIM8FullRemapRemapper> for PD14 {
    proof fn lemma_wired() {
    }
}

impl RemapIO<Tim8, TIM8FullRemapRemapper> for PD15 {
    proof fn lemma_wired() {
    }
}

impl RemapIO<Tim8, TIM8FullRemapRemapper> for PC8 {
    proof fn lemma_wired() {
    }
}

impl RemapIO<Tim8, TIM8FullRemapRemapper> for PC9 {
    proof fn lemma_wired() {
    }
}

impl RemapIO<Tim8, TIM8FullRemapRemapper> for PB3 {
    proof fn lemma_wired() {
    }
}

impl RemapIO<Tim8, TIM8FullRemapRemapper> for PA15 {
    proof fn lemma_wired() {
    }
}

impl RemapIO<Tim8, TIM8FullRemapRemapper> for PC12 {
    proof fn lemma_wired() {
    }
}

impl RemapIO<Tim8, TIM8FullRemapRemapper> for PD2 {
    proof fn lemma_wired() {
    }
}

/// Each pin that TIM8 can use without remapping has its `RemapIO`.
pub proof fn lemma_tim8_no_remap_pins()
    ensures
        TIM8NoRemapRemapper::wired(PORT_A, 0),
        TIM8NoRemapRemapper::wired(PORT_C, 6),
        TIM8NoRemapRemapper::wired(PORT_C, 7),
        TIM8NoRemapRemapper::wired(PORT_C, 8),
        TIM8NoRemapRemapper::wired(PORT_C, 9),
        TIM8NoRemapRemapper::wired(PORT_A, 6),
        TIM8NoRemapRemapper::wired(PORT_A, 7),
        TIM8NoRemapRemapper::wired(PORT_B, 0),
        TIM8NoRemapRemapper::wired(PORT_B, 1),
{
    lemma_wired_pin::<PA0, Tim8, TIM8NoRemapRemapper>();
    lemma_wired_pin::<PC6, Tim8, TIM8NoRemapRemapper>();
    lemma_wired_pin::<PC7, Tim8, TIM8NoRemapRemapper>();
    lemma_wired_pin::<PC8, Tim8, TIM8NoRemapRemapper>();
    lemma_wired_pin::<PC9, Tim8, TIM8NoRemapRemapper>();
    lemma_wired_pin::<PA6, Tim8, TIM8NoRemapRemapper>();
    lemma_wired_pin::<PA7, Tim8, TIM8NoRemapRemapper>();
    lemma_wired_pin::<PB0, Tim8, TIM8NoRemapRemapper>();
    lemma_wired_pin::<PB1, Tim8, TIM8NoRemapRemapper>();
}

/// Each pin that TIM8 can use with the partial remapping has its `RemapIO`.
pub proof fn lemma_tim8_partial_remap_pins()
    ensures
        TIM8PartialRemapRemapper::wired(PORT_B, 4),
        TIM8PartialRemapRemapper::wired(PORT_C, 6),
        TIM8PartialRemapRemapper::wired(PORT_C, 7),
        TIM8PartialRemapRemapper::wired(PORT_C, 8),
        TIM8PartialRemapRemapper::wired(PORT_C, 9),
        TIM8PartialRemapRemapper::wired(PORT_B, 3),
        TIM8PartialRemapRemapper::wired(PORT_A, 15),
        TIM8PartialRemapRemapper::wired(PORT_C, 12),
        TIM8PartialRemapRemapper::wired(PORT_D, 2),
{
    lemma_wired_pin::<PB4, Tim8, TIM8PartialRemapRemapper>();
    lemma_wired_pin::<PC6, Tim8, TIM8PartialRemapRemapper>();
    lemma_wired_pin::<PC7, Tim8, TIM8PartialRemapRemapper>();
    lemma_wired_pin::<PC8, Tim8, TIM8PartialRemapRemapper>();
    lemma_wired_pin::<PC9, Tim8, TIM8PartialRemapRemapper>();
    lemma_wired_pin::<PB3, Tim8, TIM8PartialRemapRemapper>();
    lemma_wired_pin::<PA15, Tim8, TIM8PartialRemapRemapper>();
    lemma_wired_pin::<PC12, Tim8, TIM8PartialRemapRemapper>();
    lemma_wired_pin::<PD2, Tim8, TIM8PartialRemapRemapper>();
}

/// Each pin that TIM8 can use with the full remapping has its `RemapIO`.
pub proof fn lemma_tim8_full_remap_pins()
    ensures
        TIM8FullRemapRemapper::wired(PORT_B, 4),
        TIM8FullRemapRemapper::wired(PORT_D, 14),
        TIM8FullRemapRemapper::wired(PORT_D, 15),
        TIM8FullRemapRemapper::wired(PORT_C, 8),
        TIM8FullRemapRemapper::wired(PORT_C, 9),
        TIM8FullRemapRemapper::wired(PORT_B, 3),
        TIM8FullRemapRemapper::wired(PORT_A, 15),
        TIM8FullRemapRemapper::wired(PORT_C, 12),
        TIM8FullRemapRemapper::wired(PORT_D, 2),
{
    lemma_wired_pin::<PB4, Tim8, TIM8FullRemapRemapper>();
    lemma_wired_pin::<PD14, Tim8, TIM8FullRemapRemapper>();
    lemma_wired_pin::<PD15, Tim8, TIM8FullRemapRemapper>();
    lemma_wired_pin::<PC8, Tim8, TIM8FullRemapRemapper>();
    lemma_wired_pin::<PC9, Tim8, TIM8FullRemapRemapper>();
    lemma_wired_pin::<PB3, Tim8, TIM8FullRemapRemapper>();
    lemma_wired_pin::<PA15, Tim8, TIM8FullRemapRemapper>();
    lemma_wired_pin::<PC12, Tim8, TIM8FullRemapRemapper>();
    lemma_wired_pin::<PD2, Tim8, TIM8FullRemapRemapper>();
}

/// Channel 1 of Tim8: one of the pins that can carry it, in alternate mode
pub enum Ch1<Otype = PushPull> {
    Unconnected(NoPin<Otype>),
    PC6(PC6<Alternate<Otype>>),
    PD14(PD14<Alternate<Otype>>),
}

impl<Otype> Sealed for Ch1<Otype> {

}

impl<Otype> ReadPin for Ch1<Otype> {
    open spec fn spec_is_low(&self, gpio: Gpio) -> bool {
        match self {
            Self::PC6(p) => p.spec_is_low(gpio),
            Self::PD14(p) => p.spec_is_low(gpio),
            Self::Unconnected(_) => false,
        }
    }

    fn is_low(&self, gpio: &Gpio) -> (low: bool) {
        match self {
            Self::PC6(p) => p.is_low(gpio),
            Self::PD14(p) => p.is_low(gpio),
            Self::Unconnected(_) => false,
        }
    }
}

impl<Otype> PinSpeed for Ch1<Otype> {
    open spec fn with_speed(&self, gpio: Gpio, speed: Speed) -> Gpio {
        match self {
            Self::PC6(p) => p.with_speed(gpio, speed),
            Self::PD14(p) => p.with_speed(gpio, speed),
            Self::Unconnected(_) => gpio,
        }
    }

    fn set_speed(&mut self, gpio: &mut Gpio, speed: Speed) {
        match self {
            Self::PC6(p) => PinSpeed::set_speed(p, gpio, speed),
            Self::PD14(p) => PinSpeed::set_speed(p, gpio, speed),
            Self::Unconnected(_) => {},
        }
    }
}

impl<Otype> Ch1<Otype> {
    /// The signal without a pin.
    pub fn from_no_pin<T>(_no: NoPin<T>) -> (signal: Self)
        ensures
            signal is Unconnected,
    {
        Self::Unconnected(NoPin::new())
    }

    /// Puts `PC6` into alternate mode and takes it for the signal.
    pub fn from_pc6<MODE>(p: PC6<MODE>, gpio: &mut Gpio) -> (signal: Self) where
        MODE: NotAlt + PinMode,
        Alternate<Otype>: PinMode,

        ensures
            signal is PC6,
            *final(gpio) == after::<Alternate<Otype>>(*old(gpio), PORT_C, 6),
    {
        Self::PC6(p.into_mode(gpio))
    }

    /// Gives `PC6` back in mode `MODE`, if it carries the signal.
    pub fn try_into_pc6<MODE>(self, gpio: &mut Gpio) -> (pin: Result<PC6<MODE>, ()>) where
        MODE: PinMode,
        Alternate<Otype>: PinMode,

        ensures
            pin is Ok <==> self is PC6,
            pin is Ok ==> *final(gpio) == after::<MODE>(*old(gpio), PORT_C, 6),
            pin is Err ==> *final(gpio) == *old(gpio),
    {
        match self {
            Self::PC6(p) => Ok(p.into_mode(gpio)),
            _ => Err(()),
        }
    }

    /// Puts `PD14` into alternate mode and takes it for the signal.
    pub fn from_pd14<MODE>(p: PD14<MODE>, gpio: &mut Gpio) -> (signal: Self) where
        MODE: NotAlt + PinMode,
        Alternate<Otype>: PinMode,

        ensures
            signal is PD14,
            *final(gpio) == after::<Alternate<Otype>>(*old(gpio), PORT_D, 14),
    {
        Self::PD14(p.into_mode(gpio))
    }

    /// Gives `PD14` back in mode `MODE`, if it carries the signal.
    pub fn try_into_pd14<MODE>(self, gpio: &mut Gpio) -> (pin: Result<PD14<MODE>, ()>) where
        MODE: PinMode,
        Alternate<Otype>: PinMode,

        ensures
            pin is Ok <==> self is PD14,
            pin is Ok ==> *final(gpio) == after::<MODE>(*old(gpio), PORT_D, 14),
            pin is Err ==> *final(gpio) == *old(gpio),
    {
        match self {
            Self::PD14(p) => Ok(p.into_mode(gpio)),
            _ => Err(()),
        }
    }
}

impl<T, Otype> IntoSignal<Ch1<Otype>> for NoPin<T> {
    open spec fn taken(gpio: Gpio) -> Gpio {
        gpio
    }

    fn into_signal(self, gpio: &mut Gpio) -> (signal: Ch1<Otype>) {
        Ch1::from_no_pin(self)
    }
}

impl<MODE, Otype> IntoSignal<Ch1<Otype>> for PC6<MODE> where
    MODE: NotAlt + PinMode,
    Alternate<Otype>: PinMode,
 {
    open spec fn taken(gpio: Gpio) -> Gpio {
        after::<Alternate<Otype>>(gpio, PORT_C, 6)
    }

    fn into_signal(self, gpio: &mut Gpio) -> (signal: Ch1<Otype>) {
        Ch1::from_pc6(self, gpio)
    }
}

impl<Otype> IntoSignal<Ch1<Otype>> for PC6<Alternate<Otype>> {
    open spec fn taken(gpio: Gpio) -> Gpio {
        gpio
    }

    fn into_signal(self, gpio: &mut Gpio) -> (signal: Ch1<Otype>) {
        Ch1::PC6(self)
    }
}

impl<MODE, Otype> IntoSignal<Ch1<Otype>> for PD14<MODE> where
    MODE: NotAlt + PinMode,
    Alternate<Otype>: PinMode,
 {
    open spec fn taken(gpio: Gpio) -> Gpio {
        after::<Alternate<Otype>>(gpio, PORT_D, 14)
    }

    fn into_signal(self, gpio: &mut Gpio) -> (signal: Ch1<Otype>) {
        Ch1::from_pd14(self, gpio)
    }
}

impl<Otype> IntoSignal<Ch1<Otype>> for PD14<Alternate<Otype>> {
    open spec fn taken(gpio: Gpio) -> Gpio {
        gpio
    }

    fn into_signal(self, gpio: &mut Gpio) -> (signal: Ch1<Otype>) {
        Ch1::PD14(self)
    }
}

/// Channel 2 of Tim8: one of the pins that can carry it, in alternate mode
pub enum Ch2<Otype = PushPull> {
    Unconnected(NoPin<Otype>),
    PC7(PC7<Alternate<Otype>>),
    PD15(PD15<Alternate<Otype>>),
}

impl<Otype> Sealed for Ch2<Otype> {

}

impl<Otype> ReadPin for Ch2<Otype> {
    open spec fn spec_is_low(&self, gpio: Gpio) -> bool {
        match self {
            Self::PC7(p) => p.spec_is_low(gpio),
            Self::PD15(p) => p.spec_is_low(gpio),
            Self::Unconnected(_) => false,
        }
    }

    fn is_low(&self, gpio: &Gpio) -> (low: bool) {
        match self {
            Self::PC7(p) => p.is_low(gpio),
            Self::PD15(p) => p.is_low(gpio),
            Self::Unconnected(_) => false,
        }
    }
}

impl<Otype> PinSpeed for Ch2<Otype> {
    open spec fn with_speed(&self, gpio: Gpio, speed: Speed) -> Gpio {
        match self {
            Self::PC7(p) => p.with_speed(gpio, speed),
            Self::PD15(p) => p.with_speed(gpio, speed),
            Self::Unconnected(_) => gpio,
        }
    }

    fn set_speed(&mut self, gpio: &mut Gpio, speed: Speed) {
        match self {
            Self::PC7(p) => PinSpeed::set_speed(p, gpio, speed),
            Self::PD15(p) => PinSpeed::set_speed(p, gpio, speed),
            Self::Unconnected(_) => {},
        }
    }
}

impl<Otype> Ch2<Otype> {
    /// The signal without a pin.
    pub fn from_no_pin<T>(_no: NoPin<T>) -> (signal: Self)
        ensures
            signal is Unconnected,
    {
        Self::Unconnected(NoPin::new())
    }

    /// Puts `PC7` into alternate mode and takes it for the signal.
    pub fn from_pc7<MODE>(p: PC7<MODE>, gpio: &mut Gpio) -> (signal: Self) where
        MODE: NotAlt + PinMode,
        Alternate<Otype>: PinMode,

        ensures
            signal is PC7,
            *final(gpio) == after::<Alternate<Otype>>(*old(gpio), PORT_C, 7),
    {
        Self::PC7(p.into_mode(gpio))
    }

    /// Gives `PC7` back in mode `MODE`, if it carries the signal.
    pub fn try_into_pc7<MODE>(self, gpio: &mut Gpio) -> (pin: Result<PC7<MODE>, ()>) where
        MODE: PinMode,
        Alternate<Otype>: PinMode,

        ensures
            pin is Ok <==> self is PC7,
            pin is Ok ==> *final(gpio) == after::<MODE>(*old(gpio), PORT_C, 7),
            pin is Err ==> *final(gpio) == *old(gpio),
    {
        match self {
            Self::PC7(p) => Ok(p.into_mode(gpio)),
            _ => Err(()),
        }
    }

    /// Puts `PD15` into alternate mode and takes it for the signal.
    pub fn from_pd15<MODE>(p: PD15<MODE>, gpio: &mut Gpio) -> (signal: Self) where
        MODE: NotAlt + PinMode,
        Alternate<Otype>: PinMode,

        ensures
            signal is PD15,
            *final(gpio) == after::<Alternate<Otype>>(*old(gpio), PORT_D, 15),
    {
        Self::PD15(p.into_mode(gpio))
    }

    /// Gives `PD15` back in mode `MODE`, if it carries the signal.
    pub fn try_into_pd15<MODE>(self, gpio: &mut Gpio) -> (pin: Result<PD15<MODE>, ()>) where
        MODE: PinMode,
        Alternate<Otype>: PinMode,

        ensures
            pin is Ok <==> self is PD15,
            pin is Ok ==> *final(gpio) == after::<MODE>(*old(gpio), PORT_D, 15),
            pin is Err ==> *final(gpio) == *old(gpio),
    {
        match self {
            Self::PD15(p) => Ok(p.into_mode(gpio)),
            _ => Err(()),
        }
    }
}

impl<T, Otype> IntoSignal<Ch2<Otype>> for NoPin<T> {
    open spec fn taken(gpio: Gpio) -> Gpio {
        gpio
    }

    fn into_signal(self, gpio: &mut Gpio) -> (signal: Ch2<Otype>) {
        Ch2::from_no_pin(self)
    }
}

impl<MODE, Otype> IntoSignal<Ch2<Otype>> for PC7<MODE> where
    MODE: NotAlt + PinMode,
    Alternate<Otype>: PinMode,
 {
    open spec fn taken(gpio: Gpio) -> Gpio {
        after::<Alternate<Otype>>(gpio, PORT_C, 7)
    }

    fn into_signal(self, gpio: &mut Gpio) -> (signal: Ch2<Otype>) {
        Ch2::from_pc7(self, gpio)
    }
}

impl<Otype> IntoSignal<Ch2<Otype>> for PC7<Alternate<Otype>> {
    open spec fn taken(gpio: Gpio) -> Gpio {
        gpio
    }

    fn into_signal(self, gpio: &mut Gpio) -> (signal: Ch2<Otype>) {
        Ch2::PC7(self)
    }
}

impl<MODE, Otype> IntoSignal<Ch2<Otype>> for PD15<MODE> where
    MODE: NotAlt + PinMode,
    Alternate<Otype>: PinMode,
 {
    open spec fn taken(gpio: Gpio) -> Gpio {
        after::<Alternate<Otype>>(gpio, PORT_D, 15)
    }

    fn into_signal(self, gpio: &mut Gpio) -> (signal: Ch2<Otype>) {
        Ch2::from_pd15(self, gpio)
    }
}

impl<Otype> IntoSignal<Ch2<Otype>> for PD15<Alternate<Otype>> {
    open spec fn taken(gpio: Gpio) -> Gpio {
        gpio
    }

    fn into_signal(self, gpio: &mut Gpio) -> (signal: Ch2<Otype>) {
        Ch2::PD15(self)
    }
}

/// Channel 3 of Tim8: one of the pins that can carry it, in alternate mode
pub enum Ch3<Otype = PushPull> {
    Unconnected(NoPin<Otype>),
    PC8(PC8<Alternate<Otype>>),
}

impl<Otype> Sealed for Ch3<Otype> {

}

impl<Otype> ReadPin for Ch3<Otype> {
    open spec fn spec_is_low(&self, gpio: Gpio) -> bool {
        match self {
            Self::PC8(p) => p.spec_is_low(gpio),
            Self::Unconnected(_) => false,
        }
    }

    fn is_low(&self, gpio: &Gpio) -> (low: bool) {
        match self {
            Self::PC8(p) => p.is_low(gpio),
            Self::Unconnected(_) => false,
        }
    }
}

impl<Otype> PinSpeed for Ch3<Otype> {
    open spec fn with_speed(&self, gpio: Gpio, speed: Speed) -> Gpio {
        match self {
            Self::PC8(p) => p.with_speed(gpio, speed),
            Self::Unconnected(_) => gpio,
        }
    }

    fn set_speed(&mut self, gpio: &mut Gpio, speed: Speed) {
        match self {
            Self::PC8(p) => PinSpeed::set_speed(p, gpio, speed),
            Self::Unconnected(_) => {},
        }
    }
}

impl<Otype> Ch3<Otype> {
    /// The signal without a pin.
    pub fn from_no_pin<T>(_no: NoPin<T>) -> (signal: Self)
        ensures
            signal is Unconnected,
    {
        Self::Unconnected(NoPin::new())
    }

    /// Puts `PC8` into alternate mode and takes it for the signal.
    pub fn from_pc8<MODE>(p: PC8<MODE>, gpio: &mut Gpio) -> (signal: Self) where
        MODE: NotAlt + PinMode,
        Alternate<Otype>: PinMode,

        ensures
            signal is PC8,
            *final(gpio) == after::<Alternate<Otype>>(*old(gpio), PORT_C, 8),
    {
        Self::PC8(p.into_mode(gpio))
    }

    /// Gives `PC8` back in mode `MODE`, if it carries the signal.
    pub fn try_into_pc8<MODE>(self, gpio: &mut Gpio) -> (pin: Result<PC8<MODE>, ()>) where
        MODE: PinMode,
        Alternate<Otype>: PinMode,

        ensures
            pin is Ok <==> self is PC8,
            pin is Ok ==> *final(gpio) == after::<MODE>(*old(gpio), PORT_C, 8),
            pin is Err ==> *final(gpio) == *old(gpio),
    {
        match self {
            Self::PC8(p) => Ok(p.into_mode(gpio)),
            _ => Err(()),
        }
    }
}

impl<T, Otype> IntoSignal<Ch3<Otype>> for NoPin<T> {
    open spec fn taken(gpio: Gpio) -> Gpio {
        gpio
    }

    fn into_signal(self, gpio: &mut Gpio) -> (signal: Ch3<Otype>) {
        Ch3::from_no_pin(self)
    }
}

impl<MODE, Otype> IntoSignal<Ch3<Otype>> for PC8<MODE> where
    MODE: NotAlt + PinMode,
    Alternate<Otype>: PinMode,
 {
    open spec fn taken(gpio: Gpio) -> Gpio {
        after::<Alternate<Otype>>(gpio, PORT_C, 8)
    }

    fn into_signal(self, gpio: &mut Gpio) -> (signal: Ch3<Otype>) {
        Ch3::from_pc8(self, gpio)
    }
}

impl<Otype> IntoSignal<Ch3<Otype>> for PC8<Alternate<Otype>> {
    open spec fn taken(gpio: Gpio) -> Gpio {
        gpio
    }

    fn into_signal(self, gpio: &mut Gpio) -> (signal: Ch3<Otype>) {
        Ch3::PC8(self)
    }
}

/// Channel 4 of Tim8: one of the pins that can carry it, in alternate mode
pub enum Ch4<Otype = PushPull> {
    Unconnected(NoPin<Otype>),
    PC9(PC9<Alternate<Otype>>),
}

impl<Otype> Sealed for Ch4<Otype> {

}

impl<Otype> ReadPin for Ch4<Otype> {
    open spec fn spec_is_low(&self, gpio: Gpio) -> bool {
        match self {
            Self::PC9(p) => p.spec_is_low(gpio),
            Self::Unconnected(_) => false,
        }
    }

    fn is_low(&self, gpio: &Gpio) -> (low: bool) {
        match self {
            Self::PC9(p) => p.is_low(gpio),
            Self::Unconnected(_) => false,
        }
    }
}

impl<Otype> PinSpeed for Ch4<Otype> {
    open spec fn with_speed(&self, gpio: Gpio, speed: Speed) -> Gpio {
        match self {
            Self::PC9(p) => p.with_speed(gpio, speed),
            Self::Unconnected(_) => gpio,
        }
    }

    fn set_speed(&mut self, gpio: &mut Gpio, speed: Speed) {
        match self {
            Self::PC9(p) => PinSpeed::set_speed(p, gpio, speed),
            Self::Unconnected(_) => {},
        }
    }
}

impl<Otype> Ch4<Otype> {
    /// The signal without a pin.
    pub fn from_no_pin<T>(_no: NoPin<T>) -> (signal: Self)
        ensures
            signal is Unconnected,
    {
        Self::Unconnected(NoPin::new())
    }

    /// Puts `PC9` into alternate mode and takes it for the signal.
    pub fn from_pc9<MODE>(p: PC9<MODE>, gpio: &mut Gpio) -> (signal: Self) where
        MODE: NotAlt + PinMode,
        Alternate<Otype>: PinMode,

        ensures
            signal is PC9,
            *final(gpio) == after::<Alternate<Otype>>(*old(gpio), PORT_C, 9),
    {
        Self::PC9(p.into_mode(gpio))
    }

    /// Gives `PC9` back in mode `MODE`, if it carries the signal.
    pub fn try_into_pc9<MODE>(self, gpio: &mut Gpio) -> (pin: Result<PC9<MODE>, ()>) where
        MODE: PinMode,
        Alternate<Otype>: PinMode,

        ensures
            pin is Ok <==> self is PC9,
            pin is Ok ==> *final(gpio) == after::<MODE>(*old(gpio), PORT_C, 9),
            pin is Err ==> *final(gpio) == *old(gpio),
    {
        match self {
            Self::PC9(p) => Ok(p.into_mode(gpio)),
            _ => Err(()),
        }
    }
}

impl<T, Otype> IntoSignal<Ch4<Otype>> for NoPin<T> {
    open spec fn taken(gpio: Gpio) -> Gpio {
        gpio
    }

    fn into_signal(self, gpio: &mut Gpio) -> (signal: Ch4<Otype>) {
        Ch4::from_no_pin(self)
    }
}

impl<MODE, Otype> IntoSignal<Ch4<Otype>> for PC9<MODE> where
    MODE: NotAlt + PinMode,
    Alternate<Otype>: PinMode,
 {
    open spec fn taken(gpio: Gpio) -> Gpio {
        after::<Alternate<Otype>>(gpio, PORT_C, 9)
    }

    fn into_signal(self, gpio: &mut Gpio) -> (signal: Ch4<Otype>) {
        Ch4::from_pc9(self, gpio)
    }
}

impl<Otype> IntoSignal<Ch4<Otype>> for PC9<Alternate<Otype>> {
    open spec fn taken(gpio: Gpio) -> Gpio {
        gpio
    }

    fn into_signal(self, gpio: &mut Gpio) -> (signal: Ch4<Otype>) {
        Ch4::PC9(self)
    }
}

/// Complementary output of channel 1 of Tim8: one of the pins that can carry it, in alternate mode
pub enum Ch1n<Otype = PushPull> {
    Unconnected(NoPin<Otype>),
    PA7(PA7<Alternate<Otype>>),
    PA15(PA15<Alternate<Otype>>),
}

impl<Otype> Sealed for Ch1n<Otype> {

}

impl<Otype> ReadPin for Ch1n<Otype> {
    open spec fn spec_is_low(&self, gpio: Gpio) -> bool {
        match self {
            Self::PA7(p) => p.spec_is_low(gpio),
            Self::PA15(p) => p.spec_is_low(gpio),
            Self::Unconnected(_) => false,
        }
    }

    fn is_low(&self, gpio: &Gpio) -> (low: bool) {
        match self {
            Self::PA7(p) => p.is_low(gpio),
            Self::PA15(p) => p.is_low(gpio),
            Self::Unconnected(_) => false,
        }
    }
}

impl<Otype> PinSpeed for Ch1n<Otype> {
    open spec fn with_speed(&self, gpio: Gpio, speed: Speed) -> Gpio {
        match self {
            Self::PA7(p) => p.with_speed(gpio, speed),
            Self::PA15(p) => p.with_speed(gpio, speed),
            Self::Unconnected(_) => gpio,
        }
    }

    fn set_speed(&mut self, gpio: &mut Gpio, speed: Speed) {
        match self {
            Self::PA7(p) => PinSpeed::set_speed(p, gpio, speed),
            Self::PA15(p) => PinSpeed::set_speed(p, gpio, speed),
            Self::Unconnected(_) => {},
        }
    }
}

impl<Otype> Ch1n<Otype> {
    /// The signal without a pin.
    pub fn from_no_pin<T>(_no: NoPin<T>) -> (signal: Self)
        ensures
            signal is Unconnected,
    {
        Self::Unconnected(NoPin::new())
    }

    /// Puts `PA7` into alternate mode and takes it for the signal.
    pub fn from_pa7<MODE>(p: PA7<MODE>, gpio: &mut Gpio) -> (signal: Self) where
        MODE: NotAlt + PinMode,
        Alternate<Otype>: PinMode,

        ensures
            signal is PA7,
            *final(gpio) == after::<Alternate<Otype>>(*old(gpio), PORT_A, 7),
    {
        Self::PA7(p.into_mode(gpio))
    }

    /// Gives `PA7` back in mode `MODE`, if it carries the signal.
    pub fn try_into_pa7<MODE>(self, gpio: &mut Gpio) -> (pin: Result<PA7<MODE>, ()>) where
        MODE: PinMode,
        Alternate<Otype>: PinMode,

        ensures
            pin is Ok <==> self is PA7,
            pin is Ok ==> *final(gpio) == after::<MODE>(*old(gpio), PORT_A, 7),
            pin is Err ==> *final(gpio) == *old(gpio),
    {
        match self {
            Self::PA7(p) => Ok(p.into_mode(gpio)),
            _ => Err(()),
        }
    }

    /// Puts `PA15` into alternate mode and takes it for the signal.
    pub fn from_pa15<MODE>(p: PA15<MODE>, gpio: &mut Gpio) -> (signal: Self) where
        MODE: NotAlt + PinMode,
        Alternate<Otype>: PinMode,

        ensures
            signal is PA15,
            *final(gpio) == after::<Alternate<Otype>>(*old(gpio), PORT_A, 15),
    {
        Self::PA15(p.into_mode(gpio))
    }

    /// Gives `PA15` back in mode `MODE`, if it carries the signal.
    pub fn try_into_pa15<MODE>(self, gpio: &mut Gpio) -> (pin: Result<PA15<MODE>, ()>) where
        MODE: PinMode,
        Alternate<Otype>: PinMode,

        ensures
            pin is Ok <==> self is PA15,
            pin is Ok ==> *final(gpio) == after::<MODE>(*old(gpio), PORT_A, 15),
            pin is Err ==> *final(gpio) == *old(gpio),
    {
        match self {
            Self::PA15(p) => Ok(p.into_mode(gpio)),
            _ => Err(()),
        }
    }
}

impl<T, Otype> IntoSignal<Ch1n<Otype>> for NoPin<T> {
    open spec fn taken(gpio: Gpio) -> Gpio {
        gpio
    }

    fn into_signal(self, gpio: &mut Gpio) -> (signal: Ch1n<Otype>) {
        Ch1n::from_no_pin(self)
    }
}

impl<MODE, Otype> IntoSignal<Ch1n<Otype>> for PA7<MODE> where
    MODE: NotAlt + PinMode,
    Alternate<Otype>: PinMode,
 {
    open spec fn taken(gpio: Gpio) -> Gpio {
        after::<Alternate<Otype>>(gpio, PORT_A, 7)
    }

    fn into_signal(self, gpio: &mut Gpio) -> (signal: Ch1n<Otype>) {
        Ch1n::from_pa7(self, gpio)
    }
}

impl<Otype> IntoSignal<Ch1n<Otype>> for PA7<Alternate<Otype>> {
    open spec fn taken(gpio: Gpio) -> Gpio {
        gpio
    }

    fn into_signal(self, gpio: &mut Gpio) -> (signal: Ch1n<Otype>) {
        Ch1n::PA7(self)
    }
}

impl<MODE, Otype> IntoSignal<Ch1n<Otype>> for PA15<MODE> where
    MODE: NotAlt + PinMode,
    Alternate<Otype>: PinMode,
 {
    open spec fn taken(gpio: Gpio) -> Gpio {
        after::<Alternate<Otype>>(gpio, PORT_A, 15)
    }

    fn into_signal(self, gpio: &mut Gpio) -> (signal: Ch1n<Otype>) {
        Ch1n::from_pa15(self, gpio)
    }
}

impl<Otype> IntoSignal<Ch1n<Otype>> for PA15<Alternate<Otype>> {
    open spec fn taken(gpio: Gpio) -> Gpio {
        gpio
    }

    fn into_signal(self, gpio: &mut Gpio) -> (signal: Ch1n<Otype>) {
        Ch1n::PA15(self)
    }
}

/// Complementary output of channel 2 of Tim8: one of the pins that can carry it, in alternate mode
pub enum Ch2n<Otype = PushPull> {
    Unconnected(NoPin<Otype>),
    PB0(PB0<Alternate<Otype>>),
    PC12(PC12<Alternate<Otype>>),
}

impl<Otype> Sealed for Ch2n<Otype> {

}

impl<Otype> ReadPin for Ch2n<Otype> {
    open spec fn spec_is_low(&self, gpio: Gpio) -> bool {
        match self {
            Self::PB0(p) => p.spec_is_low(gpio),
            Self::PC12(p) => p.spec_is_low(gpio),
            Self::Unconnected(_) => false,
        }
    }

    fn is_low(&self, gpio: &Gpio) -> (low: bool) {
        match self {
            Self::PB0(p) => p.is_low(gpio),
            Self::PC12(p) => p.is_low(gpio),
            Self::Unconnected(_) => false,
        }
    }
}

impl<Otype> PinSpeed for Ch2n<Otype> {
    open spec fn with_speed(&self, gpio: Gpio, speed: Speed) -> Gpio {
        match self {
            Self::PB0(p) => p.with_speed(gpio, speed),
            Self::PC12(p) => p.with_speed(gpio, speed),
            Self::Unconnected(_) => gpio,
        }
    }

    fn set_speed(&mut self, gpio: &mut Gpio, speed: Speed) {
        match self {
            Self::PB0(p) => PinSpeed::set_speed(p, gpio, speed),
            Self::PC12(p) => PinSpeed::set_speed(p, gpio, speed),
            Self::Unconnected(_) => {},
        }
    }
}

impl<Otype> Ch2n<Otype> {
    /// The signal without a pin.
    pub fn from_no_pin<T>(_no: NoPin<T>) -> (signal: Self)
        ensures
            signal is Unconnected,
    {
        Self::Unconnected(NoPin::new())
    }

    /// Puts `PB0` into alternate mode and takes it for the signal.
    pub fn from_pb0<MODE>(p: PB0<MODE>, gpio: &mut Gpio) -> (signal: Self) where
        MODE: NotAlt + PinMode,
        Alternate<Otype>: PinMode,

        ensures
            signal is PB0,
            *final(gpio) == after::<Alternate<Otype>>(*old(gpio), PORT_B, 0),
    {
        Self::PB0(p.into_mode(gpio))
    }

    /// Gives `PB0` back in mode `MODE`, if it carries the signal.
    pub fn try_into_pb0<MODE>(self, gpio: &mut Gpio) -> (pin: Result<PB0<MODE>, ()>) where
        MODE: PinMode,
        Alternate<Otype>: PinMode,

        ensures
            pin is Ok <==> self is PB0,
            pin is Ok ==> *final(gpio) == after::<MODE>(*old(gpio), PORT_B, 0),
            pin is Err ==> *final(gpio) == *old(gpio),
    {
        match self {
            Self::PB0(p) => Ok(p.into_mode(gpio)),
            _ => Err(()),
        }
    }

    /// Puts `PC12` into alternate mode and takes it for the signal.
    pub fn from_pc12<MODE>(p: PC12<MODE>, gpio: &mut Gpio) -> (signal: Self) where
        MODE: NotAlt + PinMode,
        Alternate<Otype>: PinMode,

        ensures
            signal is PC12,
            *final(gpio) == after::<Alternate<Otype>>(*old(gpio), PORT_C, 12),
    {
        Self::PC12(p.into_mode(gpio))
    }

    /// Gives `PC12` back in mode `MODE`, if it carries the signal.
    pub fn try_into_pc12<MODE>(self, gpio: &mut Gpio) -> (pin: Result<PC12<MODE>, ()>) where
        MODE: PinMode,
        Alternate<Otype>: PinMode,

        ensures
            pin is Ok <==> self is PC12,
            pin is Ok ==> *final(gpio) == after::<MODE>(*old(gpio), PORT_C, 12),
            pin is Err ==> *final(gpio) == *old(gpio),
    {
        match self {
            Self::PC12(p) => Ok(p.into_mode(gpio)),
            _ => Err(()),
        }
    }
}

impl<T, Otype> IntoSignal<Ch2n<Otype>> for NoPin<T> {
    open spec fn taken(gpio: Gpio) -> Gpio {
        gpio
    }

    fn into_signal(self, gpio: &mut Gpio) -> (signal: Ch2n<Otype>) {
        Ch2n::from_no_pin(self)
    }
}

impl<MODE, Otype> IntoSignal<Ch2n<Otype>> for PB0<MODE> where
    MODE: NotAlt + PinMode,
    Alternate<Otype>: PinMode,
 {
    open spec fn taken(gpio: Gpio) -> Gpio {
        after::<Alternate<Otype>>(gpio, PORT_B, 0)
    }

    fn into_signal(self, gpio: &mut Gpio) -> (signal: Ch2n<Otype>) {
        Ch2n::from_pb0(self, gpio)
    }
}

impl<Otype> IntoSignal<Ch2n<Otype>> for PB0<Alternate<Otype>> {
    open spec fn taken(gpio: Gpio) -> Gpio {
        gpio
    }

    fn into_signal(self, gpio: &mut Gpio) -> (signal: Ch2n<Otype>) {
        Ch2n::PB0(self)
    }
}

impl<MODE, Otype> IntoSignal<Ch2n<Otype>> for PC12<MODE> where
    MODE: NotAlt + PinMode,
    Alternate<Otype>: PinMode,
 {
    open spec fn taken(gpio: Gpio) -> Gpio {
        after::<Alternate<Otype>>(gpio, PORT_C, 12)
    }

    fn into_signal(self, gpio: &mut Gpio) -> (signal: Ch2n<Otype>) {
        Ch2n::from_pc12(self, gpio)
    }
}

impl<Otype> IntoSignal<Ch2n<Otype>> for PC12<Alternate<Otype>> {
    open spec fn taken(gpio: Gpio) -> Gpio {
        gpio
    }

    fn into_signal(self, gpio: &mut Gpio) -> (signal: Ch2n<Otype>) {
        Ch2n::PC12(self)
    }
}

/// Complementary output of channel 3 of Tim8: one of the pins that can carry it, in alternate mode
pub enum Ch3n<Otype = PushPull> {
    Unconnected(NoPin<Otype>),
    PB1(PB1<Alternate<Otype>>),
    PD2(PD2<Alternate<Otype>>),
}

impl<Otype> Sealed for Ch3n<Otype> {

}

impl<Otype> ReadPin for Ch3n<Otype> {
    open spec fn spec_is_low(&self, gpio: Gpio) -> bool {
        match self {
            Self::PB1(p) => p.spec_is_low(gpio),
            Self::PD2(p) => p.spec_is_low(gpio),
            Self::Unconnected(_) => false,
        }
    }

    fn is_low(&self, gpio: &Gpio) -> (low: bool) {
        match self {
            Self::PB1(p) => p.is_low(gpio),
            Self::PD2(p) => p.is_low(gpio),
            Self::Unconnected(_) => false,
        }
    }
}

impl<Otype> PinSpeed for Ch3n<Otype> {
    open spec fn with_speed(&self, gpio: Gpio, speed: Speed) -> Gpio {
        match self {
            Self::PB1(p) => p.with_speed(gpio, speed),
            Self::PD2(p) => p.with_speed(gpio, speed),
            Self::Unconnected(_) => gpio,
        }
    }

    fn set_speed(&mut self, gpio: &mut Gpio, speed: Speed) {
        match self {
            Self::PB1(p) => PinSpeed::set_speed(p, gpio, speed),
            Self::PD2(p) => PinSpeed::set_speed(p, gpio, speed),
            Self::Unconnected(_) => {},
        }
    }
}

impl<Otype> Ch3n<Otype> {
    /// The signal without a pin.
    pub fn from_no_pin<T>(_no: NoPin<T>) -> (signal: Self)
        ensures
            signal is Unconnected,
    {
        Self::Unconnected(NoPin::new())
    }

    /// Puts `PB1` into alternate mode and takes it for the signal.
    pub fn from_pb1<MODE>(p: PB1<MODE>, gpio: &mut Gpio) -> (signal: Self) where
        MODE: NotAlt + PinMode,
        Alternate<Otype>: PinMode,

        ensures
            signal is PB1,
            *final(gpio) == after::<Alternate<Otype>>(*old(gpio), PORT_B, 1),
    {
        Self::PB1(p.into_mode(gpio))
    }

    /// Gives `PB1` back in mode `MODE`, if it carries the signal.
    pub fn try_into_pb1<MODE>(self, gpio: &mut Gpio) -> (pin: Result<PB1<MODE>, ()>) where
        MODE: PinMode,
        Alternate<Otype>: PinMode,

        ensures
            pin is Ok <==> self is PB1,
            pin is Ok ==> *final(gpio) == after::<MODE>(*old(gpio), PORT_B, 1),
            pin is Err ==> *final(gpio) == *old(gpio),
    {
        match self {
            Self::PB1(p) => Ok(p.into_mode(gpio)),
            _ => Err(()),
        }
    }

    /// Puts `PD2` into alternate mode and takes it for the signal.
    pub fn from_pd2<MODE>(p: PD2<MODE>, gpio: &mut Gpio) -> (signal: Self) where
        MODE: NotAlt + PinMode,
        Alternate<Otype>: PinMode,

        ensures
            signal is PD2,
            *final(gpio) == after::<Alternate<Otype>>(*old(gpio), PORT_D, 2),
    {
        Self::PD2(p.into_mode(gpio))
    }

    /// Gives `PD2` back in mode `MODE`, if it carries the signal.
    pub fn try_into_pd2<MODE>(self, gpio: &mut Gpio) -> (pin: Result<PD2<MODE>, ()>) where
        MODE: PinMode,
        Alternate<Otype>: PinMode,

        ensures
            pin is Ok <==> self is PD2,
            pin is Ok ==> *final(gpio) == after::<MODE>(*old(gpio), PORT_D, 2),
            pin is Err ==> *final(gpio) == *old(gpio),
    {
        match self {
            Self::PD2(p) => Ok(p.into_mode(gpio)),
            _ => Err(()),
        }
    }
}

impl<T, Otype> IntoSignal<Ch3n<Otype>> for NoPin<T> {
    open spec fn taken(gpio: Gpio) -> Gpio {
        gpio
    }

    fn into_signal(self, gpio: &mut Gpio) -> (signal: Ch3n<Otype>) {
        Ch3n::from_no_pin(self)
    }
}

impl<MODE, Otype> IntoSignal<Ch3n<Otype>> for PB1<MODE> where
    MODE: NotAlt + PinMode,
    Alternate<Otype>: PinMode,
 {
    open spec fn taken(gpio: Gpio) -> Gpio {
        after::<Alternate<Otype>>(gpio, PORT_B, 1)
    }

    fn into_signal(self, gpio: &mut Gpio) -> (signal: Ch3n<Otype>) {
        Ch3n::from_pb1(self, gpio)
    }
}

impl<Otype> IntoSignal<Ch3n<Otype>> for PB1<Alternate<Otype>> {
    open spec fn taken(gpio: Gpio) -> Gpio {
        gpio
    }

    fn into_signal(self, gpio: &mut Gpio) -> (signal: Ch3n<Otype>) {
        Ch3n::PB1(self)
    }
}

impl<MODE, Otype> IntoSignal<Ch3n<Otype>> for PD2<MODE> where
    MODE: NotAlt + PinMode,
    Alternate<Otype>: PinMode,
 {
    open spec fn taken(gpio: Gpio) -> Gpio {
        after::<Alternate<Otype>>(gpio, PORT_D, 2)
    }

    fn into_signal(self, gpio: &mut Gpio) -> (signal: Ch3n<Otype>) {
        Ch3n::from_pd2(self, gpio)
    }
}

impl<Otype> IntoSignal<Ch3n<Otype>> for PD2<Alternate<Otype>> {
    open spec fn taken(gpio: Gpio) -> Gpio {
        gpio
    }

    fn into_signal(self, gpio: &mut Gpio) -> (signal: Ch3n<Otype>) {
        Ch3n::PD2(self)
    }
}

/// External trigger of Tim8: one of the pins that can carry it, in alternate mode
pub enum Etr<Otype = PushPull> {
    Unconnected(NoPin<Otype>),
    PA0(PA0<Alternate<Otype>>),
    PB4(PB4<Alternate<Otype>>),
}

impl<Otype> Sealed for Etr<Otype> {

}

impl<Otype> ReadPin for Etr<Otype> {
    open spec fn spec_is_low(&self, gpio: Gpio) -> bool {
        match self {
            Self::PA0(p) => p.spec_is_low(gpio),
            Self::PB4(p) => p.spec_is_low(gpio),
            Self::Unconnected(_) => false,
        }
    }

    fn is_low(&self, gpio: &Gpio) -> (low: bool) {
        match self {
            Self::PA0(p) => p.is_low(gpio),
            Self::PB4(p) => p.is_low(gpio),
            Self::Unconnected(_) => false,
        }
    }
}

impl<Otype> PinSpeed for Etr<Otype> {
    open spec fn with_speed(&self, gpio: Gpio, speed: Speed) -> Gpio {
        match self {
            Self::PA0(p) => p.with_speed(gpio, speed),
            Self::PB4(p) => p.with_speed(gpio, speed),
            Self::Unconnected(_) => gpio,
        }
    }

    fn set_speed(&mut self, gpio: &mut Gpio, speed: Speed) {
        match self {
            Self::PA0(p) => PinSpeed::set_speed(p, gpio, speed),
            Self::PB4(p) => PinSpeed::set_speed(p, gpio, speed),
            Self::Unconnected(_) => {},
        }
    }
}

impl<Otype> Etr<Otype> {
    /// The signal without a pin.
    pub fn from_no_pin<T>(_no: NoPin<T>) -> (signal: Self)
        ensures
            signal is Unconnected,
    {
        Self::Unconnected(NoPin::new())
    }

    /// Puts `PA0` into alternate mode and takes it for the signal.
    pub fn from_pa0<MODE>(p: PA0<MODE>, gpio: &mut Gpio) -> (signal: Self) where
        MODE: NotAlt + PinMode,
        Alternate<Otype>: PinMode,

        ensures
            signal is PA0,
            *final(gpio) == after::<Alternate<Otype>>(*old(gpio), PORT_A, 0),
    {
        Self::PA0(p.into_mode(gpio))
    }

    /// Gives `PA0` back in mode `MODE`, if it carries the signal.
    pub fn try_into_pa0<MODE>(self, gpio: &mut Gpio) -> (pin: Result<PA0<MODE>, ()>) where
        MODE: PinMode,
        Alternate<Otype>: PinMode,

        ensures
            pin is Ok <==> self is PA0,
            pin is Ok ==> *final(gpio) == after::<MODE>(*old(gpio), PORT_A, 0),
            pin is Err ==> *final(gpio) == *old(gpio),
    {
        match self {
            Self::PA0(p) => Ok(p.into_mode(gpio)),
            _ => Err(()),
        }
    }

    /// Puts `PB4` into alternate mode and takes it for the signal.
    pub fn from_pb4<MODE>(p: PB4<MODE>, gpio: &mut Gpio) -> (signal: Self) where
        MODE: NotAlt + PinMode,
        Alternate<Otype>: PinMode,

        ensures
            signal is PB4,
            *final(gpio) == after::<Alternate<Otype>>(*old(gpio), PORT_B, 4),
    {
        Self::PB4(p.into_mode(gpio))
    }

    /// Gives `PB4` back in mode `MODE`, if it carries the signal.
    pub fn try_into_pb4<MODE>(self, gpio: &mut Gpio) -> (pin: Result<PB4<MODE>, ()>) where
        MODE: PinMode,
        Alternate<Otype>: PinMode,

        ensures
            pin is Ok <==> self is PB4,
            pin is Ok ==> *final(gpio) == after::<MODE>(*old(gpio), PORT_B, 4),
            pin is Err ==> *final(gpio) == *old(gpio),
    {
        match self {
            Self::PB4(p) => Ok(p.into_mode(gpio)),
            _ => Err(()),
        }
    }
}

impl<T, Otype> IntoSignal<Etr<Otype>> for NoPin<T> {
    open spec fn taken(gpio: Gpio) -> Gpio {
        gpio
    }

    fn into_signal(self, gpio: &mut Gpio) -> (signal: Etr<Otype>) {
        Etr::from_no_pin(self)
    }
}

impl<MODE, Otype> IntoSignal<Etr<Otype>> for PA0<MODE> where
    MODE: NotAlt + PinMode,
    Alternate<Otype>: PinMode,
 {
    open spec fn taken(gpio: Gpio) -> Gpio {
        after::<Alternate<Otype>>(gpio, PORT_A, 0)
    }

    fn into_signal(self, gpio: &mut Gpio) -> (signal: Etr<Otype>) {
        Etr::from_pa0(self, gpio)
    }
}

impl<Otype> IntoSignal<Etr<Otype>> for PA0<Alternate<Otype>> {
    open spec fn taken(gpio: Gpio) -> Gpio {
        gpio
    }

    fn into_signal(self, gpio: &mut Gpio) -> (signal: Etr<Otype>) {
        Etr::PA0(self)
    }
}

impl<MODE, Otype> IntoSignal<Etr<Otype>> for PB4<MODE> where
    MODE: NotAlt + PinMode,
    Alternate<Otype>: PinMode,
 {
    open spec fn taken(gpio: Gpio) -> Gpio {
        after::<Alternate<Otype>>(gpio, PORT_B, 4)
    }

    fn into_signal(self, gpio: &mut Gpio) -> (signal: Etr<Otype>) {
        Etr::from_pb4(self, gpio)
    }
}

impl<Otype> IntoSignal<Etr<Otype>> for PB4<Alternate<Otype>> {
    open spec fn taken(gpio: Gpio) -> Gpio {
        gpio
    }

    fn into_signal(self, gpio: &mut Gpio) -> (signal: Etr<Otype>) {
        Etr::PB4(self)
    }
}

/// Break input of Tim8: one of the pins that can carry it, in alternate mode
pub enum Bkin<Otype = Floating> {
    Unconnected(NoPin<Otype>),
    PA6(PA6<Alternate<Otype>>),
    PB3(PB3<Alternate<Otype>>),
}

impl<Otype> Sealed for Bkin<Otype> {

}

impl<Otype> ReadPin for Bkin<Otype> {
    open spec fn spec_is_low(&self, gpio: Gpio) -> bool {
        match self {
            Self::PA6(p) => p.spec_is_low(gpio),
            Self::PB3(p) => p.spec_is_low(gpio),
            Self::Unconnected(_) => false,
        }
    }

    fn is_low(&self, gpio: &Gpio) -> (low: bool) {
        match self {
            Self::PA6(p) => p.is_low(gpio),
            Self::PB3(p) => p.is_low(gpio),
            Self::Unconnected(_) => false,
        }
    }
}

impl<Otype> PinSpeed for Bkin<Otype> {
    open spec fn with_speed(&self, gpio: Gpio, speed: Speed) -> Gpio {
        match self {
            Self::PA6(p) => p.with_speed(gpio, speed),
            Self::PB3(p) => p.with_speed(gpio, speed),
            Self::Unconnected(_) => gpio,
        }
    }

    fn set_speed(&mut self, gpio: &mut Gpio, speed: Speed) {
        match self {
            Self::PA6(p) => PinSpeed::set_speed(p, gpio, speed),
            Self::PB3(p) => PinSpeed::set_speed(p, gpio, speed),
            Self::Unconnected(_) => {},
        }
    }
}

impl<Otype> Bkin<Otype> {
    /// The signal without a pin.
    pub fn from_no_pin<T>(_no: NoPin<T>) -> (signal: Self)
        ensures
            signal is Unconnected,
    {
        Self::Unconnected(NoPin::new())
    }

    /// Puts `PA6` into alternate mode and takes it for the signal.
    pub fn from_pa6<MODE>(p: PA6<MODE>, gpio: &mut Gpio) -> (signal: Self) where
        MODE: NotAlt + PinMode,
        Alternate<Otype>: PinMode,

        ensures
            signal is PA6,
            *final(gpio) == after::<Alternate<Otype>>(*old(gpio), PORT_A, 6),
    {
        Self::PA6(p.into_mode(gpio))
    }

    /// Gives `PA6` back in mode `MODE`, if it carries the signal.
    pub fn try_into_pa6<MODE>(self, gpio: &mut Gpio) -> (pin: Result<PA6<MODE>, ()>) where
        MODE: PinMode,
        Alternate<Otype>: PinMode,

        ensures
            pin is Ok <==> self is PA6,
            pin is Ok ==> *final(gpio) == after::<MODE>(*old(gpio), PORT_A, 6),
            pin is Err ==> *final(gpio) == *old(gpio),
    {
        match self {
            Self::PA6(p) => Ok(p.into_mode(gpio)),
            _ => Err(()),
        }
    }

    /// Puts `PB3` into alternate mode and takes it for the signal.
    pub fn from_pb3<MODE>(p: PB3<MODE>, gpio: &mut Gpio) -> (signal: Self) where
        MODE: NotAlt + PinMode,
        Alternate<Otype>: PinMode,

        ensures
            signal is PB3,
            *final(gpio) == after::<Alternate<Otype>>(*old(gpio), PORT_B, 3),
    {
        Self::PB3(p.into_mode(gpio))
    }

    /// Gives `PB3` back in mode `MODE`, if it carries the signal.
    pub fn try_into_pb3<MODE>(self, gpio: &mut Gpio) -> (pin: Result<PB3<MODE>, ()>) where
        MODE: PinMode,
        Alternate<Otype>: PinMode,

        ensures
            pin is Ok <==> self is PB3,
            pin is Ok ==> *final(gpio) == after::<MODE>(*old(gpio), PORT_B, 3),
            pin is Err ==> *final(gpio) == *old(gpio),
    {
        match self {
            Self::PB3(p) => Ok(p.into_mode(gpio)),
            _ => Err(()),
        }
    }
}

impl<T, Otype> IntoSignal<Bkin<Otype>> for NoPin<T> {
    open spec fn taken(gpio: Gpio) -> Gpio {
        gpio
    }

    fn into_signal(self, gpio: &mut Gpio) -> (signal: Bkin<Otype>) {
        Bkin::from_no_pin(self)
    }
}

impl<MODE, Otype> IntoSignal<Bkin<Otype>> for PA6<MODE> where
    MODE: NotAlt + PinMode,
    Alternate<Otype>: PinMode,
 {
    open spec fn taken(gpio: Gpio) -> Gpio {
        after::<Alternate<Otype>>(gpio, PORT_A, 6)
    }

    fn into_signal(self, gpio: &mut Gpio) -> (signal: Bkin<Otype>) {
        Bkin::from_pa6(self, gpio)
    }
}

impl<Otype> IntoSignal<Bkin<Otype>> for PA6<Alternate<Otype>> {
    open spec fn taken(gpio: Gpio) -> Gpio {
        gpio
    }

    fn into_signal(self, gpio: &mut Gpio) -> (signal: Bkin<Otype>) {
        Bkin::PA6(self)
    }
}

impl<MODE, Otype> IntoSignal<Bkin<Otype>> for PB3<MODE> where
    MODE: NotAlt + PinMode,
    Alternate<Otype>: PinMode,
 {
    open spec fn taken(gpio: Gpio) -> Gpio {
        after::<Alternate<Otype>>(gpio, PORT_B, 3)
    }

    fn into_signal(self, gpio: &mut Gpio) -> (signal: Bkin<Otype>) {
        Bkin::from_pb3(self, gpio)
    }
}

impl<Otype> IntoSignal<Bkin<Otype>> for PB3<Alternate<Otype>> {
    open spec fn taken(gpio: Gpio) -> Gpio {
        gpio
    }

    fn into_signal(self, gpio: &mut Gpio) -> (signal: Bkin<Otype>) {
        Bkin::PB3(self)
    }
}

impl<Otype> TimCPin<0, Otype> for Tim8 {
    type Ch = Ch1<Otype>;
}

impl<Otype> TimCPin<1, Otype> for Tim8 {
    type Ch = Ch2<Otype>;
}

impl<Otype> TimCPin<2, Otype> for Tim8 {
    type Ch = Ch3<Otype>;
}

impl<Otype> TimCPin<3, Otype> for Tim8 {
    type Ch = Ch4<Otype>;
}

impl<Otype> TimNCPin<0, Otype> for Tim8 {
    type ChN = Ch1n<Otype>;
}

impl<Otype> TimNCPin<1, Otype> for Tim8 {
    type ChN = Ch2n<Otype>;
}

impl<Otype> TimNCPin<2, Otype> for Tim8 {
    type ChN = Ch3n<Otype>;
}

impl TimBkin for Tim8 {
    type Bkin = Bkin;
}

} // verus!
