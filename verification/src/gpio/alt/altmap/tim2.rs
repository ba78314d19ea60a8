//! TIM2: where its signals can be routed to, and how.

use vstd::prelude::*;
use crate::gpio::Alternate;
use crate::gpio::NoPin;
use crate::gpio::PinMode;
use crate::gpio::PinSpeed;
use crate::gpio::PushPull;
use crate::gpio::ReadPin;
use crate::gpio::Speed;
use crate::gpio::alt::IntoSignal;
use crate::gpio::alt::TimCPin;
use crate::gpio::alt::altmap::Remap;
use crate::gpio::alt::altmap::RemapIO;
use crate::gpio::alt::altmap::lemma_wired_pin;
use crate::gpio::convert::after;
use crate::gpio::marker::NotAlt;
use crate::gpio::port::PORT_A;
use crate::gpio::port::PORT_B;
use crate::pac::Afio;
use crate::pac::Gpio;
use crate::pac::Tim2;
use crate::sealed::Sealed;
use crate::gpio::PA0;
use crate::gpio::PA1;
use crate::gpio::PA2;
use crate::gpio::PA3;
use crate::gpio::PA15;
use crate::gpio::PB3;
use crate::gpio::PB10;
use crate::gpio::PB11;

verus! {

/// TIM2 without remapping
pub struct TIM2NoRemapRemapper();

/// TIM2 with the first partial remapping
pub struct TIM2PartialRemapOneRemapper();

/// TIM2 with the second partial remapping
pub struct TIM2PartialRemapTwoRemapper();

/// TIM2 with the full remapping
pub struct TIM2FullRemapRemapper();

impl Remap for TIM2NoRemapRemapper {
    open spec fn remapped(afio: Afio) -> Afio {
        Afio {
            rmp_cfg: crate::pac::RmpCfg { tim2_rmp: 0, ..afio.rmp_cfg },
            ..afio
        }
    }

    open spec fn wired(port: u8, pin: u8) -> bool {
        port == PORT_A && (pin == 0 || pin == 1 || pin == 2 || pin == 3)
    }

    fn remap(afio: &mut Afio) {
        afio.rmp_cfg.tim2_rmp = 0;
    }
}

impl Remap for TIM2PartialRemapOneRemapper {
    open spec fn remapped(afio: Afio) -> Afio {
        Afio {
            rmp_cfg: crate::pac::RmpCfg { tim2_rmp: 1, ..afio.rmp_cfg },
            ..afio
        }
    }

    open spec fn wired(port: u8, pin: u8) -> bool {
        ||| port == PORT_A && (pin == 15 || pin == 2 || pin == 3)
        ||| port == PORT_B && pin == 3
    }

    fn remap(afio: &mut Afio) {
        afio.rmp_cfg.tim2_rmp = 1;
    }
}

impl Remap for TIM2PartialRemapTwoRemapper {
    open spec fn remapped(afio: Afio) -> Afio {
        Afio {
            rmp_cfg: crate::pac::RmpCfg { tim2_rmp: 2, ..afio.rmp_cfg },
            ..afio
        }
    }

    open spec fn wired(port: u8, pin: u8) -> bool {
        ||| port == PORT_A && (pin == 0 || pin == 1)
        ||| port == PORT_B && (pin == 10 || pin == 11)
    }

    fn remap(afio: &mut Afio) {
        afio.rmp_cfg.tim2_rmp = 2;
    }
}

impl Remap for TIM2FullRemapRemapper {
    open spec fn remapped(afio: Afio) -> Afio {
        Afio {
            rmp_cfg: crate::pac::RmpCfg { tim2_rmp: 3, ..afio.rmp_cfg },
            ..afio
        }
    }

    open spec fn wired(port: u8, pin: u8) -> bool {
        ||| port == PORT_A && pin == 15
        ||| port == PORT_B && (pin == 3 || pin == 10 || pin == 11)
    }

    fn remap(afio: &mut Afio) {
        afio.rmp_cfg.tim2_rmp = 3;
    }
}

impl RemapIO<Tim2, TIM2NoRemapRemapper> for PA0 {
    proof fn lemma_wired() {
    }
}

impl RemapIO<Tim2, TIM2NoRemapRemapper> for PA1 {
    proof fn lemma_wired() {
    }
}

impl RemapIO<Tim2, TIM2NoRemapRemapper> for PA2 {
    proof fn lemma_wired() {
    }
}

impl RemapIO<Tim2, TIM2NoRemapRemapper> for PA3 {
    proof fn lemma_wired() {
    }
}

impl RemapIO<Tim2, TIM2PartialRemapOneRemapper> for PA15 {
    proof fn lemma_wired() {
    }
}

impl RemapIO<Tim2, TIM2PartialRemapOneRemapper> for PB3 {
    proof fn lemma_wired() {
    }
}

impl RemapIO<Tim2, TIM2PartialRemapOneRemapper> for PA2 {
    proof fn lemma_wired() {
    }
}

impl RemapIO<Tim2, TIM2PartialRemapOneRemapper> for PA3 {
    proof fn lemma_wired() {
    }
}

impl RemapIO<Tim2, TIM2PartialRemapTwoRemapper> for PA0 {
    proof fn lemma_wired() {
    }
}

impl RemapIO<Tim2, TIM2PartialRemapTwoRemapper> for PA1 {
    proof fn lemma_wired() {
    }
}

impl RemapIO<Tim2, TIM2PartialRemapTwoRemapper> for PB10 {
    proof fn lemma_wired() {
    }
}

impl RemapIO<Tim2, TIM2PartialRemapTwoRemapper> for PB11 {
    proof fn lemma_wired() {
    }
}

impl RemapIO<Tim2, TIM2FullRemapRemapper> for PA15 {
    proof fn lemma_wired() {
    }
}

impl RemapIO<Tim2, TIM2FullRemapRemapper> for PB3 {
    proof fn lemma_wired() {
    }
}

impl RemapIO<Tim2, TIM2FullRemapRemapper> for PB10 {
    proof fn lemma_wired() {
    }
}

impl RemapIO<Tim2, TIM2FullRemapRemapper> for PB11 {
    proof fn lemma_wired() {
    }
}

/// Each pin that TIM2 can use without remapping has its `RemapIO`.
pub proof fn lemma_tim2_no_remap_pins()
    ensures
        TIM2NoRemapRemapper::wired(PORT_A, 0),
        TIM2NoRemapRemapper::wired(PORT_A, 1),
        TIM2NoRemapRemapper::wired(PORT_A, 2),
        TIM2NoRemapRemapper::wired(PORT_A, 3),
{
    lemma_wired_pin::<PA0, Tim2, TIM2NoRemapRemapper>();
    lemma_wired_pin::<PA1, Tim2, TIM2NoRemapRemapper>();
    lemma_wired_pin::<PA2, Tim2, TIM2NoRemapRemapper>();
    lemma_wired_pin::<PA3, Tim2, TIM2NoRemapRemapper>();
}

/// Each pin that TIM2 can use with the first partial remapping has its `RemapIO`.
pub proof fn lemma_tim2_partial_remap_one_pins()
    ensures
        TIM2PartialRemapOneRemapper::wired(PORT_A, 15),
        TIM2PartialRemapOneRemapper::wired(PORT_B, 3),
        TIM2PartialRemapOneRemapper::wired(PORT_A, 2),
        TIM2PartialRemapOneRemapper::wired(PORT_A, 3),
{
    lemma_wired_pin::<PA15, Tim2, TIM2PartialRemapOneRemapper>();
    lemma_wired_pin::<PB3, Tim2, TIM2PartialRemapOneRemapper>();
    lemma_wired_pin::<PA2, Tim2, TIM2PartialRemapOneRemapper>();
    lemma_wired_pin::<PA3, Tim2, TIM2PartialRemapOneRemapper>();
}

/// Each pin that TIM2 can use with the second partial remapping has its `RemapIO`.
pub proof fn lemma_tim2_partial_remap_two_pins()
    ensures
        TIM2PartialRemapTwoRemapper::wired(PORT_A, 0),
        TIM2PartialRemapTwoRemapper::wired(PORT_A, 1),
        TIM2PartialRemapTwoRemapper::wired(PORT_B, 10),
        TIM2PartialRemapTwoRemapper::wired(PORT_B, 11),
{
    lemma_wired_pin::<PA0, Tim2, TIM2PartialRemapTwoRemapper>();
    lemma_wired_pin::<PA1, Tim2, TIM2PartialRemapTwoRemapper>();
    lemma_wired_pin::<PB10, Tim2, TIM2PartialRemapTwoRemapper>();
    lemma_wired_pin::<PB11, Tim2, TIM2PartialRemapTwoRemapper>();
}

/// Each pin that TIM2 can use with the full remapping has its `RemapIO`.
pub proof fn lemma_tim2_full_remap_pins()
    ensures
        TIM2FullRemapRemapper::wired(PORT_A, 15),
        TIM2FullRemapRemapper::wired(PORT_B, 3),
        TIM2FullRemapRemapper::wired(PORT_B, 10),
        TIM2FullRemapRemapper::wired(PORT_B, 11),
{
    lemma_wired_pin::<PA15, Tim2, TIM2FullRemapRemapper>();
    lemma_wired_pin::<PB3, Tim2, TIM2FullRemapRemapper>();
    lemma_wired_pin::<PB10, Tim2, TIM2FullRemapRemapper>();
    lemma_wired_pin::<PB11, Tim2, TIM2FullRemapRemapper>();
}

/// Channel 1 of Tim2: one of the pins that can carry it, in alternate mode
pub enum Ch1<Otype = PushPull> {
    Unconnected(NoPin<Otype>),
    PA0(PA0<Alternate<Otype>>),
    PA15(PA15<Alternate<Otype>>),
}

impl<Otype> Sealed for Ch1<Otype> {

}

impl<Otype> ReadPin for Ch1<Otype> {
    open spec fn spec_is_low(&self, gpio: Gpio) -> bool {
        match self {
            Self::PA0(p) => p.spec_is_low(gpio),
            Self::PA15(p) => p.spec_is_low(gpio),
            Self::Unconnected(_) => false,
        }
    }

    fn is_low(&self, gpio: &Gpio) -> (low: bool) {
        match self {
            Self::PA0(p) => p.is_low(gpio),
            Self::PA15(p) => p.is_low(gpio),
            Self::Unconnected(_) => false,
        }
    }
}

impl<Otype> PinSpeed for Ch1<Otype> {
    open spec fn with_speed(&self, gpio: Gpio, speed: Speed) -> Gpio {
        match self {
            Self::PA0(p) => p.with_speed(gpio, speed),
            Self::PA15(p) => p.with_speed(gpio, speed),
            Self::Unconnected(_) => gpio,
        }
    }

    fn set_speed(&mut self, gpio: &mut Gpio, speed: Speed) {
        match self {
            Self::PA0(p) => PinSpeed::set_speed(p, gpio, speed),
            Self::PA15(p) => PinSpeed::set_speed(p, gpio, speed),
            Self::Unconnected(_) => {},
        }
    }
}

impl<Otype> Ch1<Otype> {
    /// The signal without a pin.
    pub fn from_no_pin<T>(_no: NoPin<T>) -> (signal: Self)
        ensures
            signal is Unconnected,
    {
        Self::Unconnected(NoPin::new())
    }

    /// Puts `PA0` into alternate mode and takes it for the signal.
    pub fn from_pa0<MODE>(p: PA0<MODE>, gpio: &mut Gpio) -> (signal: Self) where
        MODE: NotAlt + PinMode,
        Alternate<Otype>: PinMode,

        ensures
            signal is PA0,
            *final(gpio) == after::<Alternate<Otype>>(*old(gpio), PORT_A, 0),
    {
        Self::PA0(p.into_mode(gpio))
    }

    /// Gives `PA0` back in mode `MODE`, if it carries the signal.
    pub fn try_into_pa0<MODE>(self, gpio: &mut Gpio) -> (pin: Result<PA0<MODE>, ()>) where
        MODE: PinMode,
        Alternate<Otype>: PinMode,

        ensures
            pin is Ok <==> self is PA0,
            pin is Ok ==> *final(gpio) == after::<MODE>(*old(gpio), PORT_A, 0),
            pin is Err ==> *final(gpio) == *old(gpio),
    {
        match self {
            Self::PA0(p) => Ok(p.into_mode(gpio)),
            _ => Err(()),
        }
    }

    /// Puts `PA15` into alternate mode and takes it for the signal.
    pub fn from_pa15<MODE>(p: PA15<MODE>, gpio: &mut Gpio) -> (signal: Self) where
        MODE: NotAlt + PinMode,
        Alternate<Otype>: PinMode,

        ensures
            signal is PA15,
            *final(gpio) == after::<Alternate<Otype>>(*old(gpio), PORT_A, 15),
    {
        Self::PA15(p.into_mode(gpio))
    }

    /// Gives `PA15` back in mode `MODE`, if it carries the signal.
    pub fn try_into_pa15<MODE>(self, gpio: &mut Gpio) -> (pin: Result<PA15<MODE>, ()>) where
        MODE: PinMode,
        Alternate<Otype>: PinMode,

        ensures
            pin is Ok <==> self is PA15,
            pin is Ok ==> *final(gpio) == after::<MODE>(*old(gpio), PORT_A, 15),
            pin is Err ==> *final(gpio) == *old(gpio),
    {
        match self {
            Self::PA15(p) => Ok(p.into_mode(gpio)),
            _ => Err(()),
        }
    }
}

impl<T, Otype> IntoSignal<Ch1<Otype>> for NoPin<T> {
    open spec fn taken(gpio: Gpio) -> Gpio {
        gpio
    }

    fn into_signal(self, gpio: &mut Gpio) -> (signal: Ch1<Otype>) {
        Ch1::from_no_pin(self)
    }
}

impl<MODE, Otype> IntoSignal<Ch1<Otype>> for PA0<MODE> where
    MODE: NotAlt + PinMode,
    Alternate<Otype>: PinMode,
 {
    open spec fn taken(gpio: Gpio) -> Gpio {
        after::<Alternate<Otype>>(gpio, PORT_A, 0)
    }

    fn into_signal(self, gpio: &mut Gpio) -> (signal: Ch1<Otype>) {
        Ch1::from_pa0(self, gpio)
    }
}

impl<Otype> IntoSignal<Ch1<Otype>> for PA0<Alternate<Otype>> {
    open spec fn taken(gpio: Gpio) -> Gpio {
        gpio
    }

    fn into_signal(self, gpio: &mut Gpio) -> (signal: Ch1<Otype>) {
        Ch1::PA0(self)
    }
}

impl<MODE, Otype> IntoSignal<Ch1<Otype>> for PA15<MODE> where
    MODE: NotAlt + PinMode,
    Alternate<Otype>: PinMode,
 {
    open spec fn taken(gpio: Gpio) -> Gpio {
        after::<Alternate<Otype>>(gpio, PORT_A, 15)
    }

    fn into_signal(self, gpio: &mut Gpio) -> (signal: Ch1<Otype>) {
        Ch1::from_pa15(self, gpio)
    }
}

impl<Otype> IntoSignal<Ch1<Otype>> for PA15<Alternate<Otype>> {
    open spec fn taken(gpio: Gpio) -> Gpio {
        gpio
    }

    fn into_signal(self, gpio: &mut Gpio) -> (signal: Ch1<Otype>) {
        Ch1::PA15(self)
    }
}

/// Channel 2 of Tim2: one of the pins that can carry it, in alternate mode
pub enum Ch2<Otype = PushPull> {
    Unconnected(NoPin<Otype>),
    PA1(PA1<Alternate<Otype>>),
    PB3(PB3<Alternate<Otype>>),
}

impl<Otype> Sealed for Ch2<Otype> {

}

impl<Otype> ReadPin for Ch2<Otype> {
    open spec fn spec_is_low(&self, gpio: Gpio) -> bool {
        match self {
            Self::PA1(p) => p.spec_is_low(gpio),
            Self::PB3(p) => p.spec_is_low(gpio),
            Self::Unconnected(_) => false,
        }
    }

    fn is_low(&self, gpio: &Gpio) -> (low: bool) {
        match self {
            Self::PA1(p) => p.is_low(gpio),
            Self::PB3(p) => p.is_low(gpio),
            Self::Unconnected(_) => false,
        }
    }
}

impl<Otype> PinSpeed for Ch2<Otype> {
    open spec fn with_speed(&self, gpio: Gpio, speed: Speed) -> Gpio {
        match self {
            Self::PA1(p) => p.with_speed(gpio, speed),
            Self::PB3(p) => p.with_speed(gpio, speed),
            Self::Unconnected(_) => gpio,
        }
    }

    fn set_speed(&mut self, gpio: &mut Gpio, speed: Speed) {
        match self {
            Self::PA1(p) => PinSpeed::set_speed(p, gpio, speed),
            Self::PB3(p) => PinSpeed::set_speed(p, gpio, speed),
            Self::Unconnected(_) => {},
        }
    }
}

impl<Otype> Ch2<Otype> {
    /// The signal without a pin.
    pub fn from_no_pin<T>(_no: NoPin<T>) -> (signal: Self)
        ensures
            signal is Unconnected,
    {
        Self::Unconnected(NoPin::new())
    }

    /// Puts `PA1` into alternate mode and takes it for the signal.
    pub fn from_pa1<MODE>(p: PA1<MODE>, gpio: &mut Gpio) -> (signal: Self) where
        MODE: NotAlt + PinMode,
        Alternate<Otype>: PinMode,

        ensures
            signal is PA1,
            *final(gpio) == after::<Alternate<Otype>>(*old(gpio), PORT_A, 1),
    {
        Self::PA1(p.into_mode(gpio))
    }

    /// Gives `PA1` back in mode `MODE`, if it carries the signal.
    pub fn try_into_pa1<MODE>(self, gpio: &mut Gpio) -> (pin: Result<PA1<MODE>, ()>) where
        MODE: PinMode,
        Alternate<Otype>: PinMode,

        ensures
            pin is Ok <==> self is PA1,
            pin is Ok ==> *final(gpio) == after::<MODE>(*old(gpio), PORT_A, 1),
            pin is Err ==> *final(gpio) == *old(gpio),
    {
        match self {
            Self::PA1(p) => Ok(p.into_mode(gpio)),
            _ => Err(()),
        }
    }

    /// Puts `PB3` into alternate mode and takes it for the signal.
    pub fn from_pb3<MODE>(p: PB3<MODE>, gpio: &mut Gpio) -> (signal: Self) where
        MODE: NotAlt + PinMode,
        Alternate<Otype>: PinMode,

        ensures
            signal is PB3,
            *final(gpio) == after::<Alternate<Otype>>(*old(gpio), PORT_B, 3),
    {
        Self::PB3(p.into_mode(gpio))
    }

    /// Gives `PB3` back in mode `MODE`, if it carries the signal.
    pub fn try_into_pb3<MODE>(self, gpio: &mut Gpio) -> (pin: Result<PB3<MODE>, ()>) where
        MODE: PinMode,
        Alternate<Otype>: PinMode,

        ensures
            pin is Ok <==> self is PB3,
            pin is Ok ==> *final(gpio) == after::<MODE>(*old(gpio), PORT_B, 3),
            pin is Err ==> *final(gpio) == *old(gpio),
    {
        match self {
            Self::PB3(p) => Ok(p.into_mode(gpio)),
            _ => Err(()),
        }
    }
}

impl<T, Otype> IntoSignal<Ch2<Otype>> for NoPin<T> {
    open spec fn taken(gpio: Gpio) -> Gpio {
        gpio
    }

    fn into_signal(self, gpio: &mut Gpio) -> (signal: Ch2<Otype>) {
        Ch2::from_no_pin(self)
    }
}

impl<MODE, Otype> IntoSignal<Ch2<Otype>> for PA1<MODE> where
    MODE: NotAlt + PinMode,
    Alternate<Otype>: PinMode,
 {
    open spec fn taken(gpio: Gpio) -> Gpio {
        after::<Alternate<Otype>>(gpio, PORT_A, 1)
    }

    fn into_signal(self, gpio: &mut Gpio) -> (signal: Ch2<Otype>) {
        Ch2::from_pa1(self, gpio)
    }
}

impl<Otype> IntoSignal<Ch2<Otype>> for PA1<Alternate<Otype>> {
    open spec fn taken(gpio: Gpio) -> Gpio {
        gpio
    }

    fn into_signal(self, gpio: &mut Gpio) -> (signal: Ch2<Otype>) {
        Ch2::PA1(self)
    }
}

impl<MODE, Otype> IntoSignal<Ch2<Otype>> for PB3<MODE> where
    MODE: NotAlt + PinMode,
    Alternate<Otype>: PinMode,
 {
    open spec fn taken(gpio: Gpio) -> Gpio {
        after::<Alternate<Otype>>(gpio, PORT_B, 3)
    }

    fn into_signal(self, gpio: &mut Gpio) -> (signal: Ch2<Otype>) {
        Ch2::from_pb3(self, gpio)
    }
}

impl<Otype> IntoSignal<Ch2<Otype>> for PB3<Alternate<Otype>> {
    open spec fn taken(gpio: Gpio) -> Gpio {
        gpio
    }

    fn into_signal(self, gpio: &mut Gpio) -> (signal: Ch2<Otype>) {
        Ch2::PB3(self)
    }
}

/// Channel 3 of Tim2: one of the pins that can carry it, in alternate mode
pub enum Ch3<Otype = PushPull> {
    Unconnected(NoPin<Otype>),
    PA2(PA2<Alternate<Otype>>),
    PB10(PB10<Alternate<Otype>>),
}

impl<Otype> Sealed for Ch3<Otype> {

}

impl<Otype> ReadPin for Ch3<Otype> {
    open spec fn spec_is_low(&self, gpio: Gpio) -> bool {
        match self {
            Self::PA2(p) => p.spec_is_low(gpio),
            Self::PB10(p) => p.spec_is_low(gpio),
            Self::Unconnected(_) => false,
        }
    }

    fn is_low(&self, gpio: &Gpio) -> (low: bool) {
        match self {
            Self::PA2(p) => p.is_low(gpio),
            Self::PB10(p) => p.is_low(gpio),
            Self::Unconnected(_) => false,
        }
    }
}

impl<Otype> PinSpeed for Ch3<Otype> {
    open spec fn with_speed(&self, gpio: Gpio, speed: Speed) -> Gpio {
        match self {
            Self::PA2(p) => p.with_speed(gpio, speed),
            Self::PB10(p) => p.with_speed(gpio, speed),
            Self::Unconnected(_) => gpio,
        }
    }

    fn set_speed(&mut self, gpio: &mut Gpio, speed: Speed) {
        match self {
            Self::PA2(p) => PinSpeed::set_speed(p, gpio, speed),
            Self::PB10(p) => PinSpeed::set_speed(p, gpio, speed),
            Self::Unconnected(_) => {},
        }
    }
}

impl<Otype> Ch3<Otype> {
    /// The signal without a pin.
    pub fn from_no_pin<T>(_no: NoPin<T>) -> (signal: Self)
        ensures
            signal is Unconnected,
    {
        Self::Unconnected(NoPin::new())
    }

    /// Puts `PA2` into alternate mode and takes it for the signal.
    pub fn from_pa2<MODE>(p: PA2<MODE>, gpio: &mut Gpio) -> (signal: Self) where
        MODE: NotAlt + PinMode,
        Alternate<Otype>: PinMode,

        ensures
            signal is PA2,
            *final(gpio) == after::<Alternate<Otype>>(*old(gpio), PORT_A, 2),
    {
        Self::PA2(p.into_mode(gpio))
    }

    /// Gives `PA2` back in mode `MODE`, if it carries the signal.
    pub fn try_into_pa2<MODE>(self, gpio: &mut Gpio) -> (pin: Result<PA2<MODE>, ()>) where
        MODE: PinMode,
        Alternate<Otype>: PinMode,

        ensures
            pin is Ok <==> self is PA2,
            pin is Ok ==> *final(gpio) == after::<MODE>(*old(gpio), PORT_A, 2),
            pin is Err ==> *final(gpio) == *old(gpio),
    {
        match self {
            Self::PA2(p) => Ok(p.into_mode(gpio)),
            _ => Err(()),
        }
    }

    /// Puts `PB10` into alternate mode and takes it for the signal.
    pub fn from_pb10<MODE>(p: PB10<MODE>, gpio: &mut Gpio) -> (signal: Self) where
        MODE: NotAlt + PinMode,
        Alternate<Otype>: PinMode,

        ensures
            signal is PB10,
            *final(gpio) == after::<Alternate<Otype>>(*old(gpio), PORT_B, 10),
    {
        Self::PB10(p.into_mode(gpio))
    }

    /// Gives `PB10` back in mode `MODE`, if it carries the signal.
    pub fn try_into_pb10<MODE>(self, gpio: &mut Gpio) -> (pin: Result<PB10<MODE>, ()>) where
        MODE: PinMode,
        Alternate<Otype>: PinMode,

        ensures
            pin is Ok <==> self is PB10,
            pin is Ok ==> *final(gpio) == after::<MODE>(*old(gpio), PORT_B, 10),
            pin is Err ==> *final(gpio) == *old(gpio),
    {
        match self {
            Self::PB10(p) => Ok(p.into_mode(gpio)),
            _ => Err(()),
        }
    }
}

impl<T, Otype> IntoSignal<Ch3<Otype>> for NoPin<T> {
    open spec fn taken(gpio: Gpio) -> Gpio {
        gpio
    }

    fn into_signal(self, gpio: &mut Gpio) -> (signal: Ch3<Otype>) {
        Ch3::from_no_pin(self)
    }
}

impl<MODE, Otype> IntoSignal<Ch3<Otype>> for PA2<MODE> where
    MODE: NotAlt + PinMode,
    Alternate<Otype>: PinMode,
 {
    open spec fn taken(gpio: Gpio) -> Gpio {
        after::<Alternate<Otype>>(gpio, PORT_A, 2)
    }

    fn into_signal(self, gpio: &mut Gpio) -> (signal: Ch3<Otype>) {
        Ch3::from_pa2(self, gpio)
    }
}

impl<Otype> IntoSignal<Ch3<Otype>> for PA2<Alternate<Otype>> {
    open spec fn taken(gpio: Gpio) -> Gpio {
        gpio
    }

    fn into_signal(self, gpio: &mut Gpio) -> (signal: Ch3<Otype>) {
        Ch3::PA2(self)
    }
}

impl<MODE, Otype> IntoSignal<Ch3<Otype>> for PB10<MODE> where
    MODE: NotAlt + PinMode,
    Alternate<Otype>: PinMode,
 {
    open spec fn taken(gpio: Gpio) -> Gpio {
        after::<Alternate<Otype>>(gpio, PORT_B, 10)
    }

    fn into_signal(self, gpio: &mut Gpio) -> (signal: Ch3<Otype>) {
        Ch3::from_pb10(self, gpio)
    }
}

impl<Otype> IntoSignal<Ch3<Otype>> for PB10<Alternate<Otype>> {
    open spec fn taken(gpio: Gpio) -> Gpio {
        gpio
    }

    fn into_signal(self, gpio: &mut Gpio) -> (signal: Ch3<Otype>) {
        Ch3::PB10(self)
    }
}

/// Channel 4 of Tim2: one of the pins that can carry it, in alternate mode
pub enum Ch4<Otype = PushPull> {
    Unconnected(NoPin<Otype>),
    PA3(PA3<Alternate<Otype>>),
    PB11(PB11<Alternate<Otype>>),
}

impl<Otype> Sealed for Ch4<Otype> {

}

impl<Otype> ReadPin for Ch4<Otype> {
    open spec fn spec_is_low(&self, gpio: Gpio) -> bool {
        match self {
            Self::PA3(p) => p.spec_is_low(gpio),
            Self::PB11(p) => p.spec_is_low(gpio),
            Self::Unconnected(_) => false,
        }
    }

    fn is_low(&self, gpio: &Gpio) -> (low: bool) {
        match self {
            Self::PA3(p) => p.is_low(gpio),
            Self::PB11(p) => p.is_low(gpio),
            Self::Unconnected(_) => false,
        }
    }
}

impl<Otype> PinSpeed for Ch4<Otype> {
    open spec fn with_speed(&self, gpio: Gpio, speed: Speed) -> Gpio {
        match self {
            Self::PA3(p) => p.with_speed(gpio, speed),
            Self::PB11(p) => p.with_speed(gpio, speed),
            Self::Unconnected(_) => gpio,
        }
    }

    fn set_speed(&mut self, gpio: &mut Gpio, speed: Speed) {
        match self {
            Self::PA3(p) => PinSpeed::set_speed(p, gpio, speed),
            Self::PB11(p) => PinSpeed::set_speed(p, gpio, speed),
            Self::Unconnected(_) => {},
        }
    }
}

impl<Otype> Ch4<Otype> {
    /// The signal without a pin.
    pub fn from_no_pin<T>(_no: NoPin<T>) -> (signal: Self)
        ensures
            signal is Unconnected,
    {
        Self::Unconnected(NoPin::new())
    }

    /// Puts `PA3` into alternate mode and takes it for the signal.
    pub fn from_pa3<MODE>(p: PA3<MODE>, gpio: &mut Gpio) -> (signal: Self) where
        MODE: NotAlt + PinMode,
        Alternate<Otype>: PinMode,

        ensures
            signal is PA3,
            *final(gpio) == after::<Alternate<Otype>>(*old(gpio), PORT_A, 3),
    {
        Self::PA3(p.into_mode(gpio))
    }

    /// Gives `PA3` back in mode `MODE`, if it carries the signal.
    pub fn try_into_pa3<MODE>(self, gpio: &mut Gpio) -> (pin: Result<PA3<MODE>, ()>) where
        MODE: PinMode,
        Alternate<Otype>: PinMode,

        ensures
            pin is Ok <==> self is PA3,
            pin is Ok ==> *final(gpio) == after::<MODE>(*old(gpio), PORT_A, 3),
            pin is Err ==> *final(gpio) == *old(gpio),
    {
        match self {
            Self::PA3(p) => Ok(p.into_mode(gpio)),
            _ => Err(()),
        }
    }

    /// Puts `PB11` into alternate mode and takes it for the signal.
    pub fn from_pb11<MODE>(p: PB11<MODE>, gpio: &mut Gpio) -> (signal: Self) where
        MODE: NotAlt + PinMode,
        Alternate<Otype>: PinMode,

        ensures
            signal is PB11,
            *final(gpio) == after::<Alternate<Otype>>(*old(gpio), PORT_B, 11),
    {
        Self::PB11(p.into_mode(gpio))
    }

    /// Gives `PB11` back in mode `MODE`, if it carries the signal.
    pub fn try_into_pb11<MODE>(self, gpio: &mut Gpio) -> (pin: Result<PB11<MODE>, ()>) where
        MODE: PinMode,
        Alternate<Otype>: PinMode,

        ensures
            pin is Ok <==> self is PB11,
            pin is Ok ==> *final(gpio) == after::<MODE>(*old(gpio), PORT_B, 11),
            pin is Err ==> *final(gpio) == *old(gpio),
    {
        match self {
            Self::PB11(p) => Ok(p.into_mode(gpio)),
            _ => Err(()),
        }
    }
}

impl<T, Otype> IntoSignal<Ch4<Otype>> for NoPin<T> {
    open spec fn taken(gpio: Gpio) -> Gpio {
        gpio
    }

    fn into_signal(self, gpio: &mut Gpio) -> (signal: Ch4<Otype>) {
        Ch4::from_no_pin(self)
    }
}

impl<MODE, Otype> IntoSignal<Ch4<Otype>> for PA3<MODE> where
    MODE: NotAlt + PinMode,
    Alternate<Otype>: PinMode,
 {
    open spec fn taken(gpio: Gpio) -> Gpio {
        after::<Alternate<Otype>>(gpio, PORT_A, 3)
    }

    fn into_signal(self, gpio: &mut Gpio) -> (signal: Ch4<Otype>) {
        Ch4::from_pa3(self, gpio)
    }
}

impl<Otype> IntoSignal<Ch4<Otype>> for PA3<Alternate<Otype>> {
    open spec fn taken(gpio: Gpio) -> Gpio {
        gpio
    }

    fn into_signal(self, gpio: &mut Gpio) -> (signal: Ch4<Otype>) {
        Ch4::PA3(self)
    }
}

impl<MODE, Otype> IntoSignal<Ch4<Otype>> for PB11<MODE> where
    MODE: NotAlt + PinMode,
    Alternate<Otype>: PinMode,
 {
    open spec fn taken(gpio: Gpio) -> Gpio {
        after::<Alternate<Otype>>(gpio, PORT_B, 11)
    }

    fn into_signal(self, gpio: &mut Gpio) -> (signal: Ch4<Otype>) {
        Ch4::from_pb11(self, gpio)
    }
}

impl<Otype> IntoSignal<Ch4<Otype>> for PB11<Alternate<Otype>> {
    open spec fn taken(gpio: Gpio) -> Gpio {
        gpio
    }

    fn into_signal(self, gpio: &mut Gpio) -> (signal: Ch4<Otype>) {
        Ch4::PB11(self)
    }
}

impl<Otype> TimCPin<0, Otype> for Tim2 {
    type Ch = Ch1<Otype>;
}

impl<Otype> TimCPin<1, Otype> for Tim2 {
    type Ch = Ch2<Otype>;
}

impl<Otype> TimCPin<2, Otype> for Tim2 {
    type Ch = Ch3<Otype>;
}

impl<Otype> TimCPin<3, Otype> for Tim2 {
    type Ch = Ch4<Otype>;
}

} // verus!
