//! USART2: where its signals can be routed to, and how.

use vstd::prelude::*;
use crate::gpio::Alternate;
use crate::gpio::Floating;
use crate::gpio::Input;
use crate::gpio::NoPin;
use crate::gpio::PinMode;
use crate::gpio::PinSpeed;
use crate::gpio::PushPull;
use crate::gpio::ReadPin;
use crate::gpio::Speed;
use crate::gpio::alt::IntoSignal;
use crate::gpio::alt::SerialAsync;
use crate::gpio::alt::SerialRs232;
use crate::gpio::alt::SerialSync;
use crate::gpio::alt::altmap::Remap;
use crate::gpio::alt::altmap::RemapIO;
use crate::gpio::alt::altmap::lemma_wired_pin;
use crate::gpio::convert::after;
use crate::gpio::marker::NotAlt;
use crate::gpio::port::PORT_A;
use crate::gpio::port::PORT_B;
use crate::gpio::port::PORT_C;
use crate::gpio::port::PORT_D;
use crate::pac::Afio;
use crate::pac::Gpio;
use crate::pac::Usart2;
use crate::sealed::Sealed;
use crate::gpio::PA0;
use crate::gpio::PA1;
use crate::gpio::PA2;
use crate::gpio::PA3;
use crate::gpio::PA4;
use crate::gpio::PA15;
use crate::gpio::PB3;
use crate::gpio::PB4;
use crate::gpio::PB5;
use crate::gpio::PC6;
use crate::gpio::PC7;
use crate::gpio::PC8;
use crate::gpio::PC9;
use crate::gpio::PD3;
use crate::gpio::PD4;
use crate::gpio::PD5;
use crate::gpio::PD6;
use crate::gpio::PD7;

verus! {

/// USART2 without remapping
pub struct USART2NoRemapRemapper();

/// USART2 with the first partial remapping
pub struct USART2PartialRemapOneRemapper();

/// USART2 with the second partial remapping
pub struct USART2PartialRemapTwoRemapper();

/// USART2 with the full remapping
pub struct USART2FullRemapRemapper();

impl Remap for USART2NoRemapRemapper {
    open spec fn remapped(afio: Afio) -> Afio {
        Afio {
            rmp_cfg: crate::pac::RmpCfg { usart2_rmp_0: false, ..afio.rmp_cfg },
            rmp_cfg3: crate::pac::RmpCfg3 { usart2_rmp_1: false, ..afio.rmp_cfg3 },
            ..afio
        }
    }

    open spec fn wired(port: u8, pin: u8) -> bool {
        port == PORT_A && (pin == 0 || pin == 1 || pin == 2 || pin == 3 || pin == 4)
    }

    fn remap(afio: &mut Afio) {
        afio.rmp_cfg.usart2_rmp_0 = false;
        afio.rmp_cfg3.usart2_rmp_1 = false;
    }
}

impl Remap for USART2PartialRemapOneRemapper {
    open spec fn remapped(afio: Afio) -> Afio {
        Afio {
            rmp_cfg: crate::pac::RmpCfg { usart2_rmp_0: true, ..afio.rmp_cfg },
            rmp_cfg3: crate::pac::RmpCfg3 { usart2_rmp_1: false, ..afio.rmp_cfg3 },
            ..afio
        }
    }

    open spec fn wired(port: u8, pin: u8) -> bool {
        port == PORT_D && (pin == 3 || pin == 4 || pin == 5 || pin == 6 || pin == 7)
    }

    fn remap(afio: &mut Afio) {
        afio.rmp_cfg.usart2_rmp_0 = true;
        afio.rmp_cfg3.usart2_rmp_1 = false;
    }
}

impl Remap for USART2PartialRemapTwoRemapper {
    open spec fn remapped(afio: Afio) -> Afio {
        Afio {
            rmp_cfg: crate::pac::RmpCfg { usart2_rmp_0: false, ..afio.rmp_cfg },
            rmp_cfg3: crate::pac::RmpCfg3 { usart2_rmp_1: true, ..afio.rmp_cfg3 },
            ..afio
        }
    }

    open spec fn wired(port: u8, pin: u8) -> bool {
        port == PORT_C && (pin == 6 || pin == 7 || pin == 8 || pin == 9)
    }

    fn remap(afio: &mut Afio) {
        afio.rmp_cfg.usart2_rmp_0 = false;
        afio.rmp_cfg3.usart2_rmp_1 = true;
    }
}

impl Remap for USART2FullRemapRemapper {
    open spec fn remapped(afio: Afio) -> Afio {
        Afio {
            rmp_cfg: crate::pac::RmpCfg { usart2_rmp_0: true, ..afio.rmp_cfg },
            rmp_cfg3: crate::pac::RmpCfg3 { usart2_rmp_1: true, ..afio.rmp_cfg3 },
            ..afio
        }
    }

    open spec fn wired(port: u8, pin: u8) -> bool {
        ||| port == PORT_A && (pin == 15 || pin == 4)
        ||| port == PORT_B && (pin == 3 || pin == 4 || pin == 5)
    }

    fn remap(afio: &mut Afio) {
        afio.rmp_cfg.usart2_rmp_0 = true;
        afio.rmp_cfg3.usart2_rmp_1 = true;
    }
}

impl<T> RemapIO<Usart2, USART2NoRemapRemapper> for PA0<T> {
    proof fn lemma_wired() {
    }
}

impl<T> RemapIO<Usart2, USART2NoRemapRemapper> for PA1<T> {
    proof fn lemma_wired() {
    }
}

impl<T> RemapIO<Usart2, USART2NoRemapRemapper> for PA2<T> {
    proof fn lemma_wired() {
    }
}

impl<T> RemapIO<Usart2, USART2NoRemapRemapper> for PA3<T> {
    proof fn lemma_wired() {
    }
}

impl<T> RemapIO<Usart2, USART2NoRemapRemapper> for PA4<T> {
    proof fn lemma_wired() {
    }
}

impl<T> RemapIO<Usart2, USART2PartialRemapOneRemapper> for PD3<T> {
    proof fn lemma_wired() {
    }
}

impl<T> RemapIO<Usart2, USART2PartialRemapOneRemapper> for PD4<T> {
    proof fn lemma_wired() {
    }
}

impl<T> RemapIO<Usart2, USART2PartialRemapOneRemapper> for PD5<T> {
    proof fn lemma_wired() {
    }
}

impl<T> RemapIO<Usart2, USART2PartialRemapOneRemapper> for PD6<T> {
    proof fn lemma_wired() {
    }
}

impl<T> RemapIO<Usart2, USART2PartialRemapOneRemapper> for PD7<T> {
    proof fn lemma_wired() {
    }
}

impl<T> RemapIO<Usart2, USART2PartialRemapTwoRemapper> for PC6<T> {
    proof fn lemma_wired() {
    }
}

impl<T> RemapIO<Usart2, USART2PartialRemapTwoRemapper> for PC7<T> {
    proof fn lemma_wired() {
    }
}

impl<T> RemapIO<Usart2, USART2PartialRemapTwoRemapper> for PC8<T> {
    proof fn lemma_wired() {
    }
}

impl<T> RemapIO<Usart2, USART2PartialRemapTwoRemapper> for PC9<T> {
    proof fn lemma_wired() {
    }
}

impl<T> RemapIO<Usart2, USART2FullRemapRemapper> for PA15<T> {
    proof fn lemma_wired() {
    }
}

impl<T> RemapIO<Usart2, USART2FullRemapRemapper> for PB3<T> {
    proof fn lemma_wired() {
    }
}

impl<T> RemapIO<Usart2, USART2FullRemapRemapper> for PB4<T> {
    proof fn lemma_wired() {
    }
}

impl<T> RemapIO<Usart2, USART2FullRemapRemapper> for PB5<T> {
    proof fn lemma_wired() {
    }
}

impl<T> RemapIO<Usart2, USART2FullRemapRemapper> for PA4<T> {
    proof fn lemma_wired() {
    }
}

/// Each pin that USART2 can use without remapping has its `RemapIO`.
pub proof fn lemma_usart2_no_remap_pins()
    ensures
        USART2NoRemapRemapper::wired(PORT_A, 0),
        USART2NoRemapRemapper::wired(PORT_A, 1),
        USART2NoRemapRemapper::wired(PORT_A, 2),
        USART2NoRemapRemapper::wired(PORT_A, 3),
        USART2NoRemapRemapper::wired(PORT_A, 4),
{
    lemma_wired_pin::<PA0, Usart2, USART2NoRemapRemapper>();
    lemma_wired_pin::<PA1, Usart2, USART2NoRemapRemapper>();
    lemma_wired_pin::<PA2, Usart2, USART2NoRemapRemapper>();
    lemma_wired_pin::<PA3, Usart2, USART2NoRemapRemapper>();
    lemma_wired_pin::<PA4, Usart2, USART2NoRemapRemapper>();
}

/// Each pin that USART2 can use with the first partial remapping has its `RemapIO`.
pub proof fn lemma_usart2_partial_remap_one_pins()
    ensures
        USART2PartialRemapOneRemapper::wired(PORT_D, 3),
        USART2PartialRemapOneRemapper::wired(PORT_D, 4),
        USART2PartialRemapOneRemapper::wired(PORT_D, 5),
        USART2PartialRemapOneRemapper::wired(PORT_D, 6),
        USART2PartialRemapOneRemapper::wired(PORT_D, 7),
{
    lemma_wired_pin::<PD3, Usart2, USART2PartialRemapOneRemapper>();
    lemma_wired_pin::<PD4, Usart2, USART2PartialRemapOneRemapper>();
    lemma_wired_pin::<PD5, Usart2, USART2PartialRemapOneRemapper>();
    lemma_wired_pin::<PD6, Usart2, USART2PartialRemapOneRemapper>();
    lemma_wired_pin::<PD7, Usart2, USART2PartialRemapOneRemapper>();
}

/// Each pin that USART2 can use with the second partial remapping has its `RemapIO`.
pub proof fn lemma_usart2_partial_remap_two_pins()
    ensures
        USART2PartialRemapTwoRemapper::wired(PORT_C, 6),
        USART2PartialRemapTwoRemapper::wired(PORT_C, 7),
        USART2PartialRemapTwoRemapper::wired(PORT_C, 8),
        USART2PartialRemapTwoRemapper::wired(PORT_C, 9),
{
    lemma_wired_pin::<PC6, Usart2, USART2PartialRemapTwoRemapper>();
    lemma_wired_pin::<PC7, Usart2, USART2PartialRemapTwoRemapper>();
    lemma_wired_pin::<PC8, Usart2, USART2PartialRemapTwoRemapper>();
    lemma_wired_pin::<PC9, Usart2, USART2PartialRemapTwoRemapper>();
}

/// Each pin that USART2 can use with the full remapping has its `RemapIO`.
pub proof fn lemma_usart2_full_remap_pins()
    ensures
        USART2FullRemapRemapper::wired(PORT_A, 15),
        USART2FullRemapRemapper::wired(PORT_B, 3),
        USART2FullRemapRemapper::wired(PORT_B, 4),
        USART2FullRemapRemapper::wired(PORT_B, 5),
        USART2FullRemapRemapper::wired(PORT_A, 4),
{
    lemma_wired_pin::<PA15, Usart2, USART2FullRemapRemapper>();
    lemma_wired_pin::<PB3, Usart2, USART2FullRemapRemapper>();
    lemma_wired_pin::<PB4, Usart2, USART2FullRemapRemapper>();
    lemma_wired_pin::<PB5, Usart2, USART2FullRemapRemapper>();
    lemma_wired_pin::<PA4, Usart2, USART2FullRemapRemapper>();
}

/// Clock of Usart2: one of the pins that can carry it, in alternate mode
pub enum Ck {
    PA4(PA4<Alternate<PushPull>>),
    PD7(PD7<Alternate<PushPull>>),
}

impl Sealed for Ck {

}

impl ReadPin for Ck {
    open spec fn spec_is_low(&self, gpio: Gpio) -> bool {
        match self {
            Self::PA4(p) => p.spec_is_low(gpio),
            Self::PD7(p) => p.spec_is_low(gpio),
        }
    }

    fn is_low(&self, gpio: &Gpio) -> (low: bool) {
        match self {
            Self::PA4(p) => p.is_low(gpio),
            Self::PD7(p) => p.is_low(gpio),
        }
    }
}

impl PinSpeed for Ck {
    open spec fn with_speed(&self, gpio: Gpio, speed: Speed) -> Gpio {
        match self {
            Self::PA4(p) => p.with_speed(gpio, speed),
            Self::PD7(p) => p.with_speed(gpio, speed),
        }
    }

    fn set_speed(&mut self, gpio: &mut Gpio, speed: Speed) {
        match self {
            Self::PA4(p) => PinSpeed::set_speed(p, gpio, speed),
            Self::PD7(p) => PinSpeed::set_speed(p, gpio, speed),
        }
    }
}

impl Ck {
    /// Puts `PA4` into alternate mode and takes it for the signal.
    pub fn from_pa4<MODE>(p: PA4<MODE>, gpio: &mut Gpio) -> (signal: Self) where
        MODE: NotAlt + PinMode,

        ensures
            signal is PA4,
            *final(gpio) == after::<Alternate<PushPull>>(*old(gpio), PORT_A, 4),
    {
        Self::PA4(p.into_mode(gpio))
    }

    /// Gives `PA4` back in mode `MODE`, if it carries the signal.
    pub fn try_into_pa4<MODE>(self, gpio: &mut Gpio) -> (pin: Result<PA4<MODE>, ()>) where
        MODE: PinMode,

        ensures
            pin is Ok <==> self is PA4,
            pin is Ok ==> *final(gpio) == after::<MODE>(*old(gpio), PORT_A, 4),
            pin is Err ==> *final(gpio) == *old(gpio),
    {
        match self {
            Self::PA4(p) => Ok(p.into_mode(gpio)),
            _ => Err(()),
        }
    }

    /// Puts `PD7` into alternate mode and takes it for the signal.
    pub fn from_pd7<MODE>(p: PD7<MODE>, gpio: &mut Gpio) -> (signal: Self) where
        MODE: NotAlt + PinMode,

        ensures
            signal is PD7,
            *final(gpio) == after::<Alternate<PushPull>>(*old(gpio), PORT_D, 7),
    {
        Self::PD7(p.into_mode(gpio))
    }

    /// Gives `PD7` back in mode `MODE`, if it carries the signal.
    pub fn try_into_pd7<MODE>(self, gpio: &mut Gpio) -> (pin: Result<PD7<MODE>, ()>) where
        MODE: PinMode,

        ensures
            pin is Ok <==> self is PD7,
            pin is Ok ==> *final(gpio) == after::<MODE>(*old(gpio), PORT_D, 7),
            pin is Err ==> *final(gpio) == *old(gpio),
    {
        match self {
            Self::PD7(p) => Ok(p.into_mode(gpio)),
            _ => Err(()),
        }
    }
}

impl<MODE> IntoSignal<Ck> for PA4<MODE> where
    MODE: NotAlt + PinMode,
 {
    open spec fn taken(gpio: Gpio) -> Gpio {
        after::<Alternate<PushPull>>(gpio, PORT_A, 4)
    }

    fn into_signal(self, gpio: &mut Gpio) -> (signal: Ck) {
        Ck::from_pa4(self, gpio)
    }
}

impl IntoSignal<Ck> for PA4<Alternate<PushPull>> {
    open spec fn taken(gpio: Gpio) -> Gpio {
        gpio
    }

    fn into_signal(self, gpio: &mut Gpio) -> (signal: Ck) {
        Ck::PA4(self)
    }
}

impl<MODE> IntoSignal<Ck> for PD7<MODE> where
    MODE: NotAlt + PinMode,
 {
    open spec fn taken(gpio: Gpio) -> Gpio {
        after::<Alternate<PushPull>>(gpio, PORT_D, 7)
    }

    fn into_signal(self, gpio: &mut Gpio) -> (signal: Ck) {
        Ck::from_pd7(self, gpio)
    }
}

impl IntoSignal<Ck> for PD7<Alternate<PushPull>> {
    open spec fn taken(gpio: Gpio) -> Gpio {
        gpio
    }

    fn into_signal(self, gpio: &mut Gpio) -> (signal: Ck) {
        Ck::PD7(self)
    }
}

/// Clear to send of Usart2: one of the pins that can carry it, in alternate mode
pub enum Cts {
    PA0(PA0<Alternate<PushPull>>),
    PD3(PD3<Alternate<PushPull>>),
    PC6(PC6<Alternate<PushPull>>),
    PA15(PA15<Alternate<PushPull>>),
}

impl Sealed for Cts {

}

impl ReadPin for Cts {
    open spec fn spec_is_low(&self, gpio: Gpio) -> bool {
        match self {
            Self::PA0(p) => p.spec_is_low(gpio),
            Self::PD3(p) => p.spec_is_low(gpio),
            Self::PC6(p) => p.spec_is_low(gpio),
            Self::PA15(p) => p.spec_is_low(gpio),
        }
    }

    fn is_low(&self, gpio: &Gpio) -> (low: bool) {
        match self {
            Self::PA0(p) => p.is_low(gpio),
            Self::PD3(p) => p.is_low(gpio),
            Self::PC6(p) => p.is_low(gpio),
            Self::PA15(p) => p.is_low(gpio),
        }
    }
}

impl PinSpeed for Cts {
    open spec fn with_speed(&self, gpio: Gpio, speed: Speed) -> Gpio {
        match self {
            Self::PA0(p) => p.with_speed(gpio, speed),
            Self::PD3(p) => p.with_speed(gpio, speed),
            Self::PC6(p) => p.with_speed(gpio, speed),
            Self::PA15(p) => p.with_speed(gpio, speed),
        }
    }

    fn set_speed(&mut self, gpio: &mut Gpio, speed: Speed) {
        match self {
            Self::PA0(p) => PinSpeed::set_speed(p, gpio, speed),
            Self::PD3(p) => PinSpeed::set_speed(p, gpio, speed),
            Self::PC6(p) => PinSpeed::set_speed(p, gpio, speed),
            Self::PA15(p) => PinSpeed::set_speed(p, gpio, speed),
        }
    }
}

impl Cts {
    /// Puts `PA0` into alternate mode and takes it for the signal.
    pub fn from_pa0<MODE>(p: PA0<MODE>, gpio: &mut Gpio) -> (signal: Self) where
        MODE: NotAlt + PinMode,

        ensures
            signal is PA0,
            *final(gpio) == after::<Alternate<PushPull>>(*old(gpio), PORT_A, 0),
    {
        Self::PA0(p.into_mode(gpio))
    }

    /// Gives `PA0` back in mode `MODE`, if it carries the signal.
    pub fn try_into_pa0<MODE>(self, gpio: &mut Gpio) -> (pin: Result<PA0<MODE>, ()>) where
        MODE: PinMode,

        ensures
            pin is Ok <==> self is PA0,
            pin is Ok ==> *final(gpio) == after::<MODE>(*old(gpio), PORT_A, 0),
            pin is Err ==> *final(gpio) == *old(gpio),
    {
        match self {
            Self::PA0(p) => Ok(p.into_mode(gpio)),
            _ => Err(()),
        }
    }

    /// Puts `PD3` into alternate mode and takes it for the signal.
    pub fn from_pd3<MODE>(p: PD3<MODE>, gpio: &mut Gpio) -> (signal: Self) where
        MODE: NotAlt + PinMode,

        ensures
            signal is PD3,
            *final(gpio) == after::<Alternate<PushPull>>(*old(gpio), PORT_D, 3),
    {
        Self::PD3(p.into_mode(gpio))
    }

    /// Gives `PD3` back in mode `MODE`, if it carries the signal.
    pub fn try_into_pd3<MODE>(self, gpio: &mut Gpio) -> (pin: Result<PD3<MODE>, ()>) where
        MODE: PinMode,

        ensures
            pin is Ok <==> self is PD3,
            pin is Ok ==> *final(gpio) == after::<MODE>(*old(gpio), PORT_D, 3),
            pin is Err ==> *final(gpio) == *old(gpio),
    {
        match self {
            Self::PD3(p) => Ok(p.into_mode(gpio)),
            _ => Err(()),
        }
    }

    /// Puts `PC6` into alternate mode and takes it for the signal.
    pub fn from_pc6<MODE>(p: PC6<MODE>, gpio: &mut Gpio) -> (signal: Self) where
        MODE: NotAlt + PinMode,

        ensures
            signal is PC6,
            *final(gpio) == after::<Alternate<PushPull>>(*old(gpio), PORT_C, 6),
    {
        Self::PC6(p.into_mode(gpio))
    }

    /// Gives `PC6` back in mode `MODE`, if it carries the signal.
    pub fn try_into_pc6<MODE>(self, gpio: &mut Gpio) -> (pin: Result<PC6<MODE>, ()>) where
        MODE: PinMode,

        ensures
            pin is Ok <==> self is PC6,
            pin is Ok ==> *final(gpio) == after::<MODE>(*old(gpio), PORT_C, 6),
            pin is Err ==> *final(gpio) == *old(gpio),
    {
        match self {
            Self::PC6(p) => Ok(p.into_mode(gpio)),
            _ => Err(()),
        }
    }

    /// Puts `PA15` into alternate mode and takes it for the signal.
    pub fn from_pa15<MODE>(p: PA15<MODE>, gpio: &mut Gpio) -> (signal: Self) where
        MODE: NotAlt + PinMode,

        ensures
            signal is PA15,
            *final(gpio) == after::<Alternate<PushPull>>(*old(gpio), PORT_A, 15),
    {
        Self::PA15(p.into_mode(gpio))
    }

    /// Gives `PA15` back in mode `MODE`, if it carries the signal.
    pub fn try_into_pa15<MODE>(self, gpio: &mut Gpio) -> (pin: Result<PA15<MODE>, ()>) where
        MODE: PinMode,

        ensures
            pin is Ok <==> self is PA15,
            pin is Ok ==> *final(gpio) == after::<MODE>(*old(gpio), PORT_A, 15),
            pin is Err ==> *final(gpio) == *old(gpio),
    {
        match self {
            Self::PA15(p) => Ok(p.into_mode(gpio)),
            _ => Err(()),
        }
    }
}

impl<MODE> IntoSignal<Cts> for PA0<MODE> where
    MODE: NotAlt + PinMode,
 {
    open spec fn taken(gpio: Gpio) -> Gpio {
        after::<Alternate<PushPull>>(gpio, PORT_A, 0)
    }

    fn into_signal(self, gpio: &mut Gpio) -> (signal: Cts) {
        Cts::from_pa0(self, gpio)
    }
}

impl IntoSignal<Cts> for PA0<Alternate<PushPull>> {
    open spec fn taken(gpio: Gpio) -> Gpio {
        gpio
    }

    fn into_signal(self, gpio: &mut Gpio) -> (signal: Cts) {
        Cts::PA0(self)
    }
}

impl<MODE> IntoSignal<Cts> for PD3<MODE> where
    MODE: NotAlt + PinMode,
 {
    open spec fn taken(gpio: Gpio) -> Gpio {
        after::<Alternate<PushPull>>(gpio, PORT_D, 3)
    }

    fn into_signal(self, gpio: &mut Gpio) -> (signal: Cts) {
        Cts::from_pd3(self, gpio)
    }
}

impl IntoSignal<Cts> for PD3<Alternate<PushPull>> {
    open spec fn taken(gpio: Gpio) -> Gpio {
        gpio
    }

    fn into_signal(self, gpio: &mut Gpio) -> (signal: Cts) {
        Cts::PD3(self)
    }
}

impl<MODE> IntoSignal<Cts> for PC6<MODE> where
    MODE: NotAlt + PinMode,
 {
    open spec fn taken(gpio: Gpio) -> Gpio {
        after::<Alternate<PushPull>>(gpio, PORT_C, 6)
    }

    fn into_signal(self, gpio: &mut Gpio) -> (signal: Cts) {
        Cts::from_pc6(self, gpio)
    }
}

impl IntoSignal<Cts> for PC6<Alternate<PushPull>> {
    open spec fn taken(gpio: Gpio) -> Gpio {
        gpio
    }

    fn into_signal(self, gpio: &mut Gpio) -> (signal: Cts) {
        Cts::PC6(self)
    }
}

impl<MODE> IntoSignal<Cts> for PA15<MODE> where
    MODE: NotAlt + PinMode,
 {
    open spec fn taken(gpio: Gpio) -> Gpio {
        after::<Alternate<PushPull>>(gpio, PORT_A, 15)
    }

    fn into_signal(self, gpio: &mut Gpio) -> (signal: Cts) {
        Cts::from_pa15(self, gpio)
    }
}

impl IntoSignal<Cts> for PA15<Alternate<PushPull>> {
    open spec fn taken(gpio: Gpio) -> Gpio {
        gpio
    }

    fn into_signal(self, gpio: &mut Gpio) -> (signal: Cts) {
        Cts::PA15(self)
    }
}

/// Request to send of Usart2: one of the pins that can carry it, in alternate mode
pub enum Rts {
    PA1(PA1<Alternate<PushPull>>),
    PD4(PD4<Alternate<PushPull>>),
    PC7(PC7<Alternate<PushPull>>),
    PB3(PB3<Alternate<PushPull>>),
}

impl Sealed for Rts {

}

impl ReadPin for Rts {
    open spec fn spec_is_low(&self, gpio: Gpio) -> bool {
        match self {
            Self::PA1(p) => p.spec_is_low(gpio),
            Self::PD4(p) => p.spec_is_low(gpio),
            Self::PC7(p) => p.spec_is_low(gpio),
            Self::PB3(p) => p.spec_is_low(gpio),
        }
    }

    fn is_low(&self, gpio: &Gpio) -> (low: bool) {
        match self {
            Self::PA1(p) => p.is_low(gpio),
            Self::PD4(p) => p.is_low(gpio),
            Self::PC7(p) => p.is_low(gpio),
            Self::PB3(p) => p.is_low(gpio),
        }
    }
}

impl PinSpeed for Rts {
    open spec fn with_speed(&self, gpio: Gpio, speed: Speed) -> Gpio {
        match self {
            Self::PA1(p) => p.with_speed(gpio, speed),
            Self::PD4(p) => p.with_speed(gpio, speed),
            Self::PC7(p) => p.with_speed(gpio, speed),
            Self::PB3(p) => p.with_speed(gpio, speed),
        }
    }

    fn set_speed(&mut self, gpio: &mut Gpio, speed: Speed) {
        match self {
            Self::PA1(p) => PinSpeed::set_speed(p, gpio, speed),
            Self::PD4(p) => PinSpeed::set_speed(p, gpio, speed),
            Self::PC7(p) => PinSpeed::set_speed(p, gpio, speed),
            Self::PB3(p) => PinSpeed::set_speed(p, gpio, speed),
        }
    }
}

impl Rts {
    /// Puts `PA1` into alternate mode and takes it for the signal.
    pub fn from_pa1<MODE>(p: PA1<MODE>, gpio: &mut Gpio) -> (signal: Self) where
        MODE: NotAlt + PinMode,

        ensures
            signal is PA1,
            *final(gpio) == after::<Alternate<PushPull>>(*old(gpio), PORT_A, 1),
    {
        Self::PA1(p.into_mode(gpio))
    }

    /// Gives `PA1` back in mode `MODE`, if it carries the signal.
    pub fn try_into_pa1<MODE>(self, gpio: &mut Gpio) -> (pin: Result<PA1<MODE>, ()>) where
        MODE: PinMode,

        ensures
            pin is Ok <==> self is PA1,
            pin is Ok ==> *final(gpio) == after::<MODE>(*old(gpio), PORT_A, 1),
            pin is Err ==> *final(gpio) == *old(gpio),
    {
        match self {
            Self::PA1(p) => Ok(p.into_mode(gpio)),
            _ => Err(()),
        }
    }

    /// Puts `PD4` into alternate mode and takes it for the signal.
    pub fn from_pd4<MODE>(p: PD4<MODE>, gpio: &mut Gpio) -> (signal: Self) where
        MODE: NotAlt + PinMode,

        ensures
            signal is PD4,
            *final(gpio) == after::<Alternate<PushPull>>(*old(gpio), PORT_D, 4),
    {
        Self::PD4(p.into_mode(gpio))
    }

    /// Gives `PD4` back in mode `MODE`, if it carries the signal.
    pub fn try_into_pd4<MODE>(self, gpio: &mut Gpio) -> (pin: Result<PD4<MODE>, ()>) where
        MODE: PinMode,

        ensures
            pin is Ok <==> self is PD4,
            pin is Ok ==> *final(gpio) == after::<MODE>(*old(gpio), PORT_D, 4),
            pin is Err ==> *final(gpio) == *old(gpio),
    {
        match self {
            Self::PD4(p) => Ok(p.into_mode(gpio)),
            _ => Err(()),
        }
    }

    /// Puts `PC7` into alternate mode and takes it for the signal.
    pub fn from_pc7<MODE>(p: PC7<MODE>, gpio: &mut Gpio) -> (signal: Self) where
        MODE: NotAlt + PinMode,

        ensures
            signal is PC7,
            *final(gpio) == after::<Alternate<PushPull>>(*old(gpio), PORT_C, 7),
    {
        Self::PC7(p.into_mode(gpio))
    }

    /// Gives `PC7` back in mode `MODE`, if it carries the signal.
    pub fn try_into_pc7<MODE>(self, gpio: &mut Gpio) -> (pin: Result<PC7<MODE>, ()>) where
        MODE: PinMode,

        ensures
            pin is Ok <==> self is PC7,
            pin is Ok ==> *final(gpio) == after::<MODE>(*old(gpio), PORT_C, 7),
            pin is Err ==> *final(gpio) == *old(gpio),
    {
        match self {
            Self::PC7(p) => Ok(p.into_mode(gpio)),
            _ => Err(()),
        }
    }

    /// Puts `PB3` into alternate mode and takes it for the signal.
    pub fn from_pb3<MODE>(p: PB3<MODE>, gpio: &mut Gpio) -> (signal: Self) where
        MODE: NotAlt + PinMode,

        ensures
            signal is PB3,
            *final(gpio) == after::<Alternate<PushPull>>(*old(gpio), PORT_B, 3),
    {
        Self::PB3(p.into_mode(gpio))
    }

    /// Gives `PB3` back in mode `MODE`, if it carries the signal.
    pub fn try_into_pb3<MODE>(self, gpio: &mut Gpio) -> (pin: Result<PB3<MODE>, ()>) where
        MODE: PinMode,

        ensures
            pin is Ok <==> self is PB3,
            pin is Ok ==> *final(gpio) == after::<MODE>(*old(gpio), PORT_B, 3),
            pin is Err ==> *final(gpio) == *old(gpio),
    {
        match self {
            Self::PB3(p) => Ok(p.into_mode(gpio)),
            _ => Err(()),
        }
    }
}

impl<MODE> IntoSignal<Rts> for PA1<MODE> where
    MODE: NotAlt + PinMode,
 {
    open spec fn taken(gpio: Gpio) -> Gpio {
        after::<Alternate<PushPull>>(gpio, PORT_A, 1)
    }

    fn into_signal(self, gpio: &mut Gpio) -> (signal: Rts) {
        Rts::from_pa1(self, gpio)
    }
}

impl IntoSignal<Rts> for PA1<Alternate<PushPull>> {
    open spec fn taken(gpio: Gpio) -> Gpio {
        gpio
    }

    fn into_signal(self, gpio: &mut Gpio) -> (signal: Rts) {
        Rts::PA1(self)
    }
}

impl<MODE> IntoSignal<Rts> for PD4<MODE> where
    MODE: NotAlt + PinMode,
 {
    open spec fn taken(gpio: Gpio) -> Gpio {
        after::<Alternate<PushPull>>(gpio, PORT_D, 4)
    }

    fn into_signal(self, gpio: &mut Gpio) -> (signal: Rts) {
        Rts::from_pd4(self, gpio)
    }
}

impl IntoSignal<Rts> for PD4<Alternate<PushPull>> {
    open spec fn taken(gpio: Gpio) -> Gpio {
        gpio
    }

    fn into_signal(self, gpio: &mut Gpio) -> (signal: Rts) {
        Rts::PD4(self)
    }
}

impl<MODE> IntoSignal<Rts> for PC7<MODE> where
    MODE: NotAlt + PinMode,
 {
    open spec fn taken(gpio: Gpio) -> Gpio {
        after::<Alternate<PushPull>>(gpio, PORT_C, 7)
    }

    fn into_signal(self, gpio: &mut Gpio) -> (signal: Rts) {
        Rts::from_pc7(self, gpio)
    }
}

impl IntoSignal<Rts> for PC7<Alternate<PushPull>> {
    open spec fn taken(gpio: Gpio) -> Gpio {
        gpio
    }

    fn into_signal(self, gpio: &mut Gpio) -> (signal: Rts) {
        Rts::PC7(self)
    }
}

impl<MODE> IntoSignal<Rts> for PB3<MODE> where
    MODE: NotAlt + PinMode,
 {
    open spec fn taken(gpio: Gpio) -> Gpio {
        after::<Alternate<PushPull>>(gpio, PORT_B, 3)
    }

    fn into_signal(self, gpio: &mut Gpio) -> (signal: Rts) {
        Rts::from_pb3(self, gpio)
    }
}

impl IntoSignal<Rts> for PB3<Alternate<PushPull>> {
    open spec fn taken(gpio: Gpio) -> Gpio {
        gpio
    }

    fn into_signal(self, gpio: &mut Gpio) -> (signal: Rts) {
        Rts::PB3(self)
    }
}

/// Receive of Usart2: one of the pins that can carry it, in alternate mode
pub enum Rx<Otype = Floating> {
    Unconnected(NoPin<Otype>),
    PA3(PA3<Alternate<Otype>>),
    PD6(PD6<Alternate<Otype>>),
    PC9(PC9<Alternate<Otype>>),
    PB5(PB5<Alternate<Otype>>),
}

impl<Otype> Sealed for Rx<Otype> {

}

impl<Otype> ReadPin for Rx<Otype> {
    open spec fn spec_is_low(&self, gpio: Gpio) -> bool {
        match self {
            Self::PA3(p) => p.spec_is_low(gpio),
            Self::PD6(p) => p.spec_is_low(gpio),
            Self::PC9(p) => p.spec_is_low(gpio),
            Self::PB5(p) => p.spec_is_low(gpio),
            Self::Unconnected(_) => false,
        }
    }

    fn is_low(&self, gpio: &Gpio) -> (low: bool) {
        match self {
            Self::PA3(p) => p.is_low(gpio),
            Self::PD6(p) => p.is_low(gpio),
            Self::PC9(p) => p.is_low(gpio),
            Self::PB5(p) => p.is_low(gpio),
            Self::Unconnected(_) => false,
        }
    }
}

impl<Otype> PinSpeed for Rx<Otype> {
    open spec fn with_speed(&self, gpio: Gpio, speed: Speed) -> Gpio {
        match self {
            Self::PA3(p) => p.with_speed(gpio, speed),
            Self::PD6(p) => p.with_speed(gpio, speed),
            Self::PC9(p) => p.with_speed(gpio, speed),
            Self::PB5(p) => p.with_speed(gpio, speed),
            Self::Unconnected(_) => gpio,
        }
    }

    fn set_speed(&mut self, gpio: &mut Gpio, speed: Speed) {
        match self {
            Self::PA3(p) => PinSpeed::set_speed(p, gpio, speed),
            Self::PD6(p) => PinSpeed::set_speed(p, gpio, speed),
            Self::PC9(p) => PinSpeed::set_speed(p, gpio, speed),
            Self::PB5(p) => PinSpeed::set_speed(p, gpio, speed),
            Self::Unconnected(_) => {},
        }
    }
}

impl<Otype> Rx<Otype> {
    /// The signal without a pin.
    pub fn from_no_pin<T>(_no: NoPin<T>) -> (signal: Self)
        ensures
            signal is Unconnected,
    {
        Self::Unconnected(NoPin::new())
    }

    /// Puts `PA3` into alternate mode and takes it for the signal.
    pub fn from_pa3<MODE>(p: PA3<MODE>, gpio: &mut Gpio) -> (signal: Self) where
        MODE: NotAlt + PinMode,
        Alternate<Otype>: PinMode,

        ensures
            signal is PA3,
            *final(gpio) == after::<Alternate<Otype>>(*old(gpio), PORT_A, 3),
    {
        Self::PA3(p.into_mode(gpio))
    }

    /// Gives `PA3` back in mode `MODE`, if it carries the signal.
    pub fn try_into_pa3<MODE>(self, gpio: &mut Gpio) -> (pin: Result<PA3<MODE>, ()>) where
        MODE: PinMode,
        Alternate<Otype>: PinMode,

        ensures
            pin is Ok <==> self is PA3,
            pin is Ok ==> *final(gpio) == after::<MODE>(*old(gpio), PORT_A, 3),
            pin is Err ==> *final(gpio) == *old(gpio),
    {
        match self {
            Self::PA3(p) => Ok(p.into_mode(gpio)),
            _ => Err(()),
        }
    }

    /// Puts `PD6` into alternate mode and takes it for the signal.
    pub fn from_pd6<MODE>(p: PD6<MODE>, gpio: &mut Gpio) -> (signal: Self) where
        MODE: NotAlt + PinMode,
        Alternate<Otype>: PinMode,

        ensures
            signal is PD6,
            *final(gpio) == after::<Alternate<Otype>>(*old(gpio), PORT_D, 6),
    {
        Self::PD6(p.into_mode(gpio))
    }

    /// Gives `PD6` back in mode `MODE`, if it carries the signal.
    pub fn try_into_pd6<MODE>(self, gpio: &mut Gpio) -> (pin: Result<PD6<MODE>, ()>) where
        MODE: PinMode,
        Alternate<Otype>: PinMode,

        ensures
            pin is Ok <==> self is PD6,
            pin is Ok ==> *final(gpio) == after::<MODE>(*old(gpio), PORT_D, 6),
            pin is Err ==> *final(gpio) == *old(gpio),
    {
        match self {
            Self::PD6(p) => Ok(p.into_mode(gpio)),
            _ => Err(()),
        }
    }

    /// Puts `PC9` into alternate mode and takes it for the signal.
    pub fn from_pc9<MODE>(p: PC9<MODE>, gpio: &mut Gpio) -> (signal: Self) where
        MODE: NotAlt + PinMode,
        Alternate<Otype>: PinMode,

        ensures
            signal is PC9,
            *final(gpio) == after::<Alternate<Otype>>(*old(gpio), PORT_C, 9),
    {
        Self::PC9(p.into_mode(gpio))
    }

    /// Gives `PC9` back in mode `MODE`, if it carries the signal.
    pub fn try_into_pc9<MODE>(self, gpio: &mut Gpio) -> (pin: Result<PC9<MODE>, ()>) where
        MODE: PinMode,
        Alternate<Otype>: PinMode,

        ensures
            pin is Ok <==> self is PC9,
            pin is Ok ==> *final(gpio) == after::<MODE>(*old(gpio), PORT_C, 9),
            pin is Err ==> *final(gpio) == *old(gpio),
    {
        match self {
            Self::PC9(p) => Ok(p.into_mode(gpio)),
            _ => Err(()),
        }
    }

    /// Puts `PB5` into alternate mode and takes it for the signal.
    pub fn from_pb5<MODE>(p: PB5<MODE>, gpio: &mut Gpio) -> (signal: Self) where
        MODE: NotAlt + PinMode,
        Alternate<Otype>: PinMode,

        ensures
            signal is PB5,
            *final(gpio) == after::<Alternate<Otype>>(*old(gpio), PORT_B, 5),
    {
        Self::PB5(p.into_mode(gpio))
    }

    /// Gives `PB5` back in mode `MODE`, if it carries the signal.
    pub fn try_into_pb5<MODE>(self, gpio: &mut Gpio) -> (pin: Result<PB5<MODE>, ()>) where
        MODE: PinMode,
        Alternate<Otype>: PinMode,

        ensures
            pin is Ok <==> self is PB5,
            pin is Ok ==> *final(gpio) == after::<MODE>(*old(gpio), PORT_B, 5),
            pin is Err ==> *final(gpio) == *old(gpio),
    {
        match self {
            Self::PB5(p) => Ok(p.into_mode(gpio)),
            _ => Err(()),
        }
    }
}

impl<T, Otype> IntoSignal<Rx<Otype>> for NoPin<T> {
    open spec fn taken(gpio: Gpio) -> Gpio {
        gpio
    }

    fn into_signal(self, gpio: &mut Gpio) -> (signal: Rx<Otype>) {
        Rx::from_no_pin(self)
    }
}

impl<MODE, Otype> IntoSignal<Rx<Otype>> for PA3<MODE> where
    MODE: NotAlt + PinMode,
    Alternate<Otype>: PinMode,
 {
    open spec fn taken(gpio: Gpio) -> Gpio {
        after::<Alternate<Otype>>(gpio, PORT_A, 3)
    }

    fn into_signal(self, gpio: &mut Gpio) -> (signal: Rx<Otype>) {
        Rx::from_pa3(self, gpio)
    }
}

impl<Otype> IntoSignal<Rx<Otype>> for PA3<Alternate<Otype>> {
    open spec fn taken(gpio: Gpio) -> Gpio {
        gpio
    }

    fn into_signal(self, gpio: &mut Gpio) -> (signal: Rx<Otype>) {
        Rx::PA3(self)
    }
}

impl<MODE, Otype> IntoSignal<Rx<Otype>> for PD6<MODE> where
    MODE: NotAlt + PinMode,
    Alternate<Otype>: PinMode,
 {
    open spec fn taken(gpio: Gpio) -> Gpio {
        after::<Alternate<Otype>>(gpio, PORT_D, 6)
    }

    fn into_signal(self, gpio: &mut Gpio) -> (signal: Rx<Otype>) {
        Rx::from_pd6(self, gpio)
    }
}

impl<Otype> IntoSignal<Rx<Otype>> for PD6<Alternate<Otype>> {
    open spec fn taken(gpio: Gpio) -> Gpio {
        gpio
    }

    fn into_signal(self, gpio: &mut Gpio) -> (signal: Rx<Otype>) {
        Rx::PD6(self)
    }
}

impl<MODE, Otype> IntoSignal<Rx<Otype>> for PC9<MODE> where
    MODE: NotAlt + PinMode,
    Alternate<Otype>: PinMode,
 {
    open spec fn taken(gpio: Gpio) -> Gpio {
        after::<Alternate<Otype>>(gpio, PORT_C, 9)
    }

    fn into_signal(self, gpio: &mut Gpio) -> (signal: Rx<Otype>) {
        Rx::from_pc9(self, gpio)
    }
}

impl<Otype> IntoSignal<Rx<Otype>> for PC9<Alternate<Otype>> {
    open spec fn taken(gpio: Gpio) -> Gpio {
        gpio
    }

    fn into_signal(self, gpio: &mut Gpio) -> (signal: Rx<Otype>) {
        Rx::PC9(self)
    }
}

impl<MODE, Otype> IntoSignal<Rx<Otype>> for PB5<MODE> where
    MODE: NotAlt + PinMode,
    Alternate<Otype>: PinMode,
 {
    open spec fn taken(gpio: Gpio) -> Gpio {
        after::<Alternate<Otype>>(gpio, PORT_B, 5)
    }

    fn into_signal(self, gpio: &mut Gpio) -> (signal: Rx<Otype>) {
        Rx::from_pb5(self, gpio)
    }
}

impl<Otype> IntoSignal<Rx<Otype>> for PB5<Alternate<Otype>> {
    open spec fn taken(gpio: Gpio) -> Gpio {
        gpio
    }

    fn into_signal(self, gpio: &mut Gpio) -> (signal: Rx<Otype>) {
        Rx::PB5(self)
    }
}

/// Transmit of Usart2: one of the pins that can carry it, in alternate mode
pub enum Tx<Otype = PushPull> {
    Unconnected(NoPin<Otype>),
    PA2(PA2<Alternate<Otype>>),
    PD5(PD5<Alternate<Otype>>),
    PC8(PC8<Alternate<Otype>>),
    PB4(PB4<Alternate<Otype>>),
}

impl<Otype> Sealed for Tx<Otype> {

}

impl<Otype> ReadPin for Tx<Otype> {
    open spec fn spec_is_low(&self, gpio: Gpio) -> bool {
        match self {
            Self::PA2(p) => p.spec_is_low(gpio),
            Self::PD5(p) => p.spec_is_low(gpio),
            Self::PC8(p) => p.spec_is_low(gpio),
            Self::PB4(p) => p.spec_is_low(gpio),
            Self::Unconnected(_) => false,
        }
    }

    fn is_low(&self, gpio: &Gpio) -> (low: bool) {
        match self {
            Self::PA2(p) => p.is_low(gpio),
            Self::PD5(p) => p.is_low(gpio),
            Self::PC8(p) => p.is_low(gpio),
            Self::PB4(p) => p.is_low(gpio),
            Self::Unconnected(_) => false,
        }
    }
}

impl<Otype> PinSpeed for Tx<Otype> {
    open spec fn with_speed(&self, gpio: Gpio, speed: Speed) -> Gpio {
        match self {
            Self::PA2(p) => p.with_speed(gpio, speed),
            Self::PD5(p) => p.with_speed(gpio, speed),
            Self::PC8(p) => p.with_speed(gpio, speed),
            Self::PB4(p) => p.with_speed(gpio, speed),
            Self::Unconnected(_) => gpio,
        }
    }

    fn set_speed(&mut self, gpio: &mut Gpio, speed: Speed) {
        match self {
            Self::PA2(p) => PinSpeed::set_speed(p, gpio, speed),
            Self::PD5(p) => PinSpeed::set_speed(p, gpio, speed),
            Self::PC8(p) => PinSpeed::set_speed(p, gpio, speed),
            Self::PB4(p) => PinSpeed::set_speed(p, gpio, speed),
            Self::Unconnected(_) => {},
        }
    }
}

impl<Otype> Tx<Otype> {
    /// The signal without a pin.
    pub fn from_no_pin<T>(_no: NoPin<T>) -> (signal: Self)
        ensures
            signal is Unconnected,
    {
        Self::Unconnected(NoPin::new())
    }

    /// Puts `PA2` into alternate mode and takes it for the signal.
    pub fn from_pa2<MODE>(p: PA2<MODE>, gpio: &mut Gpio) -> (signal: Self) where
        MODE: NotAlt + PinMode,
        Alternate<Otype>: PinMode,

        ensures
            signal is PA2,
            *final(gpio) == after::<Alternate<Otype>>(*old(gpio), PORT_A, 2),
    {
        Self::PA2(p.into_mode(gpio))
    }

    /// Gives `PA2` back in mode `MODE`, if it carries the signal.
    pub fn try_into_pa2<MODE>(self, gpio: &mut Gpio) -> (pin: Result<PA2<MODE>, ()>) where
        MODE: PinMode,
        Alternate<Otype>: PinMode,

        ensures
            pin is Ok <==> self is PA2,
            pin is Ok ==> *final(gpio) == after::<MODE>(*old(gpio), PORT_A, 2),
            pin is Err ==> *final(gpio) == *old(gpio),
    {
        match self {
            Self::PA2(p) => Ok(p.into_mode(gpio)),
            _ => Err(()),
        }
    }

    /// Puts `PD5` into alternate mode and takes it for the signal.
    pub fn from_pd5<MODE>(p: PD5<MODE>, gpio: &mut Gpio) -> (signal: Self) where
        MODE: NotAlt + PinMode,
        Alternate<Otype>: PinMode,

        ensures
            signal is PD5,
            *final(gpio) == after::<Alternate<Otype>>(*old(gpio), PORT_D, 5),
    {
        Self::PD5(p.into_mode(gpio))
    }

    /// Gives `PD5` back in mode `MODE`, if it carries the signal.
    pub fn try_into_pd5<MODE>(self, gpio: &mut Gpio) -> (pin: Result<PD5<MODE>, ()>) where
        MODE: PinMode,
        Alternate<Otype>: PinMode,

        ensures
            pin is Ok <==> self is PD5,
            pin is Ok ==> *final(gpio) == after::<MODE>(*old(gpio), PORT_D, 5),
            pin is Err ==> *final(gpio) == *old(gpio),
    {
        match self {
            Self::PD5(p) => Ok(p.into_mode(gpio)),
            _ => Err(()),
        }
    }

    /// Puts `PC8` into alternate mode and takes it for the signal.
    pub fn from_pc8<MODE>(p: PC8<MODE>, gpio: &mut Gpio) -> (signal: Self) where
        MODE: NotAlt + PinMode,
        Alternate<Otype>: PinMode,

        ensures
            signal is PC8,
            *final(gpio) == after::<Alternate<Otype>>(*old(gpio), PORT_C, 8),
    {
        Self::PC8(p.into_mode(gpio))
    }

    /// Gives `PC8` back in mode `MODE`, if it carries the signal.
    pub fn try_into_pc8<MODE>(self, gpio: &mut Gpio) -> (pin: Result<PC8<MODE>, ()>) where
        MODE: PinMode,
        Alternate<Otype>: PinMode,

        ensures
            pin is Ok <==> self is PC8,
            pin is Ok ==> *final(gpio) == after::<MODE>(*old(gpio), PORT_C, 8),
            pin is Err ==> *final(gpio) == *old(gpio),
    {
        match self {
            Self::PC8(p) => Ok(p.into_mode(gpio)),
            _ => Err(()),
        }
    }

    /// Puts `PB4` into alternate mode and takes it for the signal.
    pub fn from_pb4<MODE>(p: PB4<MODE>, gpio: &mut Gpio) -> (signal: Self) where
        MODE: NotAlt + PinMode,
        Alternate<Otype>: PinMode,

        ensures
            signal is PB4,
            *final(gpio) == after::<Alternate<Otype>>(*old(gpio), PORT_B, 4),
    {
        Self::PB4(p.into_mode(gpio))
    }

    /// Gives `PB4` back in mode `MODE`, if it carries the signal.
    pub fn try_into_pb4<MODE>(self, gpio: &mut Gpio) -> (pin: Result<PB4<MODE>, ()>) where
        MODE: PinMode,
        Alternate<Otype>: PinMode,

        ensures
            pin is Ok <==> self is PB4,
            pin is Ok ==> *final(gpio) == after::<MODE>(*old(gpio), PORT_B, 4),
            pin is Err ==> *final(gpio) == *old(gpio),
    {
        match self {
            Self::PB4(p) => Ok(p.into_mode(gpio)),
            _ => Err(()),
        }
    }
}

impl<T, Otype> IntoSignal<Tx<Otype>> for NoPin<T> {
    open spec fn taken(gpio: Gpio) -> Gpio {
        gpio
    }

    fn into_signal(self, gpio: &mut Gpio) -> (signal: Tx<Otype>) {
        Tx::from_no_pin(self)
    }
}

impl<MODE, Otype> IntoSignal<Tx<Otype>> for PA2<MODE> where
    MODE: NotAlt + PinMode,
    Alternate<Otype>: PinMode,
 {
    open spec fn taken(gpio: Gpio) -> Gpio {
        after::<Alternate<Otype>>(gpio, PORT_A, 2)
    }

    fn into_signal(self, gpio: &mut Gpio) -> (signal: Tx<Otype>) {
        Tx::from_pa2(self, gpio)
    }
}

impl<Otype> IntoSignal<Tx<Otype>> for PA2<Alternate<Otype>> {
    open spec fn taken(gpio: Gpio) -> Gpio {
        gpio
    }

    fn into_signal(self, gpio: &mut Gpio) -> (signal: Tx<Otype>) {
        Tx::PA2(self)
    }
}

impl<MODE, Otype> IntoSignal<Tx<Otype>> for PD5<MODE> where
    MODE: NotAlt + PinMode,
    Alternate<Otype>: PinMode,
 {
    open spec fn taken(gpio: Gpio) -> Gpio {
        after::<Alternate<Otype>>(gpio, PORT_D, 5)
    }

    fn into_signal(self, gpio: &mut Gpio) -> (signal: Tx<Otype>) {
        Tx::from_pd5(self, gpio)
    }
}

impl<Otype> IntoSignal<Tx<Otype>> for PD5<Alternate<Otype>> {
    open spec fn taken(gpio: Gpio) -> Gpio {
        gpio
    }

    fn into_signal(self, gpio: &mut Gpio) -> (signal: Tx<Otype>) {
        Tx::PD5(self)
    }
}

impl<MODE, Otype> IntoSignal<Tx<Otype>> for PC8<MODE> where
    MODE: NotAlt + PinMode,
    Alternate<Otype>: PinMode,
 {
    open spec fn taken(gpio: Gpio) -> Gpio {
        after::<Alternate<Otype>>(gpio, PORT_C, 8)
    }

    fn into_signal(self, gpio: &mut Gpio) -> (signal: Tx<Otype>) {
        Tx::from_pc8(self, gpio)
    }
}

impl<Otype> IntoSignal<Tx<Otype>> for PC8<Alternate<Otype>> {
    open spec fn taken(gpio: Gpio) -> Gpio {
        gpio
    }

    fn into_signal(self, gpio: &mut Gpio) -> (signal: Tx<Otype>) {
        Tx::PC8(self)
    }
}

impl<MODE, Otype> IntoSignal<Tx<Otype>> for PB4<MODE> where
    MODE: NotAlt + PinMode,
    Alternate<Otype>: PinMode,
 {
    open spec fn taken(gpio: Gpio) -> Gpio {
        after::<Alternate<Otype>>(gpio, PORT_B, 4)
    }

    fn into_signal(self, gpio: &mut Gpio) -> (signal: Tx<Otype>) {
        Tx::from_pb4(self, gpio)
    }
}

impl<Otype> IntoSignal<Tx<Otype>> for PB4<Alternate<Otype>> {
    open spec fn taken(gpio: Gpio) -> Gpio {
        gpio
    }

    fn into_signal(self, gpio: &mut Gpio) -> (signal: Tx<Otype>) {
        Tx::PB4(self)
    }
}

impl<Itype, Otype> SerialAsync<Itype, Otype> for Usart2 {
    type Rx = Rx<Input<Itype>>;

    type Tx = Tx<Otype>;
}

impl<Itype, Otype> SerialSync<Itype, Otype> for Usart2 {
    type Rx = Rx<Input<Itype>>;

    type Tx = Tx<Otype>;

    type Ck = Ck;
}

impl<Itype, Otype> SerialRs232<Itype, Otype> for Usart2 {
    type Rx = Rx<Input<Itype>>;

    type Tx = Tx<Otype>;

    type Cts = Cts;

    type Rts = Rts;
}

} // verus!
