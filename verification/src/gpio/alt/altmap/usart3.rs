//! USART3: where its signals can be routed to, and how.

use vstd::prelude::*;
use crate::gpio::Alternate;
use crate::gpio::Floating;
use crate::gpio::Input;
use crate::gpio::NoPin;
use crate::gpio::PinMode;
use crate::gpio::PinSpeed;
use crate::gpio::PushPull;
use crate::gpio::ReadPin;
use crate::gpio::Speed;
use crate::gpio::alt::IntoSignal;
use crate::gpio::alt::SerialAsync;
use crate::gpio::alt::SerialRs232;
use crate::gpio::alt::SerialSync;
use crate::gpio::alt::altmap::Remap;
use crate::gpio::alt::altmap::RemapIO;
use crate::gpio::alt::altmap::lemma_wired_pin;
use crate::gpio::convert::after;
use crate::gpio::marker::NotAlt;
use crate::gpio::port::PORT_B;
use crate::gpio::port::PORT_C;
use crate::gpio::port::PORT_D;
use crate::pac::Afio;
use crate::pac::Gpio;
use crate::pac::Usart3;
use crate::sealed::Sealed;
use crate::gpio::PB10;
use crate::gpio::PB11;
use crate::gpio::PB12;
use crate::gpio::PB13;
use crate::gpio::PB14;
use crate::gpio::PC10;
use crate::gpio::PC11;
use crate::gpio::PC12;
use crate::gpio::PD8;
use crate::gpio::PD9;
use crate::gpio::PD10;
use crate::gpio::PD11;
use crate::gpio::PD12;

verus! {

/// USART3 without remapping
pub struct USART3NoRemapRemapper();

/// USART3 with the partial remapping
pub struct USART3PartialRemapRemapper();

/// USART3 with the full remapping
pub struct USART3FullRemapRemapper();

impl Remap for USART3NoRemapRemapper {
    open spec fn remapped(afio: Afio) -> Afio {
        Afio {
            rmp_cfg: crate::pac::RmpCfg { usart3_rmp: 0, ..afio.rmp_cfg },
            ..afio
        }
    }

    open spec fn wired(port: u8, pin: u8) -> bool {
        port == PORT_B && (pin == 10 || pin == 11 || pin == 12 || pin == 13 || pin == 14)
    }

    fn remap(afio: &mut Afio) {
        afio.rmp_cfg.usart3_rmp = 0;
    }
}

impl Remap for USART3PartialRemapRemapper {
    open spec fn remapped(afio: Afio) -> Afio {
        Afio {
            rmp_cfg: crate::pac::RmpCfg { usart3_rmp: 1, ..afio.rmp_cfg },
            ..afio
        }
    }

    open spec fn wired(port: u8, pin: u8) -> bool {
        ||| port == PORT_C && (pin == 10 || pin == 11 || pin == 12)
        ||| port == PORT_B && (pin == 13 || pin == 14)
        ||| port == PORT_D && (pin == 8 || pin == 9 || pin == 10 || pin == 11 || pin == 12)
    }

    fn remap(afio: &mut Afio) {
        afio.rmp_cfg.usart3_rmp = 1;
    }
}

impl Remap for USART3FullRemapRemapper {
    open spec fn remapped(afio: Afio) -> Afio {
        Afio {
            rmp_cfg: crate::pac::RmpCfg { usart3_rmp: 3, ..afio.rmp_cfg },
            ..afio
        }
    }

    open spec fn wired(port: u8, pin: u8) -> bool {
        false
    }

    fn remap(afio: &mut Afio) {
        afio.rmp_cfg.usart3_rmp = 3;
    }
}

impl<T> RemapIO<Usart3, USART3NoRemapRemapper> for PB10<T> {
    proof fn lemma_wired() {
    }
}

impl<T> RemapIO<Usart3, USART3NoRemapRemapper> for PB11<T> {
    proof fn lemma_wired() {
    }
}

impl<T> RemapIO<Usart3, USART3NoRemapRemapper> for PB12<T> {
    proof fn lemma_wired() {
    }
}

impl<T> RemapIO<Usart3, USART3NoRemapRemapper> for PB13<T> {
    proof fn lemma_wired() {
    }
}

impl<T> RemapIO<Usart3, USART3NoRemapRemapper> for PB14<T> {
    proof fn lemma_wired() {
    }
}

impl<T> RemapIO<Usart3, USART3PartialRemapRemapper> for PC10<T> {
    proof fn lemma_wired() {
    }
}

impl<T> RemapIO<Usart3, USART3PartialRemapRemapper> for PC11<T> {
    proof fn lemma_wired() {
    }
}

impl<T> RemapIO<Usart3, USART3PartialRemapRemapper> for PC12<T> {
    proof fn lemma_wired() {
    }
}

impl<T> RemapIO<Usart3, USART3PartialRemapRemapper> for PB13<T> {
    proof fn lemma_wired() {
    }
}

impl<T> RemapIO<Usart3, USART3PartialRemapRemapper> for PB14<T> {
    proof fn lemma_wired() {
    }
}

impl<T> RemapIO<Usart3, USART3PartialRemapRemapper> for PD8<T> {
    proof fn lemma_wired() {
    }
}

impl<T> RemapIO<Usart3, USART3PartialRemapRemapper> for PD9<T> {
    proof fn lemma_wired() {
    }
}

impl<T> RemapIO<Usart3, USART3PartialRemapRemapper> for PD10<T> {
    proof fn lemma_wired() {
    }
}

impl<T> RemapIO<Usart3, USART3PartialRemapRemapper> for PD11<T> {
    proof fn lemma_wired() {
    }
}

impl<T> RemapIO<Usart3, USART3PartialRemapRemapper> for PD12<T> {
    proof fn lemma_wired() {
    }
}

/// Each pin that USART3 can use without remapping has its `RemapIO`.
pub proof fn lemma_usart3_no_remap_pins()
    ensures
        USART3NoRemapRemapper::wired(PORT_B, 10),
        USART3NoRemapRemapper::wired(PORT_B, 11),
        USART3NoRemapRemapper::wired(PORT_B, 12),
        USART3NoRemapRemapper::wired(PORT_B, 13),
        USART3NoRemapRemapper::wired(PORT_B, 14),
{
    lemma_wired_pin::<PB10, Usart3, USART3NoRemapRemapper>();
    lemma_wired_pin::<PB11, Usart3, USART3NoRemapRemapper>();
    lemma_wired_pin::<PB12, Usart3, USART3NoRemapRemapper>();
    lemma_wired_pin::<PB13, Usart3, USART3NoRemapRemapper>();
    lemma_wired_pin::<PB14, Usart3, USART3NoRemapRemapper>();
}

/// Each pin that USART3 can use with the partial remapping has its `RemapIO`.
pub proof fn lemma_usart3_partial_remap_pins()
    ensures
        USART3PartialRemapRemapper::wired(PORT_C, 10),
        USART3PartialRemapRemapper::wired(PORT_C, 11),
        USART3PartialRemapRemapper::wired(PORT_C, 12),
        USART3PartialRemapRemapper::wired(PORT_B, 13),
        USART3PartialRemapRemapper::wired(PORT_B, 14),
        USART3PartialRemapRemapper::wired(PORT_D, 8),
        USART3PartialRemapRemapper::wired(PORT_D, 9),
        USART3PartialRemapRemapper::wired(PORT_D, 10),
        USART3PartialRemapRemapper::wired(PORT_D, 11),
        USART3PartialRemapRemapper::wired(PORT_D, 12),
{
    lemma_wired_pin::<PC10, Usart3, USART3PartialRemapRemapper>();
    lemma_wired_pin::<PC11, Usart3, USART3PartialRemapRemapper>();
    lemma_wired_pin::<PC12, Usart3, USART3PartialRemapRemapper>();
    lemma_wired_pin::<PB13, Usart3, USART3PartialRemapRemapper>();
    lemma_wired_pin::<PB14, Usart3, USART3PartialRemapRemapper>();
    lemma_wired_pin::<PD8, Usart3, USART3PartialRemapRemapper>();
    lemma_wired_pin::<PD9, Usart3, USART3PartialRemapRemapper>();
    lemma_wired_pin::<PD10, Usart3, USART3PartialRemapRemapper>();
    lemma_wired_pin::<PD11, Usart3, USART3PartialRemapRemapper>();
    lemma_wired_pin::<PD12, Usart3, USART3PartialRemapRemapper>();
}

/// Clock of Usart3: one of the pins that can carry it, in alternate mode
pub enum Ck {
    PB12(PB12<Alternate<PushPull>>),
    PC12(PC12<Alternate<PushPull>>),
    PD10(PD10<Alternate<PushPull>>),
}

impl Sealed for Ck {

}

impl ReadPin for Ck {
    open spec fn spec_is_low(&self, gpio: Gpio) -> bool {
        match self {
            Self::PB12(p) => p.spec_is_low(gpio),
            Self::PC12(p) => p.spec_is_low(gpio),
            Self::PD10(p) => p.spec_is_low(gpio),
        }
    }

    fn is_low(&self, gpio: &Gpio) -> (low: bool) {
        match self {
            Self::PB12(p) => p.is_low(gpio),
            Self::PC12(p) => p.is_low(gpio),
            Self::PD10(p) => p.is_low(gpio),
        }
    }
}

impl PinSpeed for Ck {
    open spec fn with_speed(&self, gpio: Gpio, speed: Speed) -> Gpio {
        match self {
            Self::PB12(p) => p.with_speed(gpio, speed),
            Self::PC12(p) => p.with_speed(gpio, speed),
            Self::PD10(p) => p.with_speed(gpio, speed),
        }
    }

    fn set_speed(&mut self, gpio: &mut Gpio, speed: Speed) {
        match self {
            Self::PB12(p) => PinSpeed::set_speed(p, gpio, speed),
            Self::PC12(p) => PinSpeed::set_speed(p, gpio, speed),
            Self::PD10(p) => PinSpeed::set_speed(p, gpio, speed),
        }
    }
}

impl Ck {
    /// Puts `PB12` into alternate mode and takes it for the signal.
    pub fn from_pb12<MODE>(p: PB12<MODE>, gpio: &mut Gpio) -> (signal: Self) where
        MODE: NotAlt + PinMode,

        ensures
            signal is PB12,
            *final(gpio) == after::<Alternate<PushPull>>(*old(gpio), PORT_B, 12),
    {
        Self::PB12(p.into_mode(gpio))
    }

    /// Gives `PB12` back in mode `MODE`, if it carries the signal.
    pub fn try_into_pb12<MODE>(self, gpio: &mut Gpio) -> (pin: Result<PB12<MODE>, ()>) where
        MODE: PinMode,

        ensures
            pin is Ok <==> self is PB12,
            pin is Ok ==> *final(gpio) == after::<MODE>(*old(gpio), PORT_B, 12),
            pin is Err ==> *final(gpio) == *old(gpio),
    {
        match self {
            Self::PB12(p) => Ok(p.into_mode(gpio)),
            _ => Err(()),
        }
    }

    /// Puts `PC12` into alternate mode and takes it for the signal.
    pub fn from_pc12<MODE>(p: PC12<MODE>, gpio: &mut Gpio) -> (signal: Self) where
        MODE: NotAlt + PinMode,

        ensures
            signal is PC12,
            *final(gpio) == after::<Alternate<PushPull>>(*old(gpio), PORT_C, 12),
    {
        Self::PC12(p.into_mode(gpio))
    }

    /// Gives `PC12` back in mode `MODE`, if it carries the signal.
    pub fn try_into_pc12<MODE>(self, gpio: &mut Gpio) -> (pin: Result<PC12<MODE>, ()>) where
        MODE: PinMode,

        ensures
            pin is Ok <==> self is PC12,
            pin is Ok ==> *final(gpio) == after::<MODE>(*old(gpio), PORT_C, 12),
            pin is Err ==> *final(gpio) == *old(gpio),
    {
        match self {
            Self::PC12(p) => Ok(p.into_mode(gpio)),
            _ => Err(()),
        }
    }

    /// Puts `PD10` into alternate mode and takes it for the signal.
    pub fn from_pd10<MODE>(p: PD10<MODE>, gpio: &mut Gpio) -> (signal: Self) where
        MODE: NotAlt + PinMode,

        ensures
            signal is PD10,
            *final(gpio) == after::<Alternate<PushPull>>(*old(gpio), PORT_D, 10),
    {
        Self::PD10(p.into_mode(gpio))
    }

    /// Gives `PD10` back in mode `MODE`, if it carries the signal.
    pub fn try_into_pd10<MODE>(self, gpio: &mut Gpio) -> (pin: Result<PD10<MODE>, ()>) where
        MODE: PinMode,

        ensures
            pin is Ok <==> self is PD10,
            pin is Ok ==> *final(gpio) == after::<MODE>(*old(gpio), PORT_D, 10),
            pin is Err ==> *final(gpio) == *old(gpio),
    {
        match self {
            Self::PD10(p) => Ok(p.into_mode(gpio)),
            _ => Err(()),
        }
    }
}

impl<MODE> IntoSignal<Ck> for PB12<MODE> where
    MODE: NotAlt + PinMode,
 {
    open spec fn taken(gpio: Gpio) -> Gpio {
        after::<Alternate<PushPull>>(gpio, PORT_B, 12)
    }

    fn into_signal(self, gpio: &mut Gpio) -> (signal: Ck) {
        Ck::from_pb12(self, gpio)
    }
}

impl IntoSignal<Ck> for PB12<Alternate<PushPull>> {
    open spec fn taken(gpio: Gpio) -> Gpio {
        gpio
    }

    fn into_signal(self, gpio: &mut Gpio) -> (signal: Ck) {
        Ck::PB12(self)
    }
}

impl<MODE> IntoSignal<Ck> for PC12<MODE> where
    MODE: NotAlt + PinMode,
 {
    open spec fn taken(gpio: Gpio) -> Gpio {
        after::<Alternate<PushPull>>(gpio, PORT_C, 12)
    }

    fn into_signal(self, gpio: &mut Gpio) -> (signal: Ck) {
        Ck::from_pc12(self, gpio)
    }
}

impl IntoSignal<Ck> for PC12<Alternate<PushPull>> {
    open spec fn taken(gpio: Gpio) -> Gpio {
        gpio
    }

    fn into_signal(self, gpio: &mut Gpio) -> (signal: Ck) {
        Ck::PC12(self)
    }
}

impl<MODE> IntoSignal<Ck> for PD10<MODE> where
    MODE: NotAlt + PinMode,
 {
    open spec fn taken(gpio: Gpio) -> Gpio {
        after::<Alternate<PushPull>>(gpio, PORT_D, 10)
    }

    fn into_signal(self, gpio: &mut Gpio) -> (signal: Ck) {
        Ck::from_pd10(self, gpio)
    }
}

impl IntoSignal<Ck> for PD10<Alternate<PushPull>> {
    open spec fn taken(gpio: Gpio) -> Gpio {
        gpio
    }

    fn into_signal(self, gpio: &mut Gpio) -> (signal: Ck) {
        Ck::PD10(self)
    }
}

/// Clear to send of Usart3: one of the pins that can carry it, in alternate mode
pub enum Cts {
    PB13(PB13<Alternate<PushPull>>),
    PD11(PD11<Alternate<PushPull>>),
}

impl Sealed for Cts {

}

impl ReadPin for Cts {
    open spec fn spec_is_low(&self, gpio: Gpio) -> bool {
        match self {
            Self::PB13(p) => p.spec_is_low(gpio),
            Self::PD11(p) => p.spec_is_low(gpio),
        }
    }

    fn is_low(&self, gpio: &Gpio) -> (low: bool) {
        match self {
            Self::PB13(p) => p.is_low(gpio),
            Self::PD11(p) => p.is_low(gpio),
        }
    }
}

impl PinSpeed for Cts {
    open spec fn with_speed(&self, gpio: Gpio, speed: Speed) -> Gpio {
        match self {
            Self::PB13(p) => p.with_speed(gpio, speed),
            Self::PD11(p) => p.with_speed(gpio, speed),
        }
    }

    fn set_speed(&mut self, gpio: &mut Gpio, speed: Speed) {
        match self {
            Self::PB13(p) => PinSpeed::set_speed(p, gpio, speed),
            Self::PD11(p) => PinSpeed::set_speed(p, gpio, speed),
        }
    }
}

impl Cts {
    /// Puts `PB13` into alternate mode and takes it for the signal.
    pub fn from_pb13<MODE>(p: PB13<MODE>, gpio: &mut Gpio) -> (signal: Self) where
        MODE: NotAlt + PinMode,

        ensures
            signal is PB13,
            *final(gpio) == after::<Alternate<PushPull>>(*old(gpio), PORT_B, 13),
    {
        Self::PB13(p.into_mode(gpio))
    }

    /// Gives `PB13` back in mode `MODE`, if it carries the signal.
    pub fn try_into_pb13<MODE>(self, gpio: &mut Gpio) -> (pin: Result<PB13<MODE>, ()>) where
        MODE: PinMode,

        ensures
            pin is Ok <==> self is PB13,
            pin is Ok ==> *final(gpio) == after::<MODE>(*old(gpio), PORT_B, 13),
            pin is Err ==> *final(gpio) == *old(gpio),
    {
        match self {
            Self::PB13(p) => Ok(p.into_mode(gpio)),
            _ => Err(()),
        }
    }

    /// Puts `PD11` into alternate mode and takes it for the signal.
    pub fn from_pd11<MODE>(p: PD11<MODE>, gpio: &mut Gpio) -> (signal: Self) where
        MODE: NotAlt + PinMode,

        ensures
            signal is PD11,
            *final(gpio) == after::<Alternate<PushPull>>(*old(gpio), PORT_D, 11),
    {
        Self::PD11(p.into_mode(gpio))
    }

    /// Gives `PD11` back in mode `MODE`, if it carries the signal.
    pub fn try_into_pd11<MODE>(self, gpio: &mut Gpio) -> (pin: Result<PD11<MODE>, ()>) where
        MODE: PinMode,

        ensures
            pin is Ok <==> self is PD11,
            pin is Ok ==> *final(gpio) == after::<MODE>(*old(gpio), PORT_D, 11),
            pin is Err ==> *final(gpio) == *old(gpio),
    {
        match self {
            Self::PD11(p) => Ok(p.into_mode(gpio)),
            _ => Err(()),
        }
    }
}

impl<MODE> IntoSignal<Cts> for PB13<MODE> where
    MODE: NotAlt + PinMode,
 {
    open spec fn taken(gpio: Gpio) -> Gpio {
        after::<Alternate<PushPull>>(gpio, PORT_B, 13)
    }

    fn into_signal(self, gpio: &mut Gpio) -> (signal: Cts) {
        Cts::from_pb13(self, gpio)
    }
}

impl IntoSignal<Cts> for PB13<Alternate<PushPull>> {
    open spec fn taken(gpio: Gpio) -> Gpio {
        gpio
    }

    fn into_signal(self, gpio: &mut Gpio) -> (signal: Cts) {
        Cts::PB13(self)
    }
}

impl<MODE> IntoSignal<Cts> for PD11<MODE> where
    MODE: NotAlt + PinMode,
 {
    open spec fn taken(gpio: Gpio) -> Gpio {
        after::<Alternate<PushPull>>(gpio, PORT_D, 11)
    }

    fn into_signal(self, gpio: &mut Gpio) -> (signal: Cts) {
        Cts::from_pd11(self, gpio)
    }
}

impl IntoSignal<Cts> for PD11<Alternate<PushPull>> {
    open spec fn taken(gpio: Gpio) -> Gpio {
        gpio
    }

    fn into_signal(self, gpio: &mut Gpio) -> (signal: Cts) {
        Cts::PD11(self)
    }
}

/// Request to send of Usart3: one of the pins that can carry it, in alternate mode
pub enum Rts {
    PB14(PB14<Alternate<PushPull>>),
    PD12(PD12<Alternate<PushPull>>),
}

impl Sealed for Rts {

}

impl ReadPin for Rts {
    open spec fn spec_is_low(&self, gpio: Gpio) -> bool {
        match self {
            Self::PB14(p) => p.spec_is_low(gpio),
            Self::PD12(p) => p.spec_is_low(gpio),
        }
    }

    fn is_low(&self, gpio: &Gpio) -> (low: bool) {
        match self {
            Self::PB14(p) => p.is_low(gpio),
            Self::PD12(p) => p.is_low(gpio),
        }
    }
}

impl PinSpeed for Rts {
    open spec fn with_speed(&self, gpio: Gpio, speed: Speed) -> Gpio {
        match self {
            Self::PB14(p) => p.with_speed(gpio, speed),
            Self::PD12(p) => p.with_speed(gpio, speed),
        }
    }

    fn set_speed(&mut self, gpio: &mut Gpio, speed: Speed) {
        match self {
            Self::PB14(p) => PinSpeed::set_speed(p, gpio, speed),
            Self::PD12(p) => PinSpeed::set_speed(p, gpio, speed),
        }
    }
}

impl Rts {
    /// Puts `PB14` into alternate mode and takes it for the signal.
    pub fn from_pb14<MODE>(p: PB14<MODE>, gpio: &mut Gpio) -> (signal: Self) where
        MODE: NotAlt + PinMode,

        ensures
            signal is PB14,
            *final(gpio) == after::<Alternate<PushPull>>(*old(gpio), PORT_B, 14),
    {
        Self::PB14(p.into_mode(gpio))
    }

    /// Gives `PB14` back in mode `MODE`, if it carries the signal.
    pub fn try_into_pb14<MODE>(self, gpio: &mut Gpio) -> (pin: Result<PB14<MODE>, ()>) where
        MODE: PinMode,

        ensures
            pin is Ok <==> self is PB14,
            pin is Ok ==> *final(gpio) == after::<MODE>(*old(gpio), PORT_B, 14),
            pin is Err ==> *final(gpio) == *old(gpio),
    {
        match self {
            Self::PB14(p) => Ok(p.into_mode(gpio)),
            _ => Err(()),
        }
    }

    /// Puts `PD12` into alternate mode and takes it for the signal.
    pub fn from_pd12<MODE>(p: PD12<MODE>, gpio: &mut Gpio) -> (signal: Self) where
        MODE: NotAlt + PinMode,

        ensures
            signal is PD12,
            *final(gpio) == after::<Alternate<PushPull>>(*old(gpio), PORT_D, 12),
    {
        Self::PD12(p.into_mode(gpio))
    }

    /// Gives `PD12` back in mode `MODE`, if it carries the signal.
    pub fn try_into_pd12<MODE>(self, gpio: &mut Gpio) -> (pin: Result<PD12<MODE>, ()>) where
        MODE: PinMode,

        ensures
            pin is Ok <==> self is PD12,
            pin is Ok ==> *final(gpio) == after::<MODE>(*old(gpio), PORT_D, 12),
            pin is Err ==> *final(gpio) == *old(gpio),
    {
        match self {
            Self::PD12(p) => Ok(p.into_mode(gpio)),
            _ => Err(()),
        }
    }
}

impl<MODE> IntoSignal<Rts> for PB14<MODE> where
    MODE: NotAlt + PinMode,
 {
    open spec fn taken(gpio: Gpio) -> Gpio {
        after::<Alternate<PushPull>>(gpio, PORT_B, 14)
    }

    fn into_signal(self, gpio: &mut Gpio) -> (signal: Rts) {
        Rts::from_pb14(self, gpio)
    }
}

impl IntoSignal<Rts> for PB14<Alternate<PushPull>> {
    open spec fn taken(gpio: Gpio) -> Gpio {
        gpio
    }

    fn into_signal(self, gpio: &mut Gpio) -> (signal: Rts) {
        Rts::PB14(self)
    }
}

impl<MODE> IntoSignal<Rts> for PD12<MODE> where
    MODE: NotAlt + PinMode,
 {
    open spec fn taken(gpio: Gpio) -> Gpio {
        after::<Alternate<PushPull>>(gpio, PORT_D, 12)
    }

    fn into_signal(self, gpio: &mut Gpio) -> (signal: Rts) {
        Rts::from_pd12(self, gpio)
    }
}

impl IntoSignal<Rts> for PD12<Alternate<PushPull>> {
    open spec fn taken(gpio: Gpio) -> Gpio {
        gpio
    }

    fn into_signal(self, gpio: &mut Gpio) -> (signal: Rts) {
        Rts::PD12(self)
    }
}

/// Receive of Usart3: one of the pins that can carry it, in alternate mode
pub enum Rx<Otype = Floating> {
    Unconnected(NoPin<Otype>),
    PB10(PB10<Alternate<Otype>>),
    PC10(PC10<Alternate<Otype>>),
    PD8(PD8<Alternate<Otype>>),
}

impl<Otype> Sealed for Rx<Otype> {

}

impl<Otype> ReadPin for Rx<Otype> {
    open spec fn spec_is_low(&self, gpio: Gpio) -> bool {
        match self {
            Self::PB10(p) => p.spec_is_low(gpio),
            Self::PC10(p) => p.spec_is_low(gpio),
            Self::PD8(p) => p.spec_is_low(gpio),
            Self::Unconnected(_) => false,
        }
    }

    fn is_low(&self, gpio: &Gpio) -> (low: bool) {
        match self {
            Self::PB10(p) => p.is_low(gpio),
            Self::PC10(p) => p.is_low(gpio),
            Self::PD8(p) => p.is_low(gpio),
            Self::Unconnected(_) => false,
        }
    }
}

impl<Otype> PinSpeed for Rx<Otype> {
    open spec fn with_speed(&self, gpio: Gpio, speed: Speed) -> Gpio {
        match self {
            Self::PB10(p) => p.with_speed(gpio, speed),
            Self::PC10(p) => p.with_speed(gpio, speed),
            Self::PD8(p) => p.with_speed(gpio, speed),
            Self::Unconnected(_) => gpio,
        }
    }

    fn set_speed(&mut self, gpio: &mut Gpio, speed: Speed) {
        match self {
            Self::PB10(p) => PinSpeed::set_speed(p, gpio, speed),
            Self::PC10(p) => PinSpeed::set_speed(p, gpio, speed),
            Self::PD8(p) => PinSpeed::set_speed(p, gpio, speed),
            Self::Unconnected(_) => {},
        }
    }
}

impl<Otype> Rx<Otype> {
    /// The signal without a pin.
    pub fn from_no_pin<T>(_no: NoPin<T>) -> (signal: Self)
        ensures
            signal is Unconnected,
    {
        Self::Unconnected(NoPin::new())
    }

    /// Puts `PB10` into alternate mode and takes it for the signal.
    pub fn from_pb10<MODE>(p: PB10<MODE>, gpio: &mut Gpio) -> (signal: Self) where
        MODE: NotAlt + PinMode,
        Alternate<Otype>: PinMode,

        ensures
            signal is PB10,
            *final(gpio) == after::<Alternate<Otype>>(*old(gpio), PORT_B, 10),
    {
        Self::PB10(p.into_mode(gpio))
    }

    /// Gives `PB10` back in mode `MODE`, if it carries the signal.
    pub fn try_into_pb10<MODE>(self, gpio: &mut Gpio) -> (pin: Result<PB10<MODE>, ()>) where
        MODE: PinMode,
        Alternate<Otype>: PinMode,

        ensures
            pin is Ok <==> self is PB10,
            pin is Ok ==> *final(gpio) == after::<MODE>(*old(gpio), PORT_B, 10),
            pin is Err ==> *final(gpio) == *old(gpio),
    {
        match self {
            Self::PB10(p) => Ok(p.into_mode(gpio)),
            _ => Err(()),
        }
    }

    /// Puts `PC10` into alternate mode and takes it for the signal.
    pub fn from_pc10<MODE>(p: PC10<MODE>, gpio: &mut Gpio) -> (signal: Self) where
        MODE: NotAlt + PinMode,
        Alternate<Otype>: PinMode,

        ensures
            signal is PC10,
            *final(gpio) == after::<Alternate<Otype>>(*old(gpio), PORT_C, 10),
    {
        Self::PC10(p.into_mode(gpio))
    }

    /// Gives `PC10` back in mode `MODE`, if it carries the signal.
    pub fn try_into_pc10<MODE>(self, gpio: &mut Gpio) -> (pin: Result<PC10<MODE>, ()>) where
        MODE: PinMode,
        Alternate<Otype>: PinMode,

        ensures
            pin is Ok <==> self is PC10,
            pin is Ok ==> *final(gpio) == after::<MODE>(*old(gpio), PORT_C, 10),
            pin is Err ==> *final(gpio) == *old(gpio),
    {
        match self {
            Self::PC10(p) => Ok(p.into_mode(gpio)),
            _ => Err(()),
        }
    }

    /// Puts `PD8` into alternate mode and takes it for the signal.
    pub fn from_pd8<MODE>(p: PD8<MODE>, gpio: &mut Gpio) -> (signal: Self) where
        MODE: NotAlt + PinMode,
        Alternate<Otype>: PinMode,

        ensures
            signal is PD8,
            *final(gpio) == after::<Alternate<Otype>>(*old(gpio), PORT_D, 8),
    {
        Self::PD8(p.into_mode(gpio))
    }

    /// Gives `PD8` back in mode `MODE`, if it carries the signal.
    pub fn try_into_pd8<MODE>(self, gpio: &mut Gpio) -> (pin: Result<PD8<MODE>, ()>) where
        MODE: PinMode,
        Alternate<Otype>: PinMode,

        ensures
            pin is Ok <==> self is PD8,
            pin is Ok ==> *final(gpio) == after::<MODE>(*old(gpio), PORT_D, 8),
            pin is Err ==> *final(gpio) == *old(gpio),
    {
        match self {
            Self::PD8(p) => Ok(p.into_mode(gpio)),
            _ => Err(()),
        }
    }
}

impl<T, Otype> IntoSignal<Rx<Otype>> for NoPin<T> {
    open spec fn taken(gpio: Gpio) -> Gpio {
        gpio
    }

    fn into_signal(self, gpio: &mut Gpio) -> (signal: Rx<Otype>) {
        Rx::from_no_pin(self)
    }
}

impl<MODE, Otype> IntoSignal<Rx<Otype>> for PB10<MODE> where
    MODE: NotAlt + PinMode,
    Alternate<Otype>: PinMode,
 {
    open spec fn taken(gpio: Gpio) -> Gpio {
        after::<Alternate<Otype>>(gpio, PORT_B, 10)
    }

    fn into_signal(self, gpio: &mut Gpio) -> (signal: Rx<Otype>) {
        Rx::from_pb10(self, gpio)
    }
}

impl<Otype> IntoSignal<Rx<Otype>> for PB10<Alternate<Otype>> {
    open spec fn taken(gpio: Gpio) -> Gpio {
        gpio
    }

    fn into_signal(self, gpio: &mut Gpio) -> (signal: Rx<Otype>) {
        Rx::PB10(self)
    }
}

impl<MODE, Otype> IntoSignal<Rx<Otype>> for PC10<MODE> where
    MODE: NotAlt + PinMode,
    Alternate<Otype>: PinMode,
 {
    open spec fn taken(gpio: Gpio) -> Gpio {
        after::<Alternate<Otype>>(gpio, PORT_C, 10)
    }

    fn into_signal(self, gpio: &mut Gpio) -> (signal: Rx<Otype>) {
        Rx::from_pc10(self, gpio)
    }
}

impl<Otype> IntoSignal<Rx<Otype>> for PC10<Alternate<Otype>> {
    open spec fn taken(gpio: Gpio) -> Gpio {
        gpio
    }

    fn into_signal(self, gpio: &mut Gpio) -> (signal: Rx<Otype>) {
        Rx::PC10(self)
    }
}

impl<MODE, Otype> IntoSignal<Rx<Otype>> for PD8<MODE> where
    MODE: NotAlt + PinMode,
    Alternate<Otype>: PinMode,
 {
    open spec fn taken(gpio: Gpio) -> Gpio {
        after::<Alternate<Otype>>(gpio, PORT_D, 8)
    }

    fn into_signal(self, gpio: &mut Gpio) -> (signal: Rx<Otype>) {
        Rx::from_pd8(self, gpio)
    }
}

impl<Otype> IntoSignal<Rx<Otype>> for PD8<Alternate<Otype>> {
    open spec fn taken(gpio: Gpio) -> Gpio {
        gpio
    }

    fn into_signal(self, gpio: &mut Gpio) -> (signal: Rx<Otype>) {
        Rx::PD8(self)
    }
}

/// Transmit of Usart3: one of the pins that can carry it, in alternate mode
pub enum Tx<Otype = PushPull> {
    Unconnected(NoPin<Otype>),
    PB11(PB11<Alternate<Otype>>),
    PC11(PC11<Alternate<Otype>>),
    PD10(PD10<Alternate<Otype>>),
}

impl<Otype> Sealed for Tx<Otype> {

}

impl<Otype> ReadPin for Tx<Otype> {
    open spec fn spec_is_low(&self, gpio: Gpio) -> bool {
        match self {
            Self::PB11(p) => p.spec_is_low(gpio),
            Self::PC11(p) => p.spec_is_low(gpio),
            Self::PD10(p) => p.spec_is_low(gpio),
            Self::Unconnected(_) => false,
        }
    }

    fn is_low(&self, gpio: &Gpio) -> (low: bool) {
        match self {
            Self::PB11(p) => p.is_low(gpio),
            Self::PC11(p) => p.is_low(gpio),
            Self::PD10(p) => p.is_low(gpio),
            Self::Unconnected(_) => false,
        }
    }
}

impl<Otype> PinSpeed for Tx<Otype> {
    open spec fn with_speed(&self, gpio: Gpio, speed: Speed) -> Gpio {
        match self {
            Self::PB11(p) => p.with_speed(gpio, speed),
            Self::PC11(p) => p.with_speed(gpio, speed),
            Self::PD10(p) => p.with_speed(gpio, speed),
            Self::Unconnected(_) => gpio,
        }
    }

    fn set_speed(&mut self, gpio: &mut Gpio, speed: Speed) {
        match self {
            Self::PB11(p) => PinSpeed::set_speed(p, gpio, speed),
            Self::PC11(p) => PinSpeed::set_speed(p, gpio, speed),
            Self::PD10(p) => PinSpeed::set_speed(p, gpio, speed),
            Self::Unconnected(_) => {},
        }
    }
}

impl<Otype> Tx<Otype> {
    /// The signal without a pin.
    pub fn from_no_pin<T>(_no: NoPin<T>) -> (signal: Self)
        ensures
            signal is Unconnected,
    {
        Self::Unconnected(NoPin::new())
    }

    /// Puts `PB11` into alternate mode and takes it for the signal.
    pub fn from_pb11<MODE>(p: PB11<MODE>, gpio: &mut Gpio) -> (signal: Self) where
        MODE: NotAlt + PinMode,
        Alternate<Otype>: PinMode,

        ensures
            signal is PB11,
            *final(gpio) == after::<Alternate<Otype>>(*old(gpio), PORT_B, 11),
    {
        Self::PB11(p.into_mode(gpio))
    }

    /// Gives `PB11` back in mode `MODE`, if it carries the signal.
    pub fn try_into_pb11<MODE>(self, gpio: &mut Gpio) -> (pin: Result<PB11<MODE>, ()>) where
        MODE: PinMode,
        Alternate<Otype>: PinMode,

        ensures
            pin is Ok <==> self is PB11,
            pin is Ok ==> *final(gpio) == after::<MODE>(*old(gpio), PORT_B, 11),
            pin is Err ==> *final(gpio) == *old(gpio),
    {
        match self {
            Self::PB11(p) => Ok(p.into_mode(gpio)),
            _ => Err(()),
        }
    }

    /// Puts `PC11` into alternate mode and takes it for the signal.
    pub fn from_pc11<MODE>(p: PC11<MODE>, gpio: &mut Gpio) -> (signal: Self) where
        MODE: NotAlt + PinMode,
        Alternate<Otype>: PinMode,

        ensures
            signal is PC11,
            *final(gpio) == after::<Alternate<Otype>>(*old(gpio), PORT_C, 11),
    {
        Self::PC11(p.into_mode(gpio))
    }

    /// Gives `PC11` back in mode `MODE`, if it carries the signal.
    pub fn try_into_pc11<MODE>(self, gpio: &mut Gpio) -> (pin: Result<PC11<MODE>, ()>) where
        MODE: PinMode,
        Alternate<Otype>: PinMode,

        ensures
            pin is Ok <==> self is PC11,
            pin is Ok ==> *final(gpio) == after::<MODE>(*old(gpio), PORT_C, 11),
            pin is Err ==> *final(gpio) == *old(gpio),
    {
        match self {
            Self::PC11(p) => Ok(p.into_mode(gpio)),
            _ => Err(()),
        }
    }

    /// Puts `PD10` into alternate mode and takes it for the signal.
    pub fn from_pd10<MODE>(p: PD10<MODE>, gpio: &mut Gpio) -> (signal: Self) where
        MODE: NotAlt + PinMode,
        Alternate<Otype>: PinMode,

        ensures
            signal is PD10,
            *final(gpio) == after::<Alternate<Otype>>(*old(gpio), PORT_D, 10),
    {
        Self::PD10(p.into_mode(gpio))
    }

    /// Gives `PD10` back in mode `MODE`, if it carries the signal.
    pub fn try_into_pd10<MODE>(self, gpio: &mut Gpio) -> (pin: Result<PD10<MODE>, ()>) where
        MODE: PinMode,
        Alternate<Otype>: PinMode,

        ensures
            pin is Ok <==> self is PD10,
            pin is Ok ==> *final(gpio) == after::<MODE>(*old(gpio), PORT_D, 10),
            pin is Err ==> *final(gpio) == *old(gpio),
    {
        match self {
            Self::PD10(p) => Ok(p.into_mode(gpio)),
            _ => Err(()),
        }
    }
}

impl<T, Otype> IntoSignal<Tx<Otype>> for NoPin<T> {
    open spec fn taken(gpio: Gpio) -> Gpio {
        gpio
    }

    fn into_signal(self, gpio: &mut Gpio) -> (signal: Tx<Otype>) {
        Tx::from_no_pin(self)
    }
}

impl<MODE, Otype> IntoSignal<Tx<Otype>> for PB11<MODE> where
    MODE: NotAlt + PinMode,
    Alternate<Otype>: PinMode,
 {
    open spec fn taken(gpio: Gpio) -> Gpio {
        after::<Alternate<Otype>>(gpio, PORT_B, 11)
    }

    fn into_signal(self, gpio: &mut Gpio) -> (signal: Tx<Otype>) {
        Tx::from_pb11(self, gpio)
    }
}

impl<Otype> IntoSignal<Tx<Otype>> for PB11<Alternate<Otype>> {
    open spec fn taken(gpio: Gpio) -> Gpio {
        gpio
    }

    fn into_signal(self, gpio: &mut Gpio) -> (signal: Tx<Otype>) {
        Tx::PB11(self)
    }
}

impl<MODE, Otype> IntoSignal<Tx<Otype>> for PC11<MODE> where
    MODE: NotAlt + PinMode,
    Alternate<Otype>: PinMode,
 {
    open spec fn taken(gpio: Gpio) -> Gpio {
        after::<Alternate<Otype>>(gpio, PORT_C, 11)
    }

    fn into_signal(self, gpio: &mut Gpio) -> (signal: Tx<Otype>) {
        Tx::from_pc11(self, gpio)
    }
}

impl<Otype> IntoSignal<Tx<Otype>> for PC11<Alternate<Otype>> {
    open spec fn taken(gpio: Gpio) -> Gpio {
        gpio
    }

    fn into_signal(self, gpio: &mut Gpio) -> (signal: Tx<Otype>) {
        Tx::PC11(self)
    }
}

impl<MODE, Otype> IntoSignal<Tx<Otype>> for PD10<MODE> where
    MODE: NotAlt + PinMode,
    Alternate<Otype>: PinMode,
 {
    open spec fn taken(gpio: Gpio) -> Gpio {
        after::<Alternate<Otype>>(gpio, PORT_D, 10)
    }

    fn into_signal(self, gpio: &mut Gpio) -> (signal: Tx<Otype>) {
        Tx::from_pd10(self, gpio)
    }
}

impl<Otype> IntoSignal<Tx<Otype>> for PD10<Alternate<Otype>> {
    open spec fn taken(gpio: Gpio) -> Gpio {
        gpio
    }

    fn into_signal(self, gpio: &mut Gpio) -> (signal: Tx<Otype>) {
        Tx::PD10(self)
    }
}

impl<Itype, Otype> SerialAsync<Itype, Otype> for Usart3 {
    type Rx = Rx<Input<Itype>>;

    type Tx = Tx<Otype>;
}

impl<Itype, Otype> SerialSync<Itype, Otype> for Usart3 {
    type Rx = Rx<Input<Itype>>;

    type Tx = Tx<Otype>;

    type Ck = Ck;
}

impl<Itype, Otype> SerialRs232<Itype, Otype> for Usart3 {
    type Rx = Rx<Input<Itype>>;

    type Tx = Tx<Otype>;

    type Cts = Cts;

    type Rts = Rts;
}

} // verus!
