//! USART1: where its signals can be routed to, and how.

use vstd::prelude::*;
use crate::gpio::Alternate;
use crate::gpio::Floating;
use crate::gpio::Input;
use crate::gpio::NoPin;
use crate::gpio::PinMode;
use crate::gpio::PinSpeed;
use crate::gpio::PushPull;
use crate::gpio::ReadPin;
use crate::gpio::Speed;
use crate::gpio::alt::IntoSignal;
use crate::gpio::alt::SerialAsync;
use crate::gpio::alt::SerialRs232;
use crate::gpio::alt::SerialSync;
use crate::gpio::alt::altmap::Remap;
use crate::gpio::alt::altmap::RemapIO;
use crate::gpio::alt::altmap::lemma_wired_pin;
use crate::gpio::convert::after;
use crate::gpio::marker::NotAlt;
use crate::gpio::port::PORT_A;
use crate::gpio::port::PORT_B;
use crate::pac::Afio;
use crate::pac::Gpio;
use crate::pac::Usart1;
use crate::sealed::Sealed;
use crate::gpio::PA8;
use crate::gpio::PA9;
use crate::gpio::PA10;
use crate::gpio::PA11;
use crate::gpio::PA12;
use crate::gpio::PB6;
use crate::gpio::PB7;

verus! {

/// USART1 without remapping
pub struct USART1NoRemapRemapper();

/// USART1 with the full remapping
pub struct USART1FullRemapRemapper();

impl Remap for USART1NoRemapRemapper {
    open spec fn remapped(afio: Afio) -> Afio {
        Afio {
            rmp_cfg: crate::pac::RmpCfg { usart1_rmp: false, ..afio.rmp_cfg },
            ..afio
        }
    }

    open spec fn wired(port: u8, pin: u8) -> bool {
        port == PORT_A && (pin == 9 || pin == 10)
    }

    fn remap(afio: &mut Afio) {
        afio.rmp_cfg.usart1_rmp = false;
    }
}

impl Remap for USART1FullRemapRemapper {
    open spec fn remapped(afio: Afio) -> Afio {
        Afio {
            rmp_cfg: crate::pac::RmpCfg { usart1_rmp: true, ..afio.rmp_cfg },
            ..afio
        }
    }

    open spec fn wired(port: u8, pin: u8) -> bool {
        port == PORT_B && (pin == 6 || pin == 7)
    }

    fn remap(afio: &mut Afio) {
        afio.rmp_cfg.usart1_rmp = true;
    }
}

impl RemapIO<Usart1, USART1NoRemapRemapper> for PA9 {
    proof fn lemma_wired() {
    }
}

impl RemapIO<Usart1, USART1NoRemapRemapper> for PA10 {
    proof fn lemma_wired() {
    }
}

impl RemapIO<Usart1, USART1FullRemapRemapper> for PB6 {
    proof fn lemma_wired() {
    }
}

impl RemapIO<Usart1, USART1FullRemapRemapper> for PB7 {
    proof fn lemma_wired() {
    }
}

/// Each pin that USART1 can use without remapping has its `RemapIO`.
pub proof fn lemma_usart1_no_remap_pins()
    ensures
        USART1NoRemapRemapper::wired(PORT_A, 9),
        USART1NoRemapRemapper::wired(PORT_A, 10),
{
    lemma_wired_pin::<PA9, Usart1, USART1NoRemapRemapper>();
    lemma_wired_pin::<PA10, Usart1, USART1NoRemapRemapper>();
}

/// Each pin that USART1 can use with the full remapping has its `RemapIO`.
pub proof fn lemma_usart1_full_remap_pins()
    ensures
        USART1FullRemapRemapper::wired(PORT_B, 6),
        USART1FullRemapRemapper::wired(PORT_B, 7),
{
    lemma_wired_pin::<PB6, Usart1, USART1FullRemapRemapper>();
    lemma_wired_pin::<PB7, Usart1, USART1FullRemapRemapper>();
}

/// Clock of Usart1: one of the pins that can carry it, in alternate mode
pub enum Ck {
    PA8(PA8<Alternate<PushPull>>),
}

impl Sealed for Ck {

}

impl ReadPin for Ck {
    open spec fn spec_is_low(&self, gpio: Gpio) -> bool {
        match self {
            Self::PA8(p) => p.spec_is_low(gpio),
        }
    }

    fn is_low(&self, gpio: &Gpio) -> (low: bool) {
        match self {
            Self::PA8(p) => p.is_low(gpio),
        }
    }
}

impl PinSpeed for Ck {
    open spec fn with_speed(&self, gpio: Gpio, speed: Speed) -> Gpio {
        match self {
            Self::PA8(p) => p.with_speed(gpio, speed),
        }
    }

    fn set_speed(&mut self, gpio: &mut Gpio, speed: Speed) {
        match self {
            Self::PA8(p) => PinSpeed::set_speed(p, gpio, speed),
        }
    }
}

impl Ck {
    /// Puts `PA8` into alternate mode and takes it for the signal.
    pub fn from_pa8<MODE>(p: PA8<MODE>, gpio: &mut Gpio) -> (signal: Self) where
        MODE: NotAlt + PinMode,

        ensures
            signal is PA8,
            *final(gpio) == after::<Alternate<PushPull>>(*old(gpio), PORT_A, 8),
    {
        Self::PA8(p.into_mode(gpio))
    }

    /// Gives `PA8` back in mode `MODE`, if it carries the signal.
    pub fn try_into_pa8<MODE>(self, gpio: &mut Gpio) -> (pin: Result<PA8<MODE>, ()>) where
        MODE: PinMode,

        ensures
            pin is Ok <==> self is PA8,
            pin is Ok ==> *final(gpio) == after::<MODE>(*old(gpio), PORT_A, 8),
            pin is Err ==> *final(gpio) == *old(gpio),
    {
        match self {
            Self::PA8(p) => Ok(p.into_mode(gpio)),
        }
    }
}

impl<MODE> IntoSignal<Ck> for PA8<MODE> where
    MODE: NotAlt + PinMode,
 {
    open spec fn taken(gpio: Gpio) -> Gpio {
        after::<Alternate<PushPull>>(gpio, PORT_A, 8)
    }

    fn into_signal(self, gpio: &mut Gpio) -> (signal: Ck) {
        Ck::from_pa8(self, gpio)
    }
}

impl IntoSignal<Ck> for PA8<Alternate<PushPull>> {
    open spec fn taken(gpio: Gpio) -> Gpio {
        gpio
    }

    fn into_signal(self, gpio: &mut Gpio) -> (signal: Ck) {
        Ck::PA8(self)
    }
}

/// Clear to send of Usart1: one of the pins that can carry it, in alternate mode
pub enum Cts {
    PA11(PA11<Alternate<PushPull>>),
}

impl Sealed for Cts {

}

impl ReadPin for Cts {
    open spec fn spec_is_low(&self, gpio: Gpio) -> bool {
        match self {
            Self::PA11(p) => p.spec_is_low(gpio),
        }
    }

    fn is_low(&self, gpio: &Gpio) -> (low: bool) {
        match self {
            Self::PA11(p) => p.is_low(gpio),
        }
    }
}

impl PinSpeed for Cts {
    open spec fn with_speed(&self, gpio: Gpio, speed: Speed) -> Gpio {
        match self {
            Self::PA11(p) => p.with_speed(gpio, speed),
        }
    }

    fn set_speed(&mut self, gpio: &mut Gpio, speed: Speed) {
        match self {
            Self::PA11(p) => PinSpeed::set_speed(p, gpio, speed),
        }
    }
}

impl Cts {
    /// Puts `PA11` into alternate mode and takes it for the signal.
    pub fn from_pa11<MODE>(p: PA11<MODE>, gpio: &mut Gpio) -> (signal: Self) where
        MODE: NotAlt + PinMode,

        ensures
            signal is PA11,
            *final(gpio) == after::<Alternate<PushPull>>(*old(gpio), PORT_A, 11),
    {
        Self::PA11(p.into_mode(gpio))
    }

    /// Gives `PA11` back in mode `MODE`, if it carries the signal.
    pub fn try_into_pa11<MODE>(self, gpio: &mut Gpio) -> (pin: Result<PA11<MODE>, ()>) where
        MODE: PinMode,

        ensures
            pin is Ok <==> self is PA11,
            pin is Ok ==> *final(gpio) == after::<MODE>(*old(gpio), PORT_A, 11),
            pin is Err ==> *final(gpio) == *old(gpio),
    {
        match self {
            Self::PA11(p) => Ok(p.into_mode(gpio)),
        }
    }
}

impl<MODE> IntoSignal<Cts> for PA11<MODE> where
    MODE: NotAlt + PinMode,
 {
    open spec fn taken(gpio: Gpio) -> Gpio {
        after::<Alternate<PushPull>>(gpio, PORT_A, 11)
    }

    fn into_signal(self, gpio: &mut Gpio) -> (signal: Cts) {
        Cts::from_pa11(self, gpio)
    }
}

impl IntoSignal<Cts> for PA11<Alternate<PushPull>> {
    open spec fn taken(gpio: Gpio) -> Gpio {
        gpio
    }

    fn into_signal(self, gpio: &mut Gpio) -> (signal: Cts) {
        Cts::PA11(self)
    }
}

/// Request to send of Usart1: one of the pins that can carry it, in alternate mode
pub enum Rts {
    PA12(PA12<Alternate<PushPull>>),
}

impl Sealed for Rts {

}

impl ReadPin for Rts {
    open spec fn spec_is_low(&self, gpio: Gpio) -> bool {
        match self {
            Self::PA12(p) => p.spec_is_low(gpio),
        }
    }

    fn is_low(&self, gpio: &Gpio) -> (low: bool) {
        match self {
            Self::PA12(p) => p.is_low(gpio),
        }
    }
}

impl PinSpeed for Rts {
    open spec fn with_speed(&self, gpio: Gpio, speed: Speed) -> Gpio {
        match self {
            Self::PA12(p) => p.with_speed(gpio, speed),
        }
    }

    fn set_speed(&mut self, gpio: &mut Gpio, speed: Speed) {
        match self {
            Self::PA12(p) => PinSpeed::set_speed(p, gpio, speed),
        }
    }
}

impl Rts {
    /// Puts `PA12` into alternate mode and takes it for the signal.
    pub fn from_pa12<MODE>(p: PA12<MODE>, gpio: &mut Gpio) -> (signal: Self) where
        MODE: NotAlt + PinMode,

        ensures
            signal is PA12,
            *final(gpio) == after::<Alternate<PushPull>>(*old(gpio), PORT_A, 12),
    {
        Self::PA12(p.into_mode(gpio))
    }

    /// Gives `PA12` back in mode `MODE`, if it carries the signal.
    pub fn try_into_pa12<MODE>(self, gpio: &mut Gpio) -> (pin: Result<PA12<MODE>, ()>) where
        MODE: PinMode,

        ensures
            pin is Ok <==> self is PA12,
            pin is Ok ==> *final(gpio) == after::<MODE>(*old(gpio), PORT_A, 12),
            pin is Err ==> *final(gpio) == *old(gpio),
    {
        match self {
            Self::PA12(p) => Ok(p.into_mode(gpio)),
        }
    }
}

impl<MODE> IntoSignal<Rts> for PA12<MODE> where
    MODE: NotAlt + PinMode,
 {
    open spec fn taken(gpio: Gpio) -> Gpio {
        after::<Alternate<PushPull>>(gpio, PORT_A, 12)
    }

    fn into_signal(self, gpio: &mut Gpio) -> (signal: Rts) {
        Rts::from_pa12(self, gpio)
    }
}

impl IntoSignal<Rts> for PA12<Alternate<PushPull>> {
    open spec fn taken(gpio: Gpio) -> Gpio {
        gpio
    }

    fn into_signal(self, gpio: &mut Gpio) -> (signal: Rts) {
        Rts::PA12(self)
    }
}

/// Receive of Usart1: one of the pins that can carry it, in alternate mode
pub enum Rx<Otype = Floating> {
    Unconnected(NoPin<Otype>),
    PA10(PA10<Alternate<Otype>>),
    PB7(PB7<Alternate<Otype>>),
}

impl<Otype> Sealed for Rx<Otype> {

}

impl<Otype> ReadPin for Rx<Otype> {
    open spec fn spec_is_low(&self, gpio: Gpio) -> bool {
        match self {
            Self::PA10(p) => p.spec_is_low(gpio),
            Self::PB7(p) => p.spec_is_low(gpio),
            Self::Unconnected(_) => false,
        }
    }

    fn is_low(&self, gpio: &Gpio) -> (low: bool) {
        match self {
            Self::PA10(p) => p.is_low(gpio),
            Self::PB7(p) => p.is_low(gpio),
            Self::Unconnected(_) => false,
        }
    }
}

impl<Otype> PinSpeed for Rx<Otype> {
    open spec fn with_speed(&self, gpio: Gpio, speed: Speed) -> Gpio {
        match self {
            Self::PA10(p) => p.with_speed(gpio, speed),
            Self::PB7(p) => p.with_speed(gpio, speed),
            Self::Unconnected(_) => gpio,
        }
    }

    fn set_speed(&mut self, gpio: &mut Gpio, speed: Speed) {
        match self {
            Self::PA10(p) => PinSpeed::set_speed(p, gpio, speed),
            Self::PB7(p) => PinSpeed::set_speed(p, gpio, speed),
            Self::Unconnected(_) => {},
        }
    }
}

impl<Otype> Rx<Otype> {
    /// The signal without a pin.
    pub fn from_no_pin<T>(_no: NoPin<T>) -> (signal: Self)
        ensures
            signal is Unconnected,
    {
        Self::Unconnected(NoPin::new())
    }

    /// Puts `PA10` into alternate mode and takes it for the signal.
    pub fn from_pa10<MODE>(p: PA10<MODE>, gpio: &mut Gpio) -> (signal: Self) where
        MODE: NotAlt + PinMode,
        Alternate<Otype>: PinMode,

        ensures
            signal is PA10,
            *final(gpio) == after::<Alternate<Otype>>(*old(gpio), PORT_A, 10),
    {
        Self::PA10(p.into_mode(gpio))
    }

    /// Gives `PA10` back in mode `MODE`, if it carries the signal.
    pub fn try_into_pa10<MODE>(self, gpio: &mut Gpio) -> (pin: Result<PA10<MODE>, ()>) where
        MODE: PinMode,
        Alternate<Otype>: PinMode,

        ensures
            pin is Ok <==> self is PA10,
            pin is Ok ==> *final(gpio) == after::<MODE>(*old(gpio), PORT_A, 10),
            pin is Err ==> *final(gpio) == *old(gpio),
    {
        match self {
            Self::PA10(p) => Ok(p.into_mode(gpio)),
            _ => Err(()),
        }
    }

    /// Puts `PB7` into alternate mode and takes it for the signal.
    pub fn from_pb7<MODE>(p: PB7<MODE>, gpio: &mut Gpio) -> (signal: Self) where
        MODE: NotAlt + PinMode,
        Alternate<Otype>: PinMode,

        ensures
            signal is PB7,
            *final(gpio) == after::<Alternate<Otype>>(*old(gpio), PORT_B, 7),
    {
        Self::PB7(p.into_mode(gpio))
    }

    /// Gives `PB7` back in mode `MODE`, if it carries the signal.
    pub fn try_into_pb7<MODE>(self, gpio: &mut Gpio) -> (pin: Result<PB7<MODE>, ()>) where
        MODE: PinMode,
        Alternate<Otype>: PinMode,

        ensures
            pin is Ok <==> self is PB7,
            pin is Ok ==> *final(gpio) == after::<MODE>(*old(gpio), PORT_B, 7),
            pin is Err ==> *final(gpio) == *old(gpio),
    {
        match self {
            Self::PB7(p) => Ok(p.into_mode(gpio)),
            _ => Err(()),
        }
    }
}

impl<T, Otype> IntoSignal<Rx<Otype>> for NoPin<T> {
    open spec fn taken(gpio: Gpio) -> Gpio {
        gpio
    }

    fn into_signal(self, gpio: &mut Gpio) -> (signal: Rx<Otype>) {
        Rx::from_no_pin(self)
    }
}

impl<MODE, Otype> IntoSignal<Rx<Otype>> for PA10<MODE> where
    MODE: NotAlt + PinMode,
    Alternate<Otype>: PinMode,
 {
    open spec fn taken(gpio: Gpio) -> Gpio {
        after::<Alternate<Otype>>(gpio, PORT_A, 10)
    }

    fn into_signal(self, gpio: &mut Gpio) -> (signal: Rx<Otype>) {
        Rx::from_pa10(self, gpio)
    }
}

impl<Otype> IntoSignal<Rx<Otype>> for PA10<Alternate<Otype>> {
    open spec fn taken(gpio: Gpio) -> Gpio {
        gpio
    }

    fn into_signal(self, gpio: &mut Gpio) -> (signal: Rx<Otype>) {
        Rx::PA10(self)
    }
}

impl<MODE, Otype> IntoSignal<Rx<Otype>> for PB7<MODE> where
    MODE: NotAlt + PinMode,
    Alternate<Otype>: PinMode,
 {
    open spec fn taken(gpio: Gpio) -> Gpio {
        after::<Alternate<Otype>>(gpio, PORT_B, 7)
    }

    fn into_signal(self, gpio: &mut Gpio) -> (signal: Rx<Otype>) {
        Rx::from_pb7(self, gpio)
    }
}

impl<Otype> IntoSignal<Rx<Otype>> for PB7<Alternate<Otype>> {
    open spec fn taken(gpio: Gpio) -> Gpio {
        gpio
    }

    fn into_signal(self, gpio: &mut Gpio) -> (signal: Rx<Otype>) {
        Rx::PB7(self)
    }
}

/// Transmit of Usart1: one of the pins that can carry it, in alternate mode
pub enum Tx<Otype = PushPull> {
    Unconnected(NoPin<Otype>),
    PA9(PA9<Alternate<Otype>>),
    PB6(PB6<Alternate<Otype>>),
}

impl<Otype> Sealed for Tx<Otype> {

}

impl<Otype> ReadPin for Tx<Otype> {
    open spec fn spec_is_low(&self, gpio: Gpio) -> bool {
        match self {
            Self::PA9(p) => p.spec_is_low(gpio),
            Self::PB6(p) => p.spec_is_low(gpio),
            Self::Unconnected(_) => false,
        }
    }

    fn is_low(&self, gpio: &Gpio) -> (low: bool) {
        match self {
            Self::PA9(p) => p.is_low(gpio),
            Self::PB6(p) => p.is_low(gpio),
            Self::Unconnected(_) => false,
        }
    }
}

impl<Otype> PinSpeed for Tx<Otype> {
    open spec fn with_speed(&self, gpio: Gpio, speed: Speed) -> Gpio {
        match self {
            Self::PA9(p) => p.with_speed(gpio, speed),
            Self::PB6(p) => p.with_speed(gpio, speed),
            Self::Unconnected(_) => gpio,
        }
    }

    fn set_speed(&mut self, gpio: &mut Gpio, speed: Speed) {
        match self {
            Self::PA9(p) => PinSpeed::set_speed(p, gpio, speed),
            Self::PB6(p) => PinSpeed::set_speed(p, gpio, speed),
            Self::Unconnected(_) => {},
        }
    }
}

impl<Otype> Tx<Otype> {
    /// The signal without a pin.
    pub fn from_no_pin<T>(_no: NoPin<T>) -> (signal: Self)
        ensures
            signal is Unconnected,
    {
        Self::Unconnected(NoPin::new())
    }

    /// Puts `PA9` into alternate mode and takes it for the signal.
    pub fn from_pa9<MODE>(p: PA9<MODE>, gpio: &mut Gpio) -> (signal: Self) where
        MODE: NotAlt + PinMode,
        Alternate<Otype>: PinMode,

        ensures
            signal is PA9,
            *final(gpio) == after::<Alternate<Otype>>(*old(gpio), PORT_A, 9),
    {
        Self::PA9(p.into_mode(gpio))
    }

    /// Gives `PA9` back in mode `MODE`, if it carries the signal.
    pub fn try_into_pa9<MODE>(self, gpio: &mut Gpio) -> (pin: Result<PA9<MODE>, ()>) where
        MODE: PinMode,
        Alternate<Otype>: PinMode,

        ensures
            pin is Ok <==> self is PA9,
            pin is Ok ==> *final(gpio) == after::<MODE>(*old(gpio), PORT_A, 9),
            pin is Err ==> *final(gpio) == *old(gpio),
    {
        match self {
            Self::PA9(p) => Ok(p.into_mode(gpio)),
            _ => Err(()),
        }
    }

    /// Puts `PB6` into alternate mode and takes it for the signal.
    pub fn from_pb6<MODE>(p: PB6<MODE>, gpio: &mut Gpio) -> (signal: Self) where
        MODE: NotAlt + PinMode,
        Alternate<Otype>: PinMode,

        ensures
            signal is PB6,
            *final(gpio) == after::<Alternate<Otype>>(*old(gpio), PORT_B, 6),
    {
        Self::PB6(p.into_mode(gpio))
    }

    /// Gives `PB6` back in mode `MODE`, if it carries the signal.
    pub fn try_into_pb6<MODE>(self, gpio: &mut Gpio) -> (pin: Result<PB6<MODE>, ()>) where
        MODE: PinMode,
        Alternate<Otype>: PinMode,

        ensures
            pin is Ok <==> self is PB6,
            pin is Ok ==> *final(gpio) == after::<MODE>(*old(gpio), PORT_B, 6),
            pin is Err ==> *final(gpio) == *old(gpio),
    {
        match self {
            Self::PB6(p) => Ok(p.into_mode(gpio)),
            _ => Err(()),
        }
    }
}

impl<T, Otype> IntoSignal<Tx<Otype>> for NoPin<T> {
    open spec fn taken(gpio: Gpio) -> Gpio {
        gpio
    }

    fn into_signal(self, gpio: &mut Gpio) -> (signal: Tx<Otype>) {
        Tx::from_no_pin(self)
    }
}

impl<MODE, Otype> IntoSignal<Tx<Otype>> for PA9<MODE> where
    MODE: NotAlt + PinMode,
    Alternate<Otype>: PinMode,
 {
    open spec fn taken(gpio: Gpio) -> Gpio {
        after::<Alternate<Otype>>(gpio, PORT_A, 9)
    }

    fn into_signal(self, gpio: &mut Gpio) -> (signal: Tx<Otype>) {
        Tx::from_pa9(self, gpio)
    }
}

impl<Otype> IntoSignal<Tx<Otype>> for PA9<Alternate<Otype>> {
    open spec fn taken(gpio: Gpio) -> Gpio {
        gpio
    }

    fn into_signal(self, gpio: &mut Gpio) -> (signal: Tx<Otype>) {
        Tx::PA9(self)
    }
}

impl<MODE, Otype> IntoSignal<Tx<Otype>> for PB6<MODE> where
    MODE: NotAlt + PinMode,
    Alternate<Otype>: PinMode,
 {
    open spec fn taken(gpio: Gpio) -> Gpio {
        after::<Alternate<Otype>>(gpio, PORT_B, 6)
    }

    fn into_signal(self, gpio: &mut Gpio) -> (signal: Tx<Otype>) {
        Tx::from_pb6(self, gpio)
    }
}

impl<Otype> IntoSignal<Tx<Otype>> for PB6<Alternate<Otype>> {
    open spec fn taken(gpio: Gpio) -> Gpio {
        gpio
    }

    fn into_signal(self, gpio: &mut Gpio) -> (signal: Tx<Otype>) {
        Tx::PB6(self)
    }
}

impl<Itype, Otype> SerialAsync<Itype, Otype> for Usart1 {
    type Rx = Rx<Input<Itype>>;

    type Tx = Tx<Otype>;
}

impl<Itype, Otype> SerialSync<Itype, Otype> for Usart1 {
    type Rx = Rx<Input<Itype>>;

    type Tx = Tx<Otype>;

    type Ck = Ck;
}

impl<Itype, Otype> SerialRs232<Itype, Otype> for Usart1 {
    type Rx = Rx<Input<Itype>>;

    type Tx = Tx<Otype>;

    type Cts = Cts;

    type Rts = Rts;
}

} // verus!
