//! UART4: where its signals can be routed to, and how.

use vstd::prelude::*;
use crate::gpio::Alternate;
use crate::gpio::Floating;
use crate::gpio::Input;
use crate::gpio::NoPin;
use crate::gpio::PinMode;
use crate::gpio::PinSpeed;
use crate::gpio::PushPull;
use crate::gpio::ReadPin;
use crate::gpio::Speed;
use crate::gpio::alt::IntoSignal;
use crate::gpio::alt::SerialAsync;
use crate::gpio::alt::altmap::Remap;
use crate::gpio::alt::altmap::RemapIO;
use crate::gpio::alt::altmap::lemma_wired_pin;
use crate::gpio::convert::after;
use crate::gpio::marker::NotAlt;
use crate::gpio::port::PORT_A;
use crate::gpio::port::PORT_B;
use crate::gpio::port::PORT_C;
use crate::gpio::port::PORT_D;
use crate::gpio::port::PORT_E;
use crate::pac::Afio;
use crate::pac::Gpio;
use crate::pac::Uart4;
use crate::sealed::Sealed;
use crate::gpio::PA13;
use crate::gpio::PA14;
use crate::gpio::PB2;
use crate::gpio::PC10;
use crate::gpio::PC11;
use crate::gpio::PD0;
use crate::gpio::PD1;
use crate::gpio::PE7;

verus! {

/// UART4 without remapping
pub struct UART4NoRemapRemapper();

/// UART4 with the first partial remapping
pub struct UART4PartialRemapOneRemapper();

/// UART4 with the second partial remapping
pub struct UART4PartialRemapTwoRemapper();

/// UART4 with the full remapping
pub struct UART4FullRemapRemapper();

impl Remap for UART4NoRemapRemapper {
    open spec fn remapped(afio: Afio) -> Afio {
        Afio {
            rmp_cfg3: crate::pac::RmpCfg3 { uart4_rmp: 0, ..afio.rmp_cfg3 },
            ..afio
        }
    }

    open spec fn wired(port: u8, pin: u8) -> bool {
        port == PORT_C && (pin == 10 || pin == 11)
    }

    fn remap(afio: &mut Afio) {
        afio.rmp_cfg3.uart4_rmp = 0;
    }
}

impl Remap for UART4PartialRemapOneRemapper {
    open spec fn remapped(afio: Afio) -> Afio {
        Afio {
            rmp_cfg3: crate::pac::RmpCfg3 { uart4_rmp: 1, ..afio.rmp_cfg3 },
            ..afio
        }
    }

    open spec fn wired(port: u8, pin: u8) -> bool {
        ||| port == PORT_B && pin == 2
        ||| port == PORT_E && pin == 7
    }

    fn remap(afio: &mut Afio) {
        afio.rmp_cfg3.uart4_rmp = 1;
    }
}

impl Remap for UART4PartialRemapTwoRemapper {
    open spec fn remapped(afio: Afio) -> Afio {
        Afio {
            rmp_cfg3: crate::pac::RmpCfg3 { uart4_rmp: 2, ..afio.rmp_cfg3 },
            ..afio
        }
    }

    open spec fn wired(port: u8, pin: u8) -> bool {
        port == PORT_A && (pin == 13 || pin == 14)
    }

    fn remap(afio: &mut Afio) {
        afio.rmp_cfg3.uart4_rmp = 2;
    }
}

impl Remap for UART4FullRemapRemapper {
    open spec fn remapped(afio: Afio) -> Afio {
        Afio {
            rmp_cfg3: crate::pac::RmpCfg3 { uart4_rmp: 3, ..afio.rmp_cfg3 },
            ..afio
        }
    }

    open spec fn wired(port: u8, pin: u8) -> bool {
        port == PORT_D && (pin == 0 || pin == 1)
    }

    fn remap(afio: &mut Afio) {
        afio.rmp_cfg3.uart4_rmp = 3;
    }
}

impl<T> RemapIO<Uart4, UART4NoRemapRemapper> for PC10<T> {
    proof fn lemma_wired() {
    }
}

impl<T> RemapIO<Uart4, UART4NoRemapRemapper> for PC11<T> {
    proof fn lemma_wired() {
    }
}

impl<T> RemapIO<Uart4, UART4PartialRemapOneRemapper> for PB2<T> {
    proof fn lemma_wired() {
    }
}

impl<T> RemapIO<Uart4, UART4PartialRemapOneRemapper> for PE7<T> {
    proof fn lemma_wired() {
    }
}

impl<T> RemapIO<Uart4, UART4PartialRemapTwoRemapper> for PA13<T> {
    proof fn lemma_wired() {
    }
}

impl<T> RemapIO<Uart4, UART4PartialRemapTwoRemapper> for PA14<T> {
    proof fn lemma_wired() {
    }
}

impl<T> RemapIO<Uart4, UART4FullRemapRemapper> for PD0<T> {
    proof fn lemma_wired() {
    }
}

impl<T> RemapIO<Uart4, UART4FullRemapRemapper> for PD1<T> {
    proof fn lemma_wired() {
    }
}

/// Each pin that UART4 can use without remapping has its `RemapIO`.
pub proof fn lemma_uart4_no_remap_pins()
    ensures
        UART4NoRemapRemapper::wired(PORT_C, 10),
        UART4NoRemapRemapper::wired(PORT_C, 11),
{
    lemma_wired_pin::<PC10, Uart4, UART4NoRemapRemapper>();
    lemma_wired_pin::<PC11, Uart4, UART4NoRemapRemapper>();
}

/// Each pin that UART4 can use with the first partial remapping has its `RemapIO`.
pub proof fn lemma_uart4_partial_remap_one_pins()
    ensures
        UART4PartialRemapOneRemapper::wired(PORT_B, 2),
        UART4PartialRemapOneRemapper::wired(PORT_E, 7),
{
    lemma_wired_pin::<PB2, Uart4, UART4PartialRemapOneRemapper>();
    lemma_wired_pin::<PE7, Uart4, UART4PartialRemapOneRemapper>();
}

/// Each pin that UART4 can use with the second partial remapping has its `RemapIO`.
pub proof fn lemma_uart4_partial_remap_two_pins()
    ensures
        UART4PartialRemapTwoRemapper::wired(PORT_A, 13),
        UART4PartialRemapTwoRemapper::wired(PORT_A, 14),
{
    lemma_wired_pin::<PA13, Uart4, UART4PartialRemapTwoRemapper>();
    lemma_wired_pin::<PA14, Uart4, UART4PartialRemapTwoRemapper>();
}

/// Each pin that UART4 can use with the full remapping has its `RemapIO`.
pub proof fn lemma_uart4_full_remap_pins()
    ensures
        UART4FullRemapRemapper::wired(PORT_D, 0),
        UART4FullRemapRemapper::wired(PORT_D, 1),
{
    lemma_wired_pin::<PD0, Uart4, UART4FullRemapRemapper>();
    lemma_wired_pin::<PD1, Uart4, UART4FullRemapRemapper>();
}

/// Receive of Uart4: one of the pins that can carry it, in alternate mode
pub enum Rx<Otype = Floating> {
    Unconnected(NoPin<Otype>),
    PC11(PC11<Alternate<Otype>>),
    PE7(PE7<Alternate<Otype>>),
    PA14(PA14<Alternate<Otype>>),
    PD1(PD1<Alternate<Otype>>),
}

impl<Otype> Sealed for Rx<Otype> {

}

impl<Otype> ReadPin for Rx<Otype> {
    open spec fn spec_is_low(&self, gpio: Gpio) -> bool {
        match self {
            Self::PC11(p) => p.spec_is_low(gpio),
            Self::PE7(p) => p.spec_is_low(gpio),
            Self::PA14(p) => p.spec_is_low(gpio),
            Self::PD1(p) => p.spec_is_low(gpio),
            Self::Unconnected(_) => false,
        }
    }

    fn is_low(&self, gpio: &Gpio) -> (low: bool) {
        match self {
            Self::PC11(p) => p.is_low(gpio),
            Self::PE7(p) => p.is_low(gpio),
            Self::PA14(p) => p.is_low(gpio),
            Self::PD1(p) => p.is_low(gpio),
            Self::Unconnected(_) => false,
        }
    }
}

impl<Otype> PinSpeed for Rx<Otype> {
    open spec fn with_speed(&self, gpio: Gpio, speed: Speed) -> Gpio {
        match self {
            Self::PC11(p) => p.with_speed(gpio, speed),
            Self::PE7(p) => p.with_speed(gpio, speed),
            Self::PA14(p) => p.with_speed(gpio, speed),
            Self::PD1(p) => p.with_speed(gpio, speed),
            Self::Unconnected(_) => gpio,
        }
    }

    fn set_speed(&mut self, gpio: &mut Gpio, speed: Speed) {
        match self {
            Self::PC11(p) => PinSpeed::set_speed(p, gpio, speed),
            Self::PE7(p) => PinSpeed::set_speed(p, gpio, speed),
            Self::PA14(p) => PinSpeed::set_speed(p, gpio, speed),
            Self::PD1(p) => PinSpeed::set_speed(p, gpio, speed),
            Self::Unconnected(_) => {},
        }
    }
}

impl<Otype> Rx<Otype> {
    /// The signal without a pin.
    pub fn from_no_pin<T>(_no: NoPin<T>) -> (signal: Self)
        ensures
            signal is Unconnected,
    {
        Self::Unconnected(NoPin::new())
    }

    /// Puts `PC11` into alternate mode and takes it for the signal.
    pub fn from_pc11<MODE>(p: PC11<MODE>, gpio: &mut Gpio) -> (signal: Self) where
        MODE: NotAlt + PinMode,
        Alternate<Otype>: PinMode,

        ensures
            signal is PC11,
            *final(gpio) == after::<Alternate<Otype>>(*old(gpio), PORT_C, 11),
    {
        Self::PC11(p.into_mode(gpio))
    }

    /// Gives `PC11` back in mode `MODE`, if it carries the signal.
    pub fn try_into_pc11<MODE>(self, gpio: &mut Gpio) -> (pin: Result<PC11<MODE>, ()>) where
        MODE: PinMode,
        Alternate<Otype>: PinMode,

        ensures
            pin is Ok <==> self is PC11,
            pin is Ok ==> *final(gpio) == after::<MODE>(*old(gpio), PORT_C, 11),
            pin is Err ==> *final(gpio) == *old(gpio),
    {
        match self {
            Self::PC11(p) => Ok(p.into_mode(gpio)),
            _ => Err(()),
        }
    }

    /// Puts `PE7` into alternate mode and takes it for the signal.
    pub fn from_pe7<MODE>(p: PE7<MODE>, gpio: &mut Gpio) -> (signal: Self) where
        MODE: NotAlt + PinMode,
        Alternate<Otype>: PinMode,

        ensures
            signal is PE7,
            *final(gpio) == after::<Alternate<Otype>>(*old(gpio), PORT_E, 7),
    {
        Self::PE7(p.into_mode(gpio))
    }

    /// Gives `PE7` back in mode `MODE`, if it carries the signal.
    pub fn try_into_pe7<MODE>(self, gpio: &mut Gpio) -> (pin: Result<PE7<MODE>, ()>) where
        MODE: PinMode,
        Alternate<Otype>: PinMode,

        ensures
            pin is Ok <==> self is PE7,
            pin is Ok ==> *final(gpio) == after::<MODE>(*old(gpio), PORT_E, 7),
            pin is Err ==> *final(gpio) == *old(gpio),
    {
        match self {
            Self::PE7(p) => Ok(p.into_mode(gpio)),
            _ => Err(()),
        }
    }

    /// Puts `PA14` into alternate mode and takes it for the signal.
    pub fn from_pa14<MODE>(p: PA14<MODE>, gpio: &mut Gpio) -> (signal: Self) where
        MODE: NotAlt + PinMode,
        Alternate<Otype>: PinMode,

        ensures
            signal is PA14,
            *final(gpio) == after::<Alternate<Otype>>(*old(gpio), PORT_A, 14),
    {
        Self::PA14(p.into_mode(gpio))
    }

    /// Gives `PA14` back in mode `MODE`, if it carries the signal.
    pub fn try_into_pa14<MODE>(self, gpio: &mut Gpio) -> (pin: Result<PA14<MODE>, ()>) where
        MODE: PinMode,
        Alternate<Otype>: PinMode,

        ensures
            pin is Ok <==> self is PA14,
            pin is Ok ==> *final(gpio) == after::<MODE>(*old(gpio), PORT_A, 14),
            pin is Err ==> *final(gpio) == *old(gpio),
    {
        match self {
            Self::PA14(p) => Ok(p.into_mode(gpio)),
            _ => Err(()),
        }
    }

    /// Puts `PD1` into alternate mode and takes it for the signal.
    pub fn from_pd1<MODE>(p: PD1<MODE>, gpio: &mut Gpio) -> (signal: Self) where
        MODE: NotAlt + PinMode,
        Alternate<Otype>: PinMode,

        ensures
            signal is PD1,
            *final(gpio) == after::<Alternate<Otype>>(*old(gpio), PORT_D, 1),
    {
        Self::PD1(p.into_mode(gpio))
    }

    /// Gives `PD1` back in mode `MODE`, if it carries the signal.
    pub fn try_into_pd1<MODE>(self, gpio: &mut Gpio) -> (pin: Result<PD1<MODE>, ()>) where
        MODE: PinMode,
        Alternate<Otype>: PinMode,

        ensures
            pin is Ok <==> self is PD1,
            pin is Ok ==> *final(gpio) == after::<MODE>(*old(gpio), PORT_D, 1),
            pin is Err ==> *final(gpio) == *old(gpio),
    {
        match self {
            Self::PD1(p) => Ok(p.into_mode(gpio)),
            _ => Err(()),
        }
    }
}

impl<T, Otype> IntoSignal<Rx<Otype>> for NoPin<T> {
    open spec fn taken(gpio: Gpio) -> Gpio {
        gpio
    }

    fn into_signal(self, gpio: &mut Gpio) -> (signal: Rx<Otype>) {
        Rx::from_no_pin(self)
    }
}

impl<MODE, Otype> IntoSignal<Rx<Otype>> for PC11<MODE> where
    MODE: NotAlt + PinMode,
    Alternate<Otype>: PinMode,
 {
    open spec fn taken(gpio: Gpio) -> Gpio {
        after::<Alternate<Otype>>(gpio, PORT_C, 11)
    }

    fn into_signal(self, gpio: &mut Gpio) -> (signal: Rx<Otype>) {
        Rx::from_pc11(self, gpio)
    }
}

impl<Otype> IntoSignal<Rx<Otype>> for PC11<Alternate<Otype>> {
    open spec fn taken(gpio: Gpio) -> Gpio {
        gpio
    }

    fn into_signal(self, gpio: &mut Gpio) -> (signal: Rx<Otype>) {
        Rx::PC11(self)
    }
}

impl<MODE, Otype> IntoSignal<Rx<Otype>> for PE7<MODE> where
    MODE: NotAlt + PinMode,
    Alternate<Otype>: PinMode,
 {
    open spec fn taken(gpio: Gpio) -> Gpio {
        after::<Alternate<Otype>>(gpio, PORT_E, 7)
    }

    fn into_signal(self, gpio: &mut Gpio) -> (signal: Rx<Otype>) {
        Rx::from_pe7(self, gpio)
    }
}

impl<Otype> IntoSignal<Rx<Otype>> for PE7<Alternate<Otype>> {
    open spec fn taken(gpio: Gpio) -> Gpio {
        gpio
    }

    fn into_signal(self, gpio: &mut Gpio) -> (signal: Rx<Otype>) {
        Rx::PE7(self)
    }
}

impl<MODE, Otype> IntoSignal<Rx<Otype>> for PA14<MODE> where
    MODE: NotAlt + PinMode,
    Alternate<Otype>: PinMode,
 {
    open spec fn taken(gpio: Gpio) -> Gpio {
        after::<Alternate<Otype>>(gpio, PORT_A, 14)
    }

    fn into_signal(self, gpio: &mut Gpio) -> (signal: Rx<Otype>) {
        Rx::from_pa14(self, gpio)
    }
}

impl<Otype> IntoSignal<Rx<Otype>> for PA14<Alternate<Otype>> {
    open spec fn taken(gpio: Gpio) -> Gpio {
        gpio
    }

    fn into_signal(self, gpio: &mut Gpio) -> (signal: Rx<Otype>) {
        Rx::PA14(self)
    }
}

impl<MODE, Otype> IntoSignal<Rx<Otype>> for PD1<MODE> where
    MODE: NotAlt + PinMode,
    Alternate<Otype>: PinMode,
 {
    open spec fn taken(gpio: Gpio) -> Gpio {
        after::<Alternate<Otype>>(gpio, PORT_D, 1)
    }

    fn into_signal(self, gpio: &mut Gpio) -> (signal: Rx<Otype>) {
        Rx::from_pd1(self, gpio)
    }
}

impl<Otype> IntoSignal<Rx<Otype>> for PD1<Alternate<Otype>> {
    open spec fn taken(gpio: Gpio) -> Gpio {
        gpio
    }

    fn into_signal(self, gpio: &mut Gpio) -> (signal: Rx<Otype>) {
        Rx::PD1(self)
    }
}

/// Transmit of Uart4: one of the pins that can carry it, in alternate mode
pub enum Tx<Otype = PushPull> {
    Unconnected(NoPin<Otype>),
    PC10(PC10<Alternate<Otype>>),
    PB2(PB2<Alternate<Otype>>),
    PA13(PA13<Alternate<Otype>>),
    PD0(PD0<Alternate<Otype>>),
}

impl<Otype> Sealed for Tx<Otype> {

}

impl<Otype> ReadPin for Tx<Otype> {
    open spec fn spec_is_low(&self, gpio: Gpio) -> bool {
        match self {
            Self::PC10(p) => p.spec_is_low(gpio),
            Self::PB2(p) => p.spec_is_low(gpio),
            Self::PA13(p) => p.spec_is_low(gpio),
            Self::PD0(p) => p.spec_is_low(gpio),
            Self::Unconnected(_) => false,
        }
    }

    fn is_low(&self, gpio: &Gpio) -> (low: bool) {
        match self {
            Self::PC10(p) => p.is_low(gpio),
            Self::PB2(p) => p.is_low(gpio),
            Self::PA13(p) => p.is_low(gpio),
            Self::PD0(p) => p.is_low(gpio),
            Self::Unconnected(_) => false,
        }
    }
}

impl<Otype> PinSpeed for Tx<Otype> {
    open spec fn with_speed(&self, gpio: Gpio, speed: Speed) -> Gpio {
        match self {
            Self::PC10(p) => p.with_speed(gpio, speed),
            Self::PB2(p) => p.with_speed(gpio, speed),
            Self::PA13(p) => p.with_speed(gpio, speed),
            Self::PD0(p) => p.with_speed(gpio, speed),
            Self::Unconnected(_) => gpio,
        }
    }

    fn set_speed(&mut self, gpio: &mut Gpio, speed: Speed) {
        match self {
            Self::PC10(p) => PinSpeed::set_speed(p, gpio, speed),
            Self::PB2(p) => PinSpeed::set_speed(p, gpio, speed),
            Self::PA13(p) => PinSpeed::set_speed(p, gpio, speed),
            Self::PD0(p) => PinSpeed::set_speed(p, gpio, speed),
            Self::Unconnected(_) => {},
        }
    }
}

impl<Otype> Tx<Otype> {
    /// The signal without a pin.
    pub fn from_no_pin<T>(_no: NoPin<T>) -> (signal: Self)
        ensures
            signal is Unconnected,
    {
        Self::Unconnected(NoPin::new())
    }

    /// Puts `PC10` into alternate mode and takes it for the signal.
    pub fn from_pc10<MODE>(p: PC10<MODE>, gpio: &mut Gpio) -> (signal: Self) where
        MODE: NotAlt + PinMode,
        Alternate<Otype>: PinMode,

        ensures
            signal is PC10,
            *final(gpio) == after::<Alternate<Otype>>(*old(gpio), PORT_C, 10),
    {
        Self::PC10(p.into_mode(gpio))
    }

    /// Gives `PC10` back in mode `MODE`, if it carries the signal.
    pub fn try_into_pc10<MODE>(self, gpio: &mut Gpio) -> (pin: Result<PC10<MODE>, ()>) where
        MODE: PinMode,
        Alternate<Otype>: PinMode,

        ensures
            pin is Ok <==> self is PC10,
            pin is Ok ==> *final(gpio) == after::<MODE>(*old(gpio), PORT_C, 10),
            pin is Err ==> *final(gpio) == *old(gpio),
    {
        match self {
            Self::PC10(p) => Ok(p.into_mode(gpio)),
            _ => Err(()),
        }
    }

    /// Puts `PB2` into alternate mode and takes it for the signal.
    pub fn from_pb2<MODE>(p: PB2<MODE>, gpio: &mut Gpio) -> (signal: Self) where
        MODE: NotAlt + PinMode,
        Alternate<Otype>: PinMode,

        ensures
            signal is PB2,
            *final(gpio) == after::<Alternate<Otype>>(*old(gpio), PORT_B, 2),
    {
        Self::PB2(p.into_mode(gpio))
    }

    /// Gives `PB2` back in mode `MODE`, if it carries the signal.
    pub fn try_into_pb2<MODE>(self, gpio: &mut Gpio) -> (pin: Result<PB2<MODE>, ()>) where
        MODE: PinMode,
        Alternate<Otype>: PinMode,

        ensures
            pin is Ok <==> self is PB2,
            pin is Ok ==> *final(gpio) == after::<MODE>(*old(gpio), PORT_B, 2),
            pin is Err ==> *final(gpio) == *old(gpio),
    {
        match self {
            Self::PB2(p) => Ok(p.into_mode(gpio)),
            _ => Err(()),
        }
    }

    /// Puts `PA13` into alternate mode and takes it for the signal.
    pub fn from_pa13<MODE>(p: PA13<MODE>, gpio: &mut Gpio) -> (signal: Self) where
        MODE: NotAlt + PinMode,
        Alternate<Otype>: PinMode,

        ensures
            signal is PA13,
            *final(gpio) == after::<Alternate<Otype>>(*old(gpio), PORT_A, 13),
    {
        Self::PA13(p.into_mode(gpio))
    }

    /// Gives `PA13` back in mode `MODE`, if it carries the signal.
    pub fn try_into_pa13<MODE>(self, gpio: &mut Gpio) -> (pin: Result<PA13<MODE>, ()>) where
        MODE: PinMode,
        Alternate<Otype>: PinMode,

        ensures
            pin is Ok <==> self is PA13,
            pin is Ok ==> *final(gpio) == after::<MODE>(*old(gpio), PORT_A, 13),
            pin is Err ==> *final(gpio) == *old(gpio),
    {
        match self {
            Self::PA13(p) => Ok(p.into_mode(gpio)),
            _ => Err(()),
        }
    }

    /// Puts `PD0` into alternate mode and takes it for the signal.
    pub fn from_pd0<MODE>(p: PD0<MODE>, gpio: &mut Gpio) -> (signal: Self) where
        MODE: NotAlt + PinMode,
        Alternate<Otype>: PinMode,

        ensures
            signal is PD0,
            *final(gpio) == after::<Alternate<Otype>>(*old(gpio), PORT_D, 0),
    {
        Self::PD0(p.into_mode(gpio))
    }

    /// Gives `PD0` back in mode `MODE`, if it carries the signal.
    pub fn try_into_pd0<MODE>(self, gpio: &mut Gpio) -> (pin: Result<PD0<MODE>, ()>) where
        MODE: PinMode,
        Alternate<Otype>: PinMode,

        ensures
            pin is Ok <==> self is PD0,
            pin is Ok ==> *final(gpio) == after::<MODE>(*old(gpio), PORT_D, 0),
            pin is Err ==> *final(gpio) == *old(gpio),
    {
        match self {
            Self::PD0(p) => Ok(p.into_mode(gpio)),
            _ => Err(()),
        }
    }
}

impl<T, Otype> IntoSignal<Tx<Otype>> for NoPin<T> {
    open spec fn taken(gpio: Gpio) -> Gpio {
        gpio
    }

    fn into_signal(self, gpio: &mut Gpio) -> (signal: Tx<Otype>) {
        Tx::from_no_pin(self)
    }
}

impl<MODE, Otype> IntoSignal<Tx<Otype>> for PC10<MODE> where
    MODE: NotAlt + PinMode,
    Alternate<Otype>: PinMode,
 {
    open spec fn taken(gpio: Gpio) -> Gpio {
        after::<Alternate<Otype>>(gpio, PORT_C, 10)
    }

    fn into_signal(self, gpio: &mut Gpio) -> (signal: Tx<Otype>) {
        Tx::from_pc10(self, gpio)
    }
}

impl<Otype> IntoSignal<Tx<Otype>> for PC10<Alternate<Otype>> {
    open spec fn taken(gpio: Gpio) -> Gpio {
        gpio
    }

    fn into_signal(self, gpio: &mut Gpio) -> (signal: Tx<Otype>) {
        Tx::PC10(self)
    }
}

impl<MODE, Otype> IntoSignal<Tx<Otype>> for PB2<MODE> where
    MODE: NotAlt + PinMode,
    Alternate<Otype>: PinMode,
 {
    open spec fn taken(gpio: Gpio) -> Gpio {
        after::<Alternate<Otype>>(gpio, PORT_B, 2)
    }

    fn into_signal(self, gpio: &mut Gpio) -> (signal: Tx<Otype>) {
        Tx::from_pb2(self, gpio)
    }
}

impl<Otype> IntoSignal<Tx<Otype>> for PB2<Alternate<Otype>> {
    open spec fn taken(gpio: Gpio) -> Gpio {
        gpio
    }

    fn into_signal(self, gpio: &mut Gpio) -> (signal: Tx<Otype>) {
        Tx::PB2(self)
    }
}

impl<MODE, Otype> IntoSignal<Tx<Otype>> for PA13<MODE> where
    MODE: NotAlt + PinMode,
    Alternate<Otype>: PinMode,
 {
    open spec fn taken(gpio: Gpio) -> Gpio {
        after::<Alternate<Otype>>(gpio, PORT_A, 13)
    }

    fn into_signal(self, gpio: &mut Gpio) -> (signal: Tx<Otype>) {
        Tx::from_pa13(self, gpio)
    }
}

impl<Otype> IntoSignal<Tx<Otype>> for PA13<Alternate<Otype>> {
    open spec fn taken(gpio: Gpio) -> Gpio {
        gpio
    }

    fn into_signal(self, gpio: &mut Gpio) -> (signal: Tx<Otype>) {
        Tx::PA13(self)
    }
}

impl<MODE, Otype> IntoSignal<Tx<Otype>> for PD0<MODE> where
    MODE: NotAlt + PinMode,
    Alternate<Otype>: PinMode,
 {
    open spec fn taken(gpio: Gpio) -> Gpio {
        after::<Alternate<Otype>>(gpio, PORT_D, 0)
    }

    fn into_signal(self, gpio: &mut Gpio) -> (signal: Tx<Otype>) {
        Tx::from_pd0(self, gpio)
    }
}

impl<Otype> IntoSignal<Tx<Otype>> for PD0<Alternate<Otype>> {
    open spec fn taken(gpio: Gpio) -> Gpio {
        gpio
    }

    fn into_signal(self, gpio: &mut Gpio) -> (signal: Tx<Otype>) {
        Tx::PD0(self)
    }
}

impl<Itype, Otype> SerialAsync<Itype, Otype> for Uart4 {
    type Rx = Rx<Input<Itype>>;

    type Tx = Tx<Otype>;
}

} // verus!
