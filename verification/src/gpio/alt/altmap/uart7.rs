//! UART7: where its signals can be routed to, and how.

use vstd::prelude::*;
use crate::gpio::Alternate;
use crate::gpio::Floating;
use crate::gpio::Input;
use crate::gpio::NoPin;
use crate::gpio::PinMode;
use crate::gpio::PinSpeed;
use crate::gpio::PushPull;
use crate::gpio::ReadPin;
use crate::gpio::Speed;
use crate::gpio::alt::IntoSignal;
use crate::gpio::alt::SerialAsync;
use crate::gpio::alt::altmap::Remap;
use crate::gpio::alt::altmap::RemapIO;
use crate::gpio::alt::altmap::lemma_wired_pin;
use crate::gpio::convert::after;
use crate::gpio::marker::NotAlt;
use crate::gpio::port::PORT_B;
use crate::gpio::port::PORT_C;
use crate::gpio::port::PORT_D;
use crate::gpio::port::PORT_G;
use crate::pac::Afio;
use crate::pac::Gpio;
use crate::pac::Uart7;
use crate::sealed::Sealed;
use crate::gpio::PB8;
use crate::gpio::PB9;
use crate::gpio::PB13;
use crate::gpio::PB14;
use crate::gpio::PC2;
use crate::gpio::PC3;
use crate::gpio::PC4;
use crate::gpio::PC5;
use crate::gpio::PC12;
use crate::gpio::PD2;
use crate::gpio::PG0;
use crate::gpio::PG1;

verus! {

/// UART7 without remapping
pub(crate) struct UART7NoRemapRemapper();

/// UART7 with the partial remapping
pub(crate) struct UART7PartialRemapRemapper();

/// UART7 with the full remapping
pub(crate) struct UART7FullRemapRemapper();

impl Remap for UART7NoRemapRemapper {
    open spec fn remapped(afio: Afio) -> Afio {
        Afio {
            rmp_cfg3: crate::pac::RmpCfg3 { uart7_rmp: 0, ..afio.rmp_cfg3 },
            ..afio
        }
    }

    open spec fn wired(port: u8, pin: u8) -> bool {
        ||| port == PORT_C && pin == 12
        ||| port == PORT_D && pin == 2
    }

    fn remap(afio: &mut Afio) {
        afio.rmp_cfg3.uart7_rmp = 0;
    }
}

impl Remap for UART7PartialRemapRemapper {
    open spec fn remapped(afio: Afio) -> Afio {
        Afio {
            rmp_cfg3: crate::pac::RmpCfg3 { uart7_rmp: 1, ..afio.rmp_cfg3 },
            ..afio
        }
    }

    open spec fn wired(port: u8, pin: u8) -> bool {
        port == PORT_B && (pin == 13 || pin == 14)
    }

    fn remap(afio: &mut Afio) {
        afio.rmp_cfg3.uart7_rmp = 1;
    }
}

impl Remap for UART7FullRemapRemapper {
    open spec fn remapped(afio: Afio) -> Afio {
        Afio {
            rmp_cfg3: crate::pac::RmpCfg3 { uart7_rmp: 3, ..afio.rmp_cfg3 },
            ..afio
        }
    }

    open spec fn wired(port: u8, pin: u8) -> bool {
        port == PORT_B && (pin == 8 || pin == 9)
    }

    fn remap(afio: &mut Afio) {
        afio.rmp_cfg3.uart7_rmp = 3;
    }
}

impl RemapIO<Uart7, UART7NoRemapRemapper> for PC12 {
    proof fn lemma_wired() {
    }
}

impl RemapIO<Uart7, UART7NoRemapRemapper> for PD2 {
    proof fn lemma_wired() {
    }
}

impl RemapIO<Uart7, UART7PartialRemapRemapper> for PB13 {
    proof fn lemma_wired() {
    }
}

impl RemapIO<Uart7, UART7PartialRemapRemapper> for PB14 {
    proof fn lemma_wired() {
    }
}

impl RemapIO<Uart7, UART7FullRemapRemapper> for PB8 {
    proof fn lemma_wired() {
    }
}

impl RemapIO<Uart7, UART7FullRemapRemapper> for PB9 {
    proof fn lemma_wired() {
    }
}

/// Each pin that UART7 can use without remapping has its `RemapIO`.
pub(crate) proof fn lemma_uart7_no_remap_pins()
    ensures
        UART7NoRemapRemapper::wired(PORT_C, 12),
        UART7NoRemapRemapper::wired(PORT_D, 2),
{
    lemma_wired_pin::<PC12, Uart7, UART7NoRemapRemapper>();
    lemma_wired_pin::<PD2, Uart7, UART7NoRemapRemapper>();
}

/// Each pin that UART7 can use with the partial remapping has its `RemapIO`.
pub(crate) proof fn lemma_uart7_partial_remap_pins()
    ensures
        UART7PartialRemapRemapper::wired(PORT_B, 13),
        UART7PartialRemapRemapper::wired(PORT_B, 14),
{
    lemma_wired_pin::<PB13, Uart7, UART7PartialRemapRemapper>();
    lemma_wired_pin::<PB14, Uart7, UART7PartialRemapRemapper>();
}

/// Each pin that UART7 can use with the full remapping has its `RemapIO`.
pub(crate) proof fn lemma_uart7_full_remap_pins()
    ensures
        UART7FullRemapRemapper::wired(PORT_B, 8),
        UART7FullRemapRemapper::wired(PORT_B, 9),
{
    lemma_wired_pin::<PB8, Uart7, UART7FullRemapRemapper>();
    lemma_wired_pin::<PB9, Uart7, UART7FullRemapRemapper>();
}

/// Receive of Uart7: one of the pins that can carry it, in alternate mode
pub enum Rx<Otype = Floating> {
    Unconnected(NoPin<Otype>),
    PC5(PC5<Alternate<Otype>>),
    PC3(PC3<Alternate<Otype>>),
    PG1(PG1<Alternate<Otype>>),
}

impl<Otype> Sealed for Rx<Otype> {

}

impl<Otype> ReadPin for Rx<Otype> {
    open spec fn spec_is_low(&self, gpio: Gpio) -> bool {
        match self {
            Self::PC5(p) => p.spec_is_low(gpio),
            Self::PC3(p) => p.spec_is_low(gpio),
            Self::PG1(p) => p.spec_is_low(gpio),
            Self::Unconnected(_) => false,
        }
    }

    fn is_low(&self, gpio: &Gpio) -> (low: bool) {
        match self {
            Self::PC5(p) => p.is_low(gpio),
            Self::PC3(p) => p.is_low(gpio),
            Self::PG1(p) => p.is_low(gpio),
            Self::Unconnected(_) => false,
        }
    }
}

impl<Otype> PinSpeed for Rx<Otype> {
    open spec fn with_speed(&self, gpio: Gpio, speed: Speed) -> Gpio {
        match self {
            Self::PC5(p) => p.with_speed(gpio, speed),
            Self::PC3(p) => p.with_speed(gpio, speed),
            Self::PG1(p) => p.with_speed(gpio, speed),
            Self::Unconnected(_) => gpio,
        }
    }

    fn set_speed(&mut self, gpio: &mut Gpio, speed: Speed) {
        match self {
            Self::PC5(p) => PinSpeed::set_speed(p, gpio, speed),
            Self::PC3(p) => PinSpeed::set_speed(p, gpio, speed),
            Self::PG1(p) => PinSpeed::set_speed(p, gpio, speed),
            Self::Unconnected(_) => {},
        }
    }
}

impl<Otype> Rx<Otype> {
    /// The signal without a pin.
    pub fn from_no_pin<T>(_no: NoPin<T>) -> (signal: Self)
        ensures
            signal is Unconnected,
    {
        Self::Unconnected(NoPin::new())
    }

    /// Puts `PC5` into alternate mode and takes it for the signal.
    pub fn from_pc5<MODE>(p: PC5<MODE>, gpio: &mut Gpio) -> (signal: Self) where
        MODE: NotAlt + PinMode,
        Alternate<Otype>: PinMode,

        ensures
            signal is PC5,
            *final(gpio) == after::<Alternate<Otype>>(*old(gpio), PORT_C, 5),
    {
        Self::PC5(p.into_mode(gpio))
    }

    /// Gives `PC5` back in mode `MODE`, if it carries the signal.
    pub fn try_into_pc5<MODE>(self, gpio: &mut Gpio) -> (pin: Result<PC5<MODE>, ()>) where
        MODE: PinMode,
        Alternate<Otype>: PinMode,

        ensures
            pin is Ok <==> self is PC5,
            pin is Ok ==> *final(gpio) == after::<MODE>(*old(gpio), PORT_C, 5),
            pin is Err ==> *final(gpio) == *old(gpio),
    {
        match self {
            Self::PC5(p) => Ok(p.into_mode(gpio)),
            _ => Err(()),
        }
    }

    /// Puts `PC3` into alternate mode and takes it for the signal.
    pub fn from_pc3<MODE>(p: PC3<MODE>, gpio: &mut Gpio) -> (signal: Self) where
        MODE: NotAlt + PinMode,
        Alternate<Otype>: PinMode,

        ensures
            signal is PC3,
            *final(gpio) == after::<Alternate<Otype>>(*old(gpio), PORT_C, 3),
    {
        Self::PC3(p.into_mode(gpio))
    }

    /// Gives `PC3` back in mode `MODE`, if it carries the signal.
    pub fn try_into_pc3<MODE>(self, gpio: &mut Gpio) -> (pin: Result<PC3<MODE>, ()>) where
        MODE: PinMode,
        Alternate<Otype>: PinMode,

        ensures
            pin is Ok <==> self is PC3,
            pin is Ok ==> *final(gpio) == after::<MODE>(*old(gpio), PORT_C, 3),
            pin is Err ==> *final(gpio) == *old(gpio),
    {
        match self {
            Self::PC3(p) => Ok(p.into_mode(gpio)),
            _ => Err(()),
        }
    }

    /// Puts `PG1` into alternate mode and takes it for the signal.
    pub fn from_pg1<MODE>(p: PG1<MODE>, gpio: &mut Gpio) -> (signal: Self) where
        MODE: NotAlt + PinMode,
        Alternate<Otype>: PinMode,

        ensures
            signal is PG1,
            *final(gpio) == after::<Alternate<Otype>>(*old(gpio), PORT_G, 1),
    {
        Self::PG1(p.into_mode(gpio))
    }

    /// Gives `PG1` back in mode `MODE`, if it carries the signal.
    pub fn try_into_pg1<MODE>(self, gpio: &mut Gpio) -> (pin: Result<PG1<MODE>, ()>) where
        MODE: PinMode,
        Alternate<Otype>: PinMode,

        ensures
            pin is Ok <==> self is PG1,
            pin is Ok ==> *final(gpio) == after::<MODE>(*old(gpio), PORT_G, 1),
            pin is Err ==> *final(gpio) == *old(gpio),
    {
        match self {
            Self::PG1(p) => Ok(p.into_mode(gpio)),
            _ => Err(()),
        }
    }
}

impl<T, Otype> IntoSignal<Rx<Otype>> for NoPin<T> {
    open spec fn taken(gpio: Gpio) -> Gpio {
        gpio
    }

    fn into_signal(self, gpio: &mut Gpio) -> (signal: Rx<Otype>) {
        Rx::from_no_pin(self)
    }
}

impl<MODE, Otype> IntoSignal<Rx<Otype>> for PC5<MODE> where
    MODE: NotAlt + PinMode,
    Alternate<Otype>: PinMode,
 {
    open spec fn taken(gpio: Gpio) -> Gpio {
        after::<Alternate<Otype>>(gpio, PORT_C, 5)
    }

    fn into_signal(self, gpio: &mut Gpio) -> (signal: Rx<Otype>) {
        Rx::from_pc5(self, gpio)
    }
}

impl<Otype> IntoSignal<Rx<Otype>> for PC5<Alternate<Otype>> {
    open spec fn taken(gpio: Gpio) -> Gpio {
        gpio
    }

    fn into_signal(self, gpio: &mut Gpio) -> (signal: Rx<Otype>) {
        Rx::PC5(self)
    }
}

impl<MODE, Otype> IntoSignal<Rx<Otype>> for PC3<MODE> where
    MODE: NotAlt + PinMode,
    Alternate<Otype>: PinMode,
 {
    open spec fn taken(gpio: Gpio) -> Gpio {
        after::<Alternate<Otype>>(gpio, PORT_C, 3)
    }

    fn into_signal(self, gpio: &mut Gpio) -> (signal: Rx<Otype>) {
        Rx::from_pc3(self, gpio)
    }
}

impl<Otype> IntoSignal<Rx<Otype>> for PC3<Alternate<Otype>> {
    open spec fn taken(gpio: Gpio) -> Gpio {
        gpio
    }

    fn into_signal(self, gpio: &mut Gpio) -> (signal: Rx<Otype>) {
        Rx::PC3(self)
    }
}

impl<MODE, Otype> IntoSignal<Rx<Otype>> for PG1<MODE> where
    MODE: NotAlt + PinMode,
    Alternate<Otype>: PinMode,
 {
    open spec fn taken(gpio: Gpio) -> Gpio {
        after::<Alternate<Otype>>(gpio, PORT_G, 1)
    }

    fn into_signal(self, gpio: &mut Gpio) -> (signal: Rx<Otype>) {
        Rx::from_pg1(self, gpio)
    }
}

impl<Otype> IntoSignal<Rx<Otype>> for PG1<Alternate<Otype>> {
    open spec fn taken(gpio: Gpio) -> Gpio {
        gpio
    }

    fn into_signal(self, gpio: &mut Gpio) -> (signal: Rx<Otype>) {
        Rx::PG1(self)
    }
}

/// Transmit of Uart7: one of the pins that can carry it, in alternate mode
pub enum Tx<Otype = PushPull> {
    Unconnected(NoPin<Otype>),
    PC4(PC4<Alternate<Otype>>),
    PC2(PC2<Alternate<Otype>>),
    PG0(PG0<Alternate<Otype>>),
}

impl<Otype> Sealed for Tx<Otype> {

}

impl<Otype> ReadPin for Tx<Otype> {
    open spec fn spec_is_low(&self, gpio: Gpio) -> bool {
        match self {
            Self::PC4(p) => p.spec_is_low(gpio),
            Self::PC2(p) => p.spec_is_low(gpio),
            Self::PG0(p) => p.spec_is_low(gpio),
            Self::Unconnected(_) => false,
        }
    }

    fn is_low(&self, gpio: &Gpio) -> (low: bool) {
        match self {
            Self::PC4(p) => p.is_low(gpio),
            Self::PC2(p) => p.is_low(gpio),
            Self::PG0(p) => p.is_low(gpio),
            Self::Unconnected(_) => false,
        }
    }
}

impl<Otype> PinSpeed for Tx<Otype> {
    open spec fn with_speed(&self, gpio: Gpio, speed: Speed) -> Gpio {
        match self {
            Self::PC4(p) => p.with_speed(gpio, speed),
            Self::PC2(p) => p.with_speed(gpio, speed),
            Self::PG0(p) => p.with_speed(gpio, speed),
            Self::Unconnected(_) => gpio,
        }
    }

    fn set_speed(&mut self, gpio: &mut Gpio, speed: Speed) {
        match self {
            Self::PC4(p) => PinSpeed::set_speed(p, gpio, speed),
            Self::PC2(p) => PinSpeed::set_speed(p, gpio, speed),
            Self::PG0(p) => PinSpeed::set_speed(p, gpio, speed),
            Self::Unconnected(_) => {},
        }
    }
}

impl<Otype> Tx<Otype> {
    /// The signal without a pin.
    pub fn from_no_pin<T>(_no: NoPin<T>) -> (signal: Self)
        ensures
            signal is Unconnected,
    {
        Self::Unconnected(NoPin::new())
    }

    /// Puts `PC4` into alternate mode and takes it for the signal.
    pub fn from_pc4<MODE>(p: PC4<MODE>, gpio: &mut Gpio) -> (signal: Self) where
        MODE: NotAlt + PinMode,
        Alternate<Otype>: PinMode,

        ensures
            signal is PC4,
            *final(gpio) == after::<Alternate<Otype>>(*old(gpio), PORT_C, 4),
    {
        Self::PC4(p.into_mode(gpio))
    }

    /// Gives `PC4` back in mode `MODE`, if it carries the signal.
    pub fn try_into_pc4<MODE>(self, gpio: &mut Gpio) -> (pin: Result<PC4<MODE>, ()>) where
        MODE: PinMode,
        Alternate<Otype>: PinMode,

        ensures
            pin is Ok <==> self is PC4,
            pin is Ok ==> *final(gpio) == after::<MODE>(*old(gpio), PORT_C, 4),
            pin is Err ==> *final(gpio) == *old(gpio),
    {
        match self {
            Self::PC4(p) => Ok(p.into_mode(gpio)),
            _ => Err(()),
        }
    }

    /// Puts `PC2` into alternate mode and takes it for the signal.
    pub fn from_pc2<MODE>(p: PC2<MODE>, gpio: &mut Gpio) -> (signal: Self) where
        MODE: NotAlt + PinMode,
        Alternate<Otype>: PinMode,

        ensures
            signal is PC2,
            *final(gpio) == after::<Alternate<Otype>>(*old(gpio), PORT_C, 2),
    {
        Self::PC2(p.into_mode(gpio))
    }

    /// Gives `PC2` back in mode `MODE`, if it carries the signal.
    pub fn try_into_pc2<MODE>(self, gpio: &mut Gpio) -> (pin: Result<PC2<MODE>, ()>) where
        MODE: PinMode,
        Alternate<Otype>: PinMode,

        ensures
            pin is Ok <==> self is PC2,
            pin is Ok ==> *final(gpio) == after::<MODE>(*old(gpio), PORT_C, 2),
            pin is Err ==> *final(gpio) == *old(gpio),
    {
        match self {
            Self::PC2(p) => Ok(p.into_mode(gpio)),
            _ => Err(()),
        }
    }

    /// Puts `PG0` into alternate mode and takes it for the signal.
    pub fn from_pg0<MODE>(p: PG0<MODE>, gpio: &mut Gpio) -> (signal: Self) where
        MODE: NotAlt + PinMode,
        Alternate<Otype>: PinMode,

        ensures
            signal is PG0,
            *final(gpio) == after::<Alternate<Otype>>(*old(gpio), PORT_G, 0),
    {
        Self::PG0(p.into_mode(gpio))
    }

    /// Gives `PG0` back in mode `MODE`, if it carries the signal.
    pub fn try_into_pg0<MODE>(self, gpio: &mut Gpio) -> (pin: Result<PG0<MODE>, ()>) where
        MODE: PinMode,
        Alternate<Otype>: PinMode,

        ensures
            pin is Ok <==> self is PG0,
            pin is Ok ==> *final(gpio) == after::<MODE>(*old(gpio), PORT_G, 0),
            pin is Err ==> *final(gpio) == *old(gpio),
    {
        match self {
            Self::PG0(p) => Ok(p.into_mode(gpio)),
            _ => Err(()),
        }
    }
}

impl<T, Otype> IntoSignal<Tx<Otype>> for NoPin<T> {
    open spec fn taken(gpio: Gpio) -> Gpio {
        gpio
    }

    fn into_signal(self, gpio: &mut Gpio) -> (signal: Tx<Otype>) {
        Tx::from_no_pin(self)
    }
}

impl<MODE, Otype> IntoSignal<Tx<Otype>> for PC4<MODE> where
    MODE: NotAlt + PinMode,
    Alternate<Otype>: PinMode,
 {
    open spec fn taken(gpio: Gpio) -> Gpio {
        after::<Alternate<Otype>>(gpio, PORT_C, 4)
    }

    fn into_signal(self, gpio: &mut Gpio) -> (signal: Tx<Otype>) {
        Tx::from_pc4(self, gpio)
    }
}

impl<Otype> IntoSignal<Tx<Otype>> for PC4<Alternate<Otype>> {
    open spec fn taken(gpio: Gpio) -> Gpio {
        gpio
    }

    fn into_signal(self, gpio: &mut Gpio) -> (signal: Tx<Otype>) {
        Tx::PC4(self)
    }
}

impl<MODE, Otype> IntoSignal<Tx<Otype>> for PC2<MODE> where
    MODE: NotAlt + PinMode,
    Alternate<Otype>: PinMode,
 {
    open spec fn taken(gpio: Gpio) -> Gpio {
        after::<Alternate<Otype>>(gpio, PORT_C, 2)
    }

    fn into_signal(self, gpio: &mut Gpio) -> (signal: Tx<Otype>) {
        Tx::from_pc2(self, gpio)
    }
}

impl<Otype> IntoSignal<Tx<Otype>> for PC2<Alternate<Otype>> {
    open spec fn taken(gpio: Gpio) -> Gpio {
        gpio
    }

    fn into_signal(self, gpio: &mut Gpio) -> (signal: Tx<Otype>) {
        Tx::PC2(self)
    }
}

impl<MODE, Otype> IntoSignal<Tx<Otype>> for PG0<MODE> where
    MODE: NotAlt + PinMode,
    Alternate<Otype>: PinMode,
 {
    open spec fn taken(gpio: Gpio) -> Gpio {
        after::<Alternate<Otype>>(gpio, PORT_G, 0)
    }

    fn into_signal(self, gpio: &mut Gpio) -> (signal: Tx<Otype>) {
        Tx::from_pg0(self, gpio)
    }
}

impl<Otype> IntoSignal<Tx<Otype>> for PG0<Alternate<Otype>> {
    open spec fn taken(gpio: Gpio) -> Gpio {
        gpio
    }

    fn into_signal(self, gpio: &mut Gpio) -> (signal: Tx<Otype>) {
        Tx::PG0(self)
    }
}

impl<Itype, Otype> SerialAsync<Itype, Otype> for Uart7 {
    type Rx = Rx<Input<Itype>>;

    type Tx = Tx<Otype>;
}

} // verus!
