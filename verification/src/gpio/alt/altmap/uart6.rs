//! UART6: where its signals can be routed to, and how.

use vstd::prelude::*;
use crate::gpio::Alternate;
use crate::gpio::Floating;
use crate::gpio::Input;
use crate::gpio::NoPin;
use crate::gpio::PinMode;
use crate::gpio::PinSpeed;
use crate::gpio::PushPull;
use crate::gpio::ReadPin;
use crate::gpio::Speed;
use crate::gpio::alt::IntoSignal;
use crate::gpio::alt::SerialAsync;
use crate::gpio::alt::altmap::Remap;
use crate::gpio::alt::altmap::RemapIO;
use crate::gpio::alt::altmap::lemma_wired_pin;
use crate::gpio::convert::after;
use crate::gpio::marker::NotAlt;
use crate::gpio::port::PORT_B;
use crate::gpio::port::PORT_C;
use crate::gpio::port::PORT_E;
use crate::pac::Afio;
use crate::pac::Gpio;
use crate::pac::Uart6;
use crate::sealed::Sealed;
use crate::gpio::PB0;
use crate::gpio::PB1;
use crate::gpio::PC0;
use crate::gpio::PC1;
use crate::gpio::PE2;
use crate::gpio::PE3;

verus! {

/// UART6 without remapping
pub(crate) struct UART6NoRemapRemapper();

/// UART6 with the partial remapping
pub(crate) struct UART6PartialRemapRemapper();

/// UART6 with the full remapping
pub(crate) struct UART6FullRemapRemapper();

impl Remap for UART6NoRemapRemapper {
    open spec fn remapped(afio: Afio) -> Afio {
        Afio {
            rmp_cfg3: crate::pac::RmpCfg3 { uart6_rmp: 0, ..afio.rmp_cfg3 },
            ..afio
        }
    }

    open spec fn wired(port: u8, pin: u8) -> bool {
        port == PORT_E && (pin == 2 || pin == 3)
    }

    fn remap(afio: &mut Afio) {
        afio.rmp_cfg3.uart6_rmp = 0;
    }
}

impl Remap for UART6PartialRemapRemapper {
    open spec fn remapped(afio: Afio) -> Afio {
        Afio {
            rmp_cfg3: crate::pac::RmpCfg3 { uart6_rmp: 1, ..afio.rmp_cfg3 },
            ..afio
        }
    }

    open spec fn wired(port: u8, pin: u8) -> bool {
        port == PORT_C && (pin == 0 || pin == 1)
    }

    fn remap(afio: &mut Afio) {
        afio.rmp_cfg3.uart6_rmp = 1;
    }
}

impl Remap for UART6FullRemapRemapper {
    open spec fn remapped(afio: Afio) -> Afio {
        Afio {
            rmp_cfg3: crate::pac::RmpCfg3 { uart6_rmp: 3, ..afio.rmp_cfg3 },
            ..afio
        }
    }

    open spec fn wired(port: u8, pin: u8) -> bool {
        port == PORT_B && (pin == 0 || pin == 1)
    }

    fn remap(afio: &mut Afio) {
        afio.rmp_cfg3.uart6_rmp = 3;
    }
}

impl<T> RemapIO<Uart6, UART6NoRemapRemapper> for PE2<T> {
    proof fn lemma_wired() {
    }
}

impl<T> RemapIO<Uart6, UART6NoRemapRemapper> for PE3<T> {
    proof fn lemma_wired() {
    }
}

impl<T> RemapIO<Uart6, UART6PartialRemapRemapper> for PC0<T> {
    proof fn lemma_wired() {
    }
}

impl<T> RemapIO<Uart6, UART6PartialRemapRemapper> for PC1<T> {
    proof fn lemma_wired() {
    }
}

impl<T> RemapIO<Uart6, UART6FullRemapRemapper> for PB0<T> {
    proof fn lemma_wired() {
    }
}

impl<T> RemapIO<Uart6, UART6FullRemapRemapper> for PB1<T> {
    proof fn lemma_wired() {
    }
}

/// Each pin that UART6 can use without remapping has its `RemapIO`.
pub(crate) proof fn lemma_uart6_no_remap_pins()
    ensures
        UART6NoRemapRemapper::wired(PORT_E, 2),
        UART6NoRemapRemapper::wired(PORT_E, 3),
{
    lemma_wired_pin::<PE2, Uart6, UART6NoRemapRemapper>();
    lemma_wired_pin::<PE3, Uart6, UART6NoRemapRemapper>();
}

/// Each pin that UART6 can use with the partial remapping has its `RemapIO`.
pub(crate) proof fn lemma_uart6_partial_remap_pins()
    ensures
        UART6PartialRemapRemapper::wired(PORT_C, 0),
        UART6PartialRemapRemapper::wired(PORT_C, 1),
{
    lemma_wired_pin::<PC0, Uart6, UART6PartialRemapRemapper>();
    lemma_wired_pin::<PC1, Uart6, UART6PartialRemapRemapper>();
}

/// Each pin that UART6 can use with the full remapping has its `RemapIO`.
pub(crate) proof fn lemma_uart6_full_remap_pins()
    ensures
        UART6FullRemapRemapper::wired(PORT_B, 0),
        UART6FullRemapRemapper::wired(PORT_B, 1),
{
    lemma_wired_pin::<PB0, Uart6, UART6FullRemapRemapper>();
    lemma_wired_pin::<PB1, Uart6, UART6FullRemapRemapper>();
}

/// Receive of Uart6: one of the pins that can carry it, in alternate mode
pub enum Rx<Otype = Floating> {
    Unconnected(NoPin<Otype>),
    PE3(PE3<Alternate<Otype>>),
    PC1(PC1<Alternate<Otype>>),
    PB1(PB1<Alternate<Otype>>),
}

impl<Otype> Sealed for Rx<Otype> {

}

impl<Otype> ReadPin for Rx<Otype> {
    open spec fn spec_is_low(&self, gpio: Gpio) -> bool {
        match self {
            Self::PE3(p) => p.spec_is_low(gpio),
            Self::PC1(p) => p.spec_is_low(gpio),
            Self::PB1(p) => p.spec_is_low(gpio),
            Self::Unconnected(_) => false,
        }
    }

    fn is_low(&self, gpio: &Gpio) -> (low: bool) {
        match self {
            Self::PE3(p) => p.is_low(gpio),
            Self::PC1(p) => p.is_low(gpio),
            Self::PB1(p) => p.is_low(gpio),
            Self::Unconnected(_) => false,
        }
    }
}

impl<Otype> PinSpeed for Rx<Otype> {
    open spec fn with_speed(&self, gpio: Gpio, speed: Speed) -> Gpio {
        match self {
            Self::PE3(p) => p.with_speed(gpio, speed),
            Self::PC1(p) => p.with_speed(gpio, speed),
            Self::PB1(p) => p.with_speed(gpio, speed),
            Self::Unconnected(_) => gpio,
        }
    }

    fn set_speed(&mut self, gpio: &mut Gpio, speed: Speed) {
        match self {
            Self::PE3(p) => PinSpeed::set_speed(p, gpio, speed),
            Self::PC1(p) => PinSpeed::set_speed(p, gpio, speed),
            Self::PB1(p) => PinSpeed::set_speed(p, gpio, speed),
            Self::Unconnected(_) => {},
        }
    }
}

impl<Otype> Rx<Otype> {
    /// The signal without a pin.
    pub fn from_no_pin<T>(_no: NoPin<T>) -> (signal: Self)
        ensures
            signal is Unconnected,
    {
        Self::Unconnected(NoPin::new())
    }

    /// Puts `PE3` into alternate mode and takes it for the signal.
    pub fn from_pe3<MODE>(p: PE3<MODE>, gpio: &mut Gpio) -> (signal: Self) where
        MODE: NotAlt + PinMode,
        Alternate<Otype>: PinMode,

        ensures
            signal is PE3,
            *final(gpio) == after::<Alternate<Otype>>(*old(gpio), PORT_E, 3),
    {
        Self::PE3(p.into_mode(gpio))
    }

    /// Gives `PE3` back in mode `MODE`, if it carries the signal.
    pub fn try_into_pe3<MODE>(self, gpio: &mut Gpio) -> (pin: Result<PE3<MODE>, ()>) where
        MODE: PinMode,
        Alternate<Otype>: PinMode,

        ensures
            pin is Ok <==> self is PE3,
            pin is Ok ==> *final(gpio) == after::<MODE>(*old(gpio), PORT_E, 3),
            pin is Err ==> *final(gpio) == *old(gpio),
    {
        match self {
            Self::PE3(p) => Ok(p.into_mode(gpio)),
            _ => Err(()),
        }
    }

    /// Puts `PC1` into alternate mode and takes it for the signal.
    pub fn from_pc1<MODE>(p: PC1<MODE>, gpio: &mut Gpio) -> (signal: Self) where
        MODE: NotAlt + PinMode,
        Alternate<Otype>: PinMode,

        ensures
            signal is PC1,
            *final(gpio) == after::<Alternate<Otype>>(*old(gpio), PORT_C, 1),
    {
        Self::PC1(p.into_mode(gpio))
    }

    /// Gives `PC1` back in mode `MODE`, if it carries the signal.
    pub fn try_into_pc1<MODE>(self, gpio: &mut Gpio) -> (pin: Result<PC1<MODE>, ()>) where
        MODE: PinMode,
        Alternate<Otype>: PinMode,

        ensures
            pin is Ok <==> self is PC1,
            pin is Ok ==> *final(gpio) == after::<MODE>(*old(gpio), PORT_C, 1),
            pin is Err ==> *final(gpio) == *old(gpio),
    {
        match self {
            Self::PC1(p) => Ok(p.into_mode(gpio)),
            _ => Err(()),
        }
    }

    /// Puts `PB1` into alternate mode and takes it for the signal.
    pub fn from_pb1<MODE>(p: PB1<MODE>, gpio: &mut Gpio) -> (signal: Self) where
        MODE: NotAlt + PinMode,
        Alternate<Otype>: PinMode,

        ensures
            signal is PB1,
            *final(gpio) == after::<Alternate<Otype>>(*old(gpio), PORT_B, 1),
    {
        Self::PB1(p.into_mode(gpio))
    }

    /// Gives `PB1` back in mode `MODE`, if it carries the signal.
    pub fn try_into_pb1<MODE>(self, gpio: &mut Gpio) -> (pin: Result<PB1<MODE>, ()>) where
        MODE: PinMode,
        Alternate<Otype>: PinMode,

        ensures
            pin is Ok <==> self is PB1,
            pin is Ok ==> *final(gpio) == after::<MODE>(*old(gpio), PORT_B, 1),
            pin is Err ==> *final(gpio) == *old(gpio),
    {
        match self {
            Self::PB1(p) => Ok(p.into_mode(gpio)),
            _ => Err(()),
        }
    }
}

impl<T, Otype> IntoSignal<Rx<Otype>> for NoPin<T> {
    open spec fn taken(gpio: Gpio) -> Gpio {
        gpio
    }

    fn into_signal(self, gpio: &mut Gpio) -> (signal: Rx<Otype>) {
        Rx::from_no_pin(self)
    }
}

impl<MODE, Otype> IntoSignal<Rx<Otype>> for PE3<MODE> where
    MODE: NotAlt + PinMode,
    Alternate<Otype>: PinMode,
 {
    open spec fn taken(gpio: Gpio) -> Gpio {
        after::<Alternate<Otype>>(gpio, PORT_E, 3)
    }

    fn into_signal(self, gpio: &mut Gpio) -> (signal: Rx<Otype>) {
        Rx::from_pe3(self, gpio)
    }
}

impl<Otype> IntoSignal<Rx<Otype>> for PE3<Alternate<Otype>> {
    open spec fn taken(gpio: Gpio) -> Gpio {
        gpio
    }

    fn into_signal(self, gpio: &mut Gpio) -> (signal: Rx<Otype>) {
        Rx::PE3(self)
    }
}

impl<MODE, Otype> IntoSignal<Rx<Otype>> for PC1<MODE> where
    MODE: NotAlt + PinMode,
    Alternate<Otype>: PinMode,
 {
    open spec fn taken(gpio: Gpio) -> Gpio {
        after::<Alternate<Otype>>(gpio, PORT_C, 1)
    }

    fn into_signal(self, gpio: &mut Gpio) -> (signal: Rx<Otype>) {
        Rx::from_pc1(self, gpio)
    }
}

impl<Otype> IntoSignal<Rx<Otype>> for PC1<Alternate<Otype>> {
    open spec fn taken(gpio: Gpio) -> Gpio {
        gpio
    }

    fn into_signal(self, gpio: &mut Gpio) -> (signal: Rx<Otype>) {
        Rx::PC1(self)
    }
}

impl<MODE, Otype> IntoSignal<Rx<Otype>> for PB1<MODE> where
    MODE: NotAlt + PinMode,
    Alternate<Otype>: PinMode,
 {
    open spec fn taken(gpio: Gpio) -> Gpio {
        after::<Alternate<Otype>>(gpio, PORT_B, 1)
    }

    fn into_signal(self, gpio: &mut Gpio) -> (signal: Rx<Otype>) {
        Rx::from_pb1(self, gpio)
    }
}

impl<Otype> IntoSignal<Rx<Otype>> for PB1<Alternate<Otype>> {
    open spec fn taken(gpio: Gpio) -> Gpio {
        gpio
    }

    fn into_signal(self, gpio: &mut Gpio) -> (signal: Rx<Otype>) {
        Rx::PB1(self)
    }
}

/// Transmit of Uart6: one of the pins that can carry it, in alternate mode
pub enum Tx<Otype = PushPull> {
    Unconnected(NoPin<Otype>),
    PE2(PE2<Alternate<Otype>>),
    PC0(PC0<Alternate<Otype>>),
    PB0(PB0<Alternate<Otype>>),
}

impl<Otype> Sealed for Tx<Otype> {

}

impl<Otype> ReadPin for Tx<Otype> {
    open spec fn spec_is_low(&self, gpio: Gpio) -> bool {
        match self {
            Self::PE2(p) => p.spec_is_low(gpio),
            Self::PC0(p) => p.spec_is_low(gpio),
            Self::PB0(p) => p.spec_is_low(gpio),
            Self::Unconnected(_) => false,
        }
    }

    fn is_low(&self, gpio: &Gpio) -> (low: bool) {
        match self {
            Self::PE2(p) => p.is_low(gpio),
            Self::PC0(p) => p.is_low(gpio),
            Self::PB0(p) => p.is_low(gpio),
            Self::Unconnected(_) => false,
        }
    }
}

impl<Otype> PinSpeed for Tx<Otype> {
    open spec fn with_speed(&self, gpio: Gpio, speed: Speed) -> Gpio {
        match self {
            Self::PE2(p) => p.with_speed(gpio, speed),
            Self::PC0(p) => p.with_speed(gpio, speed),
            Self::PB0(p) => p.with_speed(gpio, speed),
            Self::Unconnected(_) => gpio,
        }
    }

    fn set_speed(&mut self, gpio: &mut Gpio, speed: Speed) {
        match self {
            Self::PE2(p) => PinSpeed::set_speed(p, gpio, speed),
            Self::PC0(p) => PinSpeed::set_speed(p, gpio, speed),
            Self::PB0(p) => PinSpeed::set_speed(p, gpio, speed),
            Self::Unconnected(_) => {},
        }
    }
}

impl<Otype> Tx<Otype> {
    /// The signal without a pin.
    pub fn from_no_pin<T>(_no: NoPin<T>) -> (signal: Self)
        ensures
            signal is Unconnected,
    {
        Self::Unconnected(NoPin::new())
    }

    /// Puts `PE2` into alternate mode and takes it for the signal.
    pub fn from_pe2<MODE>(p: PE2<MODE>, gpio: &mut Gpio) -> (signal: Self) where
        MODE: NotAlt + PinMode,
        Alternate<Otype>: PinMode,

        ensures
            signal is PE2,
            *final(gpio) == after::<Alternate<Otype>>(*old(gpio), PORT_E, 2),
    {
        Self::PE2(p.into_mode(gpio))
    }

    /// Gives `PE2` back in mode `MODE`, if it carries the signal.
    pub fn try_into_pe2<MODE>(self, gpio: &mut Gpio) -> (pin: Result<PE2<MODE>, ()>) where
        MODE: PinMode,
        Alternate<Otype>: PinMode,

        ensures
            pin is Ok <==> self is PE2,
            pin is Ok ==> *final(gpio) == after::<MODE>(*old(gpio), PORT_E, 2),
            pin is Err ==> *final(gpio) == *old(gpio),
    {
        match self {
            Self::PE2(p) => Ok(p.into_mode(gpio)),
            _ => Err(()),
        }
    }

    /// Puts `PC0` into alternate mode and takes it for the signal.
    pub fn from_pc0<MODE>(p: PC0<MODE>, gpio: &mut Gpio) -> (signal: Self) where
        MODE: NotAlt + PinMode,
        Alternate<Otype>: PinMode,

        ensures
            signal is PC0,
            *final(gpio) == after::<Alternate<Otype>>(*old(gpio), PORT_C, 0),
    {
        Self::PC0(p.into_mode(gpio))
    }

    /// Gives `PC0` back in mode `MODE`, if it carries the signal.
    pub fn try_into_pc0<MODE>(self, gpio: &mut Gpio) -> (pin: Result<PC0<MODE>, ()>) where
        MODE: PinMode,
        Alternate<Otype>: PinMode,

        ensures
            pin is Ok <==> self is PC0,
            pin is Ok ==> *final(gpio) == after::<MODE>(*old(gpio), PORT_C, 0),
            pin is Err ==> *final(gpio) == *old(gpio),
    {
        match self {
            Self::PC0(p) => Ok(p.into_mode(gpio)),
            _ => Err(()),
        }
    }

    /// Puts `PB0` into alternate mode and takes it for the signal.
    pub fn from_pb0<MODE>(p: PB0<MODE>, gpio: &mut Gpio) -> (signal: Self) where
        MODE: NotAlt + PinMode,
        Alternate<Otype>: PinMode,

        ensures
            signal is PB0,
            *final(gpio) == after::<Alternate<Otype>>(*old(gpio), PORT_B, 0),
    {
        Self::PB0(p.into_mode(gpio))
    }

    /// Gives `PB0` back in mode `MODE`, if it carries the signal.
    pub fn try_into_pb0<MODE>(self, gpio: &mut Gpio) -> (pin: Result<PB0<MODE>, ()>) where
        MODE: PinMode,
        Alternate<Otype>: PinMode,

        ensures
            pin is Ok <==> self is PB0,
            pin is Ok ==> *final(gpio) == after::<MODE>(*old(gpio), PORT_B, 0),
            pin is Err ==> *final(gpio) == *old(gpio),
    {
        match self {
            Self::PB0(p) => Ok(p.into_mode(gpio)),
            _ => Err(()),
        }
    }
}

impl<T, Otype> IntoSignal<Tx<Otype>> for NoPin<T> {
    open spec fn taken(gpio: Gpio) -> Gpio {
        gpio
    }

    fn into_signal(self, gpio: &mut Gpio) -> (signal: Tx<Otype>) {
        Tx::from_no_pin(self)
    }
}

impl<MODE, Otype> IntoSignal<Tx<Otype>> for PE2<MODE> where
    MODE: NotAlt + PinMode,
    Alternate<Otype>: PinMode,
 {
    open spec fn taken(gpio: Gpio) -> Gpio {
        after::<Alternate<Otype>>(gpio, PORT_E, 2)
    }

    fn into_signal(self, gpio: &mut Gpio) -> (signal: Tx<Otype>) {
        Tx::from_pe2(self, gpio)
    }
}

impl<Otype> IntoSignal<Tx<Otype>> for PE2<Alternate<Otype>> {
    open spec fn taken(gpio: Gpio) -> Gpio {
        gpio
    }

    fn into_signal(self, gpio: &mut Gpio) -> (signal: Tx<Otype>) {
        Tx::PE2(self)
    }
}

impl<MODE, Otype> IntoSignal<Tx<Otype>> for PC0<MODE> where
    MODE: NotAlt + PinMode,
    Alternate<Otype>: PinMode,
 {
    open spec fn taken(gpio: Gpio) -> Gpio {
        after::<Alternate<Otype>>(gpio, PORT_C, 0)
    }

    fn into_signal(self, gpio: &mut Gpio) -> (signal: Tx<Otype>) {
        Tx::from_pc0(self, gpio)
    }
}

impl<Otype> IntoSignal<Tx<Otype>> for PC0<Alternate<Otype>> {
    open spec fn taken(gpio: Gpio) -> Gpio {
        gpio
    }

    fn into_signal(self, gpio: &mut Gpio) -> (signal: Tx<Otype>) {
        Tx::PC0(self)
    }
}

impl<MODE, Otype> IntoSignal<Tx<Otype>> for PB0<MODE> where
    MODE: NotAlt + PinMode,
    Alternate<Otype>: PinMode,
 {
    open spec fn taken(gpio: Gpio) -> Gpio {
        after::<Alternate<Otype>>(gpio, PORT_B, 0)
    }

    fn into_signal(self, gpio: &mut Gpio) -> (signal: Tx<Otype>) {
        Tx::from_pb0(self, gpio)
    }
}

impl<Otype> IntoSignal<Tx<Otype>> for PB0<Alternate<Otype>> {
    open spec fn taken(gpio: Gpio) -> Gpio {
        gpio
    }

    fn into_signal(self, gpio: &mut Gpio) -> (signal: Tx<Otype>) {
        Tx::PB0(self)
    }
}

impl<Itype, Otype> SerialAsync<Itype, Otype> for Uart6 {
    type Rx = Rx<Input<Itype>>;

    type Tx = Tx<Otype>;
}

} // verus!
