//! UART5: where its signals can be routed to, and how.

use vstd::prelude::*;
use crate::gpio::Alternate;
use crate::gpio::Floating;
use crate::gpio::Input;
use crate::gpio::NoPin;
use crate::gpio::PinMode;
use crate::gpio::PinSpeed;
use crate::gpio::PushPull;
use crate::gpio::ReadPin;
use crate::gpio::Speed;
use crate::gpio::alt::IntoSignal;
use crate::gpio::alt::SerialAsync;
use crate::gpio::alt::altmap::Remap;
use crate::gpio::alt::altmap::RemapIO;
use crate::gpio::alt::altmap::lemma_wired_pin;
use crate::gpio::convert::after;
use crate::gpio::marker::NotAlt;
use crate::gpio::port::PORT_B;
use crate::gpio::port::PORT_C;
use crate::gpio::port::PORT_D;
use crate::gpio::port::PORT_E;
use crate::pac::Afio;
use crate::pac::Gpio;
use crate::pac::Uart5;
use crate::sealed::Sealed;
use crate::gpio::PB8;
use crate::gpio::PB9;
use crate::gpio::PB13;
use crate::gpio::PB14;
use crate::gpio::PC12;
use crate::gpio::PD2;
use crate::gpio::PE8;
use crate::gpio::PE9;

verus! {

/// UART5 without remapping
pub struct UART5NoRemapRemapper();

/// UART5 with the first partial remapping
pub struct UART5PartialRemapOneRemapper();

/// UART5 with the second partial remapping
pub struct UART5PartialRemapTwoRemapper();

/// UART5 with the full remapping
pub struct UART5FullRemapRemapper();

impl Remap for UART5NoRemapRemapper {
    open spec fn remapped(afio: Afio) -> Afio {
        Afio {
            rmp_cfg3: crate::pac::RmpCfg3 { uart5_rmp: 0, ..afio.rmp_cfg3 },
            ..afio
        }
    }

    open spec fn wired(port: u8, pin: u8) -> bool {
        ||| port == PORT_C && pin == 12
        ||| port == PORT_D && pin == 2
    }

    fn remap(afio: &mut Afio) {
        afio.rmp_cfg3.uart5_rmp = 0;
    }
}

impl Remap for UART5PartialRemapOneRemapper {
    open spec fn remapped(afio: Afio) -> Afio {
        Afio {
            rmp_cfg3: crate::pac::RmpCfg3 { uart5_rmp: 1, ..afio.rmp_cfg3 },
            ..afio
        }
    }

    open spec fn wired(port: u8, pin: u8) -> bool {
        port == PORT_B && (pin == 13 || pin == 14)
    }

    fn remap(afio: &mut Afio) {
        afio.rmp_cfg3.uart5_rmp = 1;
    }
}

impl Remap for UART5PartialRemapTwoRemapper {
    open spec fn remapped(afio: Afio) -> Afio {
        Afio {
            rmp_cfg3: crate::pac::RmpCfg3 { uart5_rmp: 2, ..afio.rmp_cfg3 },
            ..afio
        }
    }

    open spec fn wired(port: u8, pin: u8) -> bool {
        port == PORT_E && (pin == 8 || pin == 9)
    }

    fn remap(afio: &mut Afio) {
        afio.rmp_cfg3.uart5_rmp = 2;
    }
}

impl Remap for UART5FullRemapRemapper {
    open spec fn remapped(afio: Afio) -> Afio {
        Afio {
            rmp_cfg3: crate::pac::RmpCfg3 { uart5_rmp: 3, ..afio.rmp_cfg3 },
            ..afio
        }
    }

    open spec fn wired(port: u8, pin: u8) -> bool {
        port == PORT_B && (pin == 8 || pin == 9)
    }

    fn remap(afio: &mut Afio) {
        afio.rmp_cfg3.uart5_rmp = 3;
    }
}

impl<T> RemapIO<Uart5, UART5NoRemapRemapper> for PC12<T> {
    proof fn lemma_wired() {
    }
}

impl<T> RemapIO<Uart5, UART5NoRemapRemapper> for PD2<T> {
    proof fn lemma_wired() {
    }
}

impl<T> RemapIO<Uart5, UART5PartialRemapOneRemapper> for PB13<T> {
    proof fn lemma_wired() {
    }
}

impl<T> RemapIO<Uart5, UART5PartialRemapOneRemapper> for PB14<T> {
    proof fn lemma_wired() {
    }
}

impl<T> RemapIO<Uart5, UART5PartialRemapTwoRemapper> for PE8<T> {
    proof fn lemma_wired() {
    }
}

impl<T> RemapIO<Uart5, UART5PartialRemapTwoRemapper> for PE9<T> {
    proof fn lemma_wired() {
    }
}

impl<T> RemapIO<Uart5, UART5FullRemapRemapper> for PB8<T> {
    proof fn lemma_wired() {
    }
}

impl<T> RemapIO<Uart5, UART5FullRemapRemapper> for PB9<T> {
    proof fn lemma_wired() {
    }
}

/// Each pin that UART5 can use without remapping has its `RemapIO`.
pub proof fn lemma_uart5_no_remap_pins()
    ensures
        UART5NoRemapRemapper::wired(PORT_C, 12),
        UART5NoRemapRemapper::wired(PORT_D, 2),
{
    lemma_wired_pin::<PC12, Uart5, UART5NoRemapRemapper>();
    lemma_wired_pin::<PD2, Uart5, UART5NoRemapRemapper>();
}

/// Each pin that UART5 can use with the first partial remapping has its `RemapIO`.
pub proof fn lemma_uart5_partial_remap_one_pins()
    ensures
        UART5PartialRemapOneRemapper::wired(PORT_B, 13),
        UART5PartialRemapOneRemapper::wired(PORT_B, 14),
{
    lemma_wired_pin::<PB13, Uart5, UART5PartialRemapOneRemapper>();
    lemma_wired_pin::<PB14, Uart5, UART5PartialRemapOneRemapper>();
}

/// Each pin that UART5 can use with the second partial remapping has its `RemapIO`.
pub proof fn lemma_uart5_partial_remap_two_pins()
    ensures
        UART5PartialRemapTwoRemapper::wired(PORT_E, 8),
        UART5PartialRemapTwoRemapper::wired(PORT_E, 9),
{
    lemma_wired_pin::<PE8, Uart5, UART5PartialRemapTwoRemapper>();
    lemma_wired_pin::<PE9, Uart5, UART5PartialRemapTwoRemapper>();
}

/// Each pin that UART5 can use with the full remapping has its `RemapIO`.
pub proof fn lemma_uart5_full_remap_pins()
    ensures
        UART5FullRemapRemapper::wired(PORT_B, 8),
        UART5FullRemapRemapper::wired(PORT_B, 9),
{
    lemma_wired_pin::<PB8, Uart5, UART5FullRemapRemapper>();
    lemma_wired_pin::<PB9, Uart5, UART5FullRemapRemapper>();
}

/// Receive of Uart5: one of the pins that can carry it, in alternate mode
pub enum Rx<Otype = Floating> {
    Unconnected(NoPin<Otype>),
    PD2(PD2<Alternate<Otype>>),
    PB14(PB14<Alternate<Otype>>),
    PE9(PE9<Alternate<Otype>>),
    PB9(PB9<Alternate<Otype>>),
}

impl<Otype> Sealed for Rx<Otype> {

}

impl<Otype> ReadPin for Rx<Otype> {
    open spec fn spec_is_low(&self, gpio: Gpio) -> bool {
        match self {
            Self::PD2(p) => p.spec_is_low(gpio),
            Self::PB14(p) => p.spec_is_low(gpio),
            Self::PE9(p) => p.spec_is_low(gpio),
            Self::PB9(p) => p.spec_is_low(gpio),
            Self::Unconnected(_) => false,
        }
    }

    fn is_low(&self, gpio: &Gpio) -> (low: bool) {
        match self {
            Self::PD2(p) => p.is_low(gpio),
            Self::PB14(p) => p.is_low(gpio),
            Self::PE9(p) => p.is_low(gpio),
            Self::PB9(p) => p.is_low(gpio),
            Self::Unconnected(_) => false,
        }
    }
}

impl<Otype> PinSpeed for Rx<Otype> {
    open spec fn with_speed(&self, gpio: Gpio, speed: Speed) -> Gpio {
        match self {
            Self::PD2(p) => p.with_speed(gpio, speed),
            Self::PB14(p) => p.with_speed(gpio, speed),
            Self::PE9(p) => p.with_speed(gpio, speed),
            Self::PB9(p) => p.with_speed(gpio, speed),
            Self::Unconnected(_) => gpio,
        }
    }

    fn set_speed(&mut self, gpio: &mut Gpio, speed: Speed) {
        match self {
            Self::PD2(p) => PinSpeed::set_speed(p, gpio, speed),
            Self::PB14(p) => PinSpeed::set_speed(p, gpio, speed),
            Self::PE9(p) => PinSpeed::set_speed(p, gpio, speed),
            Self::PB9(p) => PinSpeed::set_speed(p, gpio, speed),
            Self::Unconnected(_) => {},
        }
    }
}

impl<Otype> Rx<Otype> {
    /// The signal without a pin.
    pub fn from_no_pin<T>(_no: NoPin<T>) -> (signal: Self)
        ensures
            signal is Unconnected,
    {
        Self::Unconnected(NoPin::new())
    }

    /// Puts `PD2` into alternate mode and takes it for the signal.
    pub fn from_pd2<MODE>(p: PD2<MODE>, gpio: &mut Gpio) -> (signal: Self) where
        MODE: NotAlt + PinMode,
        Alternate<Otype>: PinMode,

        ensures
            signal is PD2,
            *final(gpio) == after::<Alternate<Otype>>(*old(gpio), PORT_D, 2),
    {
        Self::PD2(p.into_mode(gpio))
    }

    /// Gives `PD2` back in mode `MODE`, if it carries the signal.
    pub fn try_into_pd2<MODE>(self, gpio: &mut Gpio) -> (pin: Result<PD2<MODE>, ()>) where
        MODE: PinMode,
        Alternate<Otype>: PinMode,

        ensures
            pin is Ok <==> self is PD2,
            pin is Ok ==> *final(gpio) == after::<MODE>(*old(gpio), PORT_D, 2),
            pin is Err ==> *final(gpio) == *old(gpio),
    {
        match self {
            Self::PD2(p) => Ok(p.into_mode(gpio)),
            _ => Err(()),
        }
    }

    /// Puts `PB14` into alternate mode and takes it for the signal.
    pub fn from_pb14<MODE>(p: PB14<MODE>, gpio: &mut Gpio) -> (signal: Self) where
        MODE: NotAlt + PinMode,
        Alternate<Otype>: PinMode,

        ensures
            signal is PB14,
            *final(gpio) == after::<Alternate<Otype>>(*old(gpio), PORT_B, 14),
    {
        Self::PB14(p.into_mode(gpio))
    }

    /// Gives `PB14` back in mode `MODE`, if it carries the signal.
    pub fn try_into_pb14<MODE>(self, gpio: &mut Gpio) -> (pin: Result<PB14<MODE>, ()>) where
        MODE: PinMode,
        Alternate<Otype>: PinMode,

        ensures
            pin is Ok <==> self is PB14,
            pin is Ok ==> *final(gpio) == after::<MODE>(*old(gpio), PORT_B, 14),
            pin is Err ==> *final(gpio) == *old(gpio),
    {
        match self {
            Self::PB14(p) => Ok(p.into_mode(gpio)),
            _ => Err(()),
        }
    }

    /// Puts `PE9` into alternate mode and takes it for the signal.
    pub fn from_pe9<MODE>(p: PE9<MODE>, gpio: &mut Gpio) -> (signal: Self) where
        MODE: NotAlt + PinMode,
        Alternate<Otype>: PinMode,

        ensures
            signal is PE9,
            *final(gpio) == after::<Alternate<Otype>>(*old(gpio), PORT_E, 9),
    {
        Self::PE9(p.into_mode(gpio))
    }

    /// Gives `PE9` back in mode `MODE`, if it carries the signal.
    pub fn try_into_pe9<MODE>(self, gpio: &mut Gpio) -> (pin: Result<PE9<MODE>, ()>) where
        MODE: PinMode,
        Alternate<Otype>: PinMode,

        ensures
            pin is Ok <==> self is PE9,
            pin is Ok ==> *final(gpio) == after::<MODE>(*old(gpio), PORT_E, 9),
            pin is Err ==> *final(gpio) == *old(gpio),
    {
        match self {
            Self::PE9(p) => Ok(p.into_mode(gpio)),
            _ => Err(()),
        }
    }

    /// Puts `PB9` into alternate mode and takes it for the signal.
    pub fn from_pb9<MODE>(p: PB9<MODE>, gpio: &mut Gpio) -> (signal: Self) where
        MODE: NotAlt + PinMode,
        Alternate<Otype>: PinMode,

        ensures
            signal is PB9,
            *final(gpio) == after::<Alternate<Otype>>(*old(gpio), PORT_B, 9),
    {
        Self::PB9(p.into_mode(gpio))
    }

    /// Gives `PB9` back in mode `MODE`, if it carries the signal.
    pub fn try_into_pb9<MODE>(self, gpio: &mut Gpio) -> (pin: Result<PB9<MODE>, ()>) where
        MODE: PinMode,
        Alternate<Otype>: PinMode,

        ensures
            pin is Ok <==> self is PB9,
            pin is Ok ==> *final(gpio) == after::<MODE>(*old(gpio), PORT_B, 9),
            pin is Err ==> *final(gpio) == *old(gpio),
    {
        match self {
            Self::PB9(p) => Ok(p.into_mode(gpio)),
            _ => Err(()),
        }
    }
}

impl<T, Otype> IntoSignal<Rx<Otype>> for NoPin<T> {
    open spec fn taken(gpio: Gpio) -> Gpio {
        gpio
    }

    fn into_signal(self, gpio: &mut Gpio) -> (signal: Rx<Otype>) {
        Rx::from_no_pin(self)
    }
}

impl<MODE, Otype> IntoSignal<Rx<Otype>> for PD2<MODE> where
    MODE: NotAlt + PinMode,
    Alternate<Otype>: PinMode,
 {
    open spec fn taken(gpio: Gpio) -> Gpio {
        after::<Alternate<Otype>>(gpio, PORT_D, 2)
    }

    fn into_signal(self, gpio: &mut Gpio) -> (signal: Rx<Otype>) {
        Rx::from_pd2(self, gpio)
    }
}

impl<Otype> IntoSignal<Rx<Otype>> for PD2<Alternate<Otype>> {
    open spec fn taken(gpio: Gpio) -> Gpio {
        gpio
    }

    fn into_signal(self, gpio: &mut Gpio) -> (signal: Rx<Otype>) {
        Rx::PD2(self)
    }
}

impl<MODE, Otype> IntoSignal<Rx<Otype>> for PB14<MODE> where
    MODE: NotAlt + PinMode,
    Alternate<Otype>: PinMode,
 {
    open spec fn taken(gpio: Gpio) -> Gpio {
        after::<Alternate<Otype>>(gpio, PORT_B, 14)
    }

    fn into_signal(self, gpio: &mut Gpio) -> (signal: Rx<Otype>) {
        Rx::from_pb14(self, gpio)
    }
}

impl<Otype> IntoSignal<Rx<Otype>> for PB14<Alternate<Otype>> {
    open spec fn taken(gpio: Gpio) -> Gpio {
        gpio
    }

    fn into_signal(self, gpio: &mut Gpio) -> (signal: Rx<Otype>) {
        Rx::PB14(self)
    }
}

impl<MODE, Otype> IntoSignal<Rx<Otype>> for PE9<MODE> where
    MODE: NotAlt + PinMode,
    Alternate<Otype>: PinMode,
 {
    open spec fn taken(gpio: Gpio) -> Gpio {
        after::<Alternate<Otype>>(gpio, PORT_E, 9)
    }

    fn into_signal(self, gpio: &mut Gpio) -> (signal: Rx<Otype>) {
        Rx::from_pe9(self, gpio)
    }
}

impl<Otype> IntoSignal<Rx<Otype>> for PE9<Alternate<Otype>> {
    open spec fn taken(gpio: Gpio) -> Gpio {
        gpio
    }

    fn into_signal(self, gpio: &mut Gpio) -> (signal: Rx<Otype>) {
        Rx::PE9(self)
    }
}

impl<MODE, Otype> IntoSignal<Rx<Otype>> for PB9<MODE> where
    MODE: NotAlt + PinMode,
    Alternate<Otype>: PinMode,
 {
    open spec fn taken(gpio: Gpio) -> Gpio {
        after::<Alternate<Otype>>(gpio, PORT_B, 9)
    }

    fn into_signal(self, gpio: &mut Gpio) -> (signal: Rx<Otype>) {
        Rx::from_pb9(self, gpio)
    }
}

impl<Otype> IntoSignal<Rx<Otype>> for PB9<Alternate<Otype>> {
    open spec fn taken(gpio: Gpio) -> Gpio {
        gpio
    }

    fn into_signal(self, gpio: &mut Gpio) -> (signal: Rx<Otype>) {
        Rx::PB9(self)
    }
}

/// Transmit of Uart5: one of the pins that can carry it, in alternate mode
pub enum Tx<Otype = PushPull> {
    Unconnected(NoPin<Otype>),
    PC12(PC12<Alternate<Otype>>),
    PB13(PB13<Alternate<Otype>>),
    PE8(PE8<Alternate<Otype>>),
    PB8(PB8<Alternate<Otype>>),
}

impl<Otype> Sealed for Tx<Otype> {

}

impl<Otype> ReadPin for Tx<Otype> {
    open spec fn spec_is_low(&self, gpio: Gpio) -> bool {
        match self {
            Self::PC12(p) => p.spec_is_low(gpio),
            Self::PB13(p) => p.spec_is_low(gpio),
            Self::PE8(p) => p.spec_is_low(gpio),
            Self::PB8(p) => p.spec_is_low(gpio),
            Self::Unconnected(_) => false,
        }
    }

    fn is_low(&self, gpio: &Gpio) -> (low: bool) {
        match self {
            Self::PC12(p) => p.is_low(gpio),
            Self::PB13(p) => p.is_low(gpio),
            Self::PE8(p) => p.is_low(gpio),
            Self::PB8(p) => p.is_low(gpio),
            Self::Unconnected(_) => false,
        }
    }
}

impl<Otype> PinSpeed for Tx<Otype> {
    open spec fn with_speed(&self, gpio: Gpio, speed: Speed) -> Gpio {
        match self {
            Self::PC12(p) => p.with_speed(gpio, speed),
            Self::PB13(p) => p.with_speed(gpio, speed),
            Self::PE8(p) => p.with_speed(gpio, speed),
            Self::PB8(p) => p.with_speed(gpio, speed),
            Self::Unconnected(_) => gpio,
        }
    }

    fn set_speed(&mut self, gpio: &mut Gpio, speed: Speed) {
        match self {
            Self::PC12(p) => PinSpeed::set_speed(p, gpio, speed),
            Self::PB13(p) => PinSpeed::set_speed(p, gpio, speed),
            Self::PE8(p) => PinSpeed::set_speed(p, gpio, speed),
            Self::PB8(p) => PinSpeed::set_speed(p, gpio, speed),
            Self::Unconnected(_) => {},
        }
    }
}

impl<Otype> Tx<Otype> {
    /// The signal without a pin.
    pub fn from_no_pin<T>(_no: NoPin<T>) -> (signal: Self)
        ensures
            signal is Unconnected,
    {
        Self::Unconnected(NoPin::new())
    }

    /// Puts `PC12` into alternate mode and takes it for the signal.
    pub fn from_pc12<MODE>(p: PC12<MODE>, gpio: &mut Gpio) -> (signal: Self) where
        MODE: NotAlt + PinMode,
        Alternate<Otype>: PinMode,

        ensures
            signal is PC12,
            *final(gpio) == after::<Alternate<Otype>>(*old(gpio), PORT_C, 12),
    {
        Self::PC12(p.into_mode(gpio))
    }

    /// Gives `PC12` back in mode `MODE`, if it carries the signal.
    pub fn try_into_pc12<MODE>(self, gpio: &mut Gpio) -> (pin: Result<PC12<MODE>, ()>) where
        MODE: PinMode,
        Alternate<Otype>: PinMode,

        ensures
            pin is Ok <==> self is PC12,
            pin is Ok ==> *final(gpio) == after::<MODE>(*old(gpio), PORT_C, 12),
            pin is Err ==> *final(gpio) == *old(gpio),
    {
        match self {
            Self::PC12(p) => Ok(p.into_mode(gpio)),
            _ => Err(()),
        }
    }

    /// Puts `PB13` into alternate mode and takes it for the signal.
    pub fn from_pb13<MODE>(p: PB13<MODE>, gpio: &mut Gpio) -> (signal: Self) where
        MODE: NotAlt + PinMode,
        Alternate<Otype>: PinMode,

        ensures
            signal is PB13,
            *final(gpio) == after::<Alternate<Otype>>(*old(gpio), PORT_B, 13),
    {
        Self::PB13(p.into_mode(gpio))
    }

    /// Gives `PB13` back in mode `MODE`, if it carries the signal.
    pub fn try_into_pb13<MODE>(self, gpio: &mut Gpio) -> (pin: Result<PB13<MODE>, ()>) where
        MODE: PinMode,
        Alternate<Otype>: PinMode,

        ensures
            pin is Ok <==> self is PB13,
            pin is Ok ==> *final(gpio) == after::<MODE>(*old(gpio), PORT_B, 13),
            pin is Err ==> *final(gpio) == *old(gpio),
    {
        match self {
            Self::PB13(p) => Ok(p.into_mode(gpio)),
            _ => Err(()),
        }
    }

    /// Puts `PE8` into alternate mode and takes it for the signal.
    pub fn from_pe8<MODE>(p: PE8<MODE>, gpio: &mut Gpio) -> (signal: Self) where
        MODE: NotAlt + PinMode,
        Alternate<Otype>: PinMode,

        ensures
            signal is PE8,
            *final(gpio) == after::<Alternate<Otype>>(*old(gpio), PORT_E, 8),
    {
        Self::PE8(p.into_mode(gpio))
    }

    /// Gives `PE8` back in mode `MODE`, if it carries the signal.
    pub fn try_into_pe8<MODE>(self, gpio: &mut Gpio) -> (pin: Result<PE8<MODE>, ()>) where
        MODE: PinMode,
        Alternate<Otype>: PinMode,

        ensures
            pin is Ok <==> self is PE8,
            pin is Ok ==> *final(gpio) == after::<MODE>(*old(gpio), PORT_E, 8),
            pin is Err ==> *final(gpio) == *old(gpio),
    {
        match self {
            Self::PE8(p) => Ok(p.into_mode(gpio)),
            _ => Err(()),
        }
    }

    /// Puts `PB8` into alternate mode and takes it for the signal.
    pub fn from_pb8<MODE>(p: PB8<MODE>, gpio: &mut Gpio) -> (signal: Self) where
        MODE: NotAlt + PinMode,
        Alternate<Otype>: PinMode,

        ensures
            signal is PB8,
            *final(gpio) == after::<Alternate<Otype>>(*old(gpio), PORT_B, 8),
    {
        Self::PB8(p.into_mode(gpio))
    }

    /// Gives `PB8` back in mode `MODE`, if it carries the signal.
    pub fn try_into_pb8<MODE>(self, gpio: &mut Gpio) -> (pin: Result<PB8<MODE>, ()>) where
        MODE: PinMode,
        Alternate<Otype>: PinMode,

        ensures
            pin is Ok <==> self is PB8,
            pin is Ok ==> *final(gpio) == after::<MODE>(*old(gpio), PORT_B, 8),
            pin is Err ==> *final(gpio) == *old(gpio),
    {
        match self {
            Self::PB8(p) => Ok(p.into_mode(gpio)),
            _ => Err(()),
        }
    }
}

impl<T, Otype> IntoSignal<Tx<Otype>> for NoPin<T> {
    open spec fn taken(gpio: Gpio) -> Gpio {
        gpio
    }

    fn into_signal(self, gpio: &mut Gpio) -> (signal: Tx<Otype>) {
        Tx::from_no_pin(self)
    }
}

impl<MODE, Otype> IntoSignal<Tx<Otype>> for PC12<MODE> where
    MODE: NotAlt + PinMode,
    Alternate<Otype>: PinMode,
 {
    open spec fn taken(gpio: Gpio) -> Gpio {
        after::<Alternate<Otype>>(gpio, PORT_C, 12)
    }

    fn into_signal(self, gpio: &mut Gpio) -> (signal: Tx<Otype>) {
        Tx::from_pc12(self, gpio)
    }
}

impl<Otype> IntoSignal<Tx<Otype>> for PC12<Alternate<Otype>> {
    open spec fn taken(gpio: Gpio) -> Gpio {
        gpio
    }

    fn into_signal(self, gpio: &mut Gpio) -> (signal: Tx<Otype>) {
        Tx::PC12(self)
    }
}

impl<MODE, Otype> IntoSignal<Tx<Otype>> for PB13<MODE> where
    MODE: NotAlt + PinMode,
    Alternate<Otype>: PinMode,
 {
    open spec fn taken(gpio: Gpio) -> Gpio {
        after::<Alternate<Otype>>(gpio, PORT_B, 13)
    }

    fn into_signal(self, gpio: &mut Gpio) -> (signal: Tx<Otype>) {
        Tx::from_pb13(self, gpio)
    }
}

impl<Otype> IntoSignal<Tx<Otype>> for PB13<Alternate<Otype>> {
    open spec fn taken(gpio: Gpio) -> Gpio {
        gpio
    }

    fn into_signal(self, gpio: &mut Gpio) -> (signal: Tx<Otype>) {
        Tx::PB13(self)
    }
}

impl<MODE, Otype> IntoSignal<Tx<Otype>> for PE8<MODE> where
    MODE: NotAlt + PinMode,
    Alternate<Otype>: PinMode,
 {
    open spec fn taken(gpio: Gpio) -> Gpio {
        after::<Alternate<Otype>>(gpio, PORT_E, 8)
    }

    fn into_signal(self, gpio: &mut Gpio) -> (signal: Tx<Otype>) {
        Tx::from_pe8(self, gpio)
    }
}

impl<Otype> IntoSignal<Tx<Otype>> for PE8<Alternate<Otype>> {
    open spec fn taken(gpio: Gpio) -> Gpio {
        gpio
    }

    fn into_signal(self, gpio: &mut Gpio) -> (signal: Tx<Otype>) {
        Tx::PE8(self)
    }
}

impl<MODE, Otype> IntoSignal<Tx<Otype>> for PB8<MODE> where
    MODE: NotAlt + PinMode,
    Alternate<Otype>: PinMode,
 {
    open spec fn taken(gpio: Gpio) -> Gpio {
        after::<Alternate<Otype>>(gpio, PORT_B, 8)
    }

    fn into_signal(self, gpio: &mut Gpio) -> (signal: Tx<Otype>) {
        Tx::from_pb8(self, gpio)
    }
}

impl<Otype> IntoSignal<Tx<Otype>> for PB8<Alternate<Otype>> {
    open spec fn taken(gpio: Gpio) -> Gpio {
        gpio
    }

    fn into_signal(self, gpio: &mut Gpio) -> (signal: Tx<Otype>) {
        Tx::PB8(self)
    }
}

impl<Itype, Otype> SerialAsync<Itype, Otype> for Uart5 {
    type Rx = Rx<Input<Itype>>;

    type Tx = Tx<Otype>;
}

} // verus!
