//! General Purpose Input / Output
//!
//! The GPIO pins are organised into groups of 16 pins which can be accessed through the
//! `gpioa`, `gpiob`... modules. To get access to the pins, you first need to convert them into a
//! HAL designed struct from the `pac` struct using the [split](trait.GpioExt.html#tymethod.split) function.
//!
//! This gives you a struct containing all the pins `px0..px15`.
//! By default pins are in floating input mode. You can change their modes.
//! For example, to set `pa5` high, you would call
//!
//! ```text
//! let mut output = gpioa.pa5.into_push_pull_output(&mut gpio);
//! output.set_high(&mut gpio);
//! ```
//!
//! Every operation that reaches the hardware takes the GPIO registers
//! ([`crate::pac::Gpio`]) as an argument and says in its contract what it
//! does to them.
//!
//! ## Modes
//!
//! Each GPIO pin can be set to various modes:
//!
//! - **Alternate**: Pin mode required when the pin is driven by other peripherals
//! - **Analog**: Analog input to be used with ADC.
//! - **Dynamic**: Pin mode is selected at runtime.
//! - Input
//!     - **PullUp**: Input connected to high with a weak pull up resistor. Will be high when nothing
//!     is connected
//!     - **PullDown**: Input connected to low with a weak pull down resistor. Will be low when nothing
//!     is connected
//!     - **Floating**: Input not pulled to high or low. Will be undefined when nothing is connected
//! - Output
//!     - **PushPull**: Output which either drives the pin high or low
//!     - **OpenDrain**: Output which either pulls the pin to ground or lets it float. Can be
//!     read as an input while it floats
//!
//! ## Changing modes
//! The simplest way to change the pin mode is to use the `into_<mode>` functions. These return a
//! new struct with the correct mode that you can use the input or output functions on.
//!
//! If you need a more temporary mode change, and can not use the `into_<mode>` functions for
//! ownership reasons, you can use the closure based `with_<mode>` functions to temporarily change the pin type, do
//! some output or input, and then have it change back once done.

use vstd::prelude::*;
use core::marker::PhantomData;
use crate::pac::Gpio;
use crate::pac::GpioPort;
use port::gpiox;
use port::is_port;
use port::lemma_output_writes;
use port::read_port;

pub mod alt;
pub mod convert;
pub mod dynamic;
pub mod erased;
pub mod gpioa;
pub mod gpiob;
pub mod gpioc;
pub mod gpiod;
pub mod gpioe;
pub mod gpiof;
pub mod gpiog;
pub mod laws;
pub mod marker;
pub mod partially_erased;
pub mod port;

pub use convert::PinMode;
pub use dynamic::Dynamic;
pub use dynamic::DynamicPin;
pub use erased::ErasedPin;
pub use partially_erased::PartiallyErasedPin;
pub use gpioa::PA0;
pub use gpioa::PA1;
pub use gpioa::PA2;
pub use gpioa::PA3;
pub use gpioa::PA4;
pub use gpioa::PA5;
pub use gpioa::PA6;
pub use gpioa::PA7;
pub use gpioa::PA8;
pub use gpioa::PA9;
pub use gpioa::PA10;
pub use gpioa::PA11;
pub use gpioa::PA12;
pub use gpioa::PA13;
pub use gpioa::PA14;
pub use gpioa::PA15;
pub use gpiob::PB0;
pub use gpiob::PB1;
pub use gpiob::PB2;
pub use gpiob::PB3;
pub use gpiob::PB4;
pub use gpiob::PB5;
pub use gpiob::PB6;
pub use gpiob::PB7;
pub use gpiob::PB8;
pub use gpiob::PB9;
pub use gpiob::PB10;
pub use gpiob::PB11;
pub use gpiob::PB12;
pub use gpiob::PB13;
pub use gpiob::PB14;
pub use gpiob::PB15;
pub use gpioc::PC0;
pub use gpioc::PC1;
pub use gpioc::PC2;
pub use gpioc::PC3;
pub use gpioc::PC4;
pub use gpioc::PC5;
pub use gpioc::PC6;
pub use gpioc::PC7;
pub use gpioc::PC8;
pub use gpioc::PC9;
pub use gpioc::PC10;
pub use gpioc::PC11;
pub use gpioc::PC12;
pub use gpioc::PC13;
pub use gpioc::PC14;
pub use gpioc::PC15;
pub use gpiod::PD0;
pub use gpiod::PD1;
pub use gpiod::PD2;
pub use gpiod::PD3;
pub use gpiod::PD4;
pub use gpiod::PD5;
pub use gpiod::PD6;
pub use gpiod::PD7;
pub use gpiod::PD8;
pub use gpiod::PD9;
pub use gpiod::PD10;
pub use gpiod::PD11;
pub use gpiod::PD12;
pub use gpiod::PD13;
pub use gpiod::PD14;
pub use gpiod::PD15;
pub use gpioe::PE0;
pub use gpioe::PE1;
pub use gpioe::PE2;
pub use gpioe::PE3;
pub use gpioe::PE4;
pub use gpioe::PE5;
pub use gpioe::PE6;
pub use gpioe::PE7;
pub use gpioe::PE8;
pub use gpioe::PE9;
pub use gpioe::PE10;
pub use gpioe::PE11;
pub use gpioe::PE12;
pub use gpioe::PE13;
pub use gpioe::PE14;
pub use gpioe::PE15;
pub use gpiof::PF0;
pub use gpiof::PF1;
pub use gpiof::PF2;
pub use gpiof::PF3;
pub use gpiof::PF4;
pub use gpiof::PF5;
pub use gpiof::PF6;
pub use gpiof::PF7;
pub use gpiof::PF8;
pub use gpiof::PF9;
pub use gpiof::PF10;
pub use gpiof::PF11;
pub use gpiof::PF12;
pub use gpiof::PF13;
pub use gpiof::PF14;
pub use gpiof::PF15;
pub use gpiog::PG0;
pub use gpiog::PG1;
pub use gpiog::PG2;
pub use gpiog::PG3;
pub use gpiog::PG4;
pub use gpiog::PG5;
pub use gpiog::PG6;
pub use gpiog::PG7;
pub use gpiog::PG8;
pub use gpiog::PG9;
pub use gpiog::PG10;
pub use gpiog::PG11;
pub use gpiog::PG12;
pub use gpiog::PG13;
pub use gpiog::PG14;
pub use gpiog::PG15;

verus! {

/// Electrical level of a pin
#[derive(Clone, Copy, PartialEq, Eq, Structural, Debug)]
pub enum PinState {
    /// Low pin state
    Low,
    /// High pin state
    High,
}

/// A filler pin type
#[derive(Debug, Default)]
pub struct NoPin<Otype = PushPull>(pub PhantomData<Otype>);

impl<T> NoPin<T> {
    pub fn new() -> Self {
        Self(PhantomData)
    }
}

/// Extension trait to split a GPIO peripheral in independent pins and registers
pub trait GpioExt: crate::rcc::Enable + crate::rcc::Reset {
    /// The parts to split the GPIO into
    type Parts;

    /// Splits the GPIO block into independent pins and registers, after
    /// enabling the port's clock and resetting the port.
    fn split(self, rcc: &mut crate::pac::Rcc) -> (parts: Self::Parts)
        ensures
            *final(rcc) == crate::rcc::after_reset::<Self>(
                crate::rcc::after_enable::<Self>(*old(rcc)),
            ),
    ;
}

/// Id, port and mode for any pin
pub trait PinExt {
    /// Current pin mode
    type Mode;

    /// The pin's number within its port.
    spec fn spec_pin_id(&self) -> u8;

    /// The pin's port, counted from 0 for port A.
    spec fn spec_port_id(&self) -> u8;

    /// Pin number
    fn pin_id(&self) -> (n: u8)
        ensures
            n == self.spec_pin_id(),
            n < 16,
    ;

    /// Port number starting from 0
    fn port_id(&self) -> (p: u8)
        ensures
            p == self.spec_port_id(),
            p < 7,
    ;
}

/// Some alternate mode (type state)
#[derive(Debug, Default)]
pub struct Alternate<Otype>(pub PhantomData<Otype>);

/// Input mode (type state)
#[derive(Debug, Default)]
pub struct Input<Pull = Floating>(pub PhantomData<Pull>);

/// Floating input (type state)
#[derive(Debug, Default)]
pub struct Floating;

/// Pulled down input (type state)
#[derive(Debug, Default)]
pub struct PullDown;

/// Pulled up input (type state)
#[derive(Debug, Default)]
pub struct PullUp;

/// Open drain input or output (type state)
#[derive(Debug, Default)]
pub struct OpenDrain;

/// Output mode (type state)
#[derive(Debug, Default)]
pub struct Output<MODE = PushPull> {
    _mode: PhantomData<MODE>,
}

/// Push pull output (type state)
#[derive(Debug, Default)]
pub struct PushPull;

/// Analog mode (type state)
#[derive(Debug, Default)]
pub struct Analog;

/// JTAG/SWD mote (type state)
pub type Debugger = Alternate<PushPull>;

impl<MODE> marker::Interruptible for Output<MODE> {

}

impl<Pull> marker::Interruptible for Input<Pull> {

}

impl<Pull> marker::Readable for Input<Pull> {

}

impl marker::Readable for Output<OpenDrain> {

}

impl<Otype> marker::Interruptible for Alternate<Otype> {

}

impl<Otype> marker::Readable for Alternate<Otype> {

}

impl<Pull> marker::Active for Input<Pull> {

}

impl<Otype> marker::OutputSpeed for Output<Otype> {

}

impl<Otype> marker::OutputSpeed for Alternate<Otype> {

}

impl<Otype> marker::Active for Output<Otype> {

}

impl<Otype> marker::Active for Alternate<Otype> {

}

impl<Pull> marker::NotAlt for Input<Pull> {

}

impl<Otype> marker::NotAlt for Output<Otype> {

}

impl marker::NotAlt for Analog {

}

/// GPIO Pin speed selection
#[derive(Debug, PartialEq, Eq, Structural, Clone, Copy)]
pub enum Speed {
    /// Low speed
    Low,
    /// Medium speed
    Medium,
    /// High speed
    High,
}

impl Speed {
    /// The two bits that select the speed.
    pub open spec fn spec_bits(self) -> u32 {
        match self {
            Speed::Low => 1,
            Speed::Medium => 2,
            Speed::High => 3,
        }
    }

    /// The two bits that select the speed.
    #[verifier::when_used_as_spec(spec_bits)]
    pub fn bits(self) -> (bits: u32)
        ensures
            bits == self.spec_bits(),
            1 <= bits <= 3,
    {
        match self {
            Speed::Low => 1,
            Speed::Medium => 2,
            Speed::High => 3,
        }
    }
}

/// GPIO interrupt trigger edge selection
#[derive(Debug, PartialEq, Eq, Structural, Clone, Copy)]
pub enum Edge {
    /// Rising edge of voltage
    Rising,
    /// Falling edge of voltage
    Falling,
    /// Rising and falling edge of voltage
    RisingFalling,
}

/// `word` with the two speed bits of pin `n` replaced.
pub open spec fn with_speed_bits(word: u32, n: u8, bits: u32) -> u32
    recommends
        n < 16,
{
    (word & !(3u32 << ((2 * n) as u32))) | (bits << ((2 * n) as u32))
}

impl GpioPort {
    /// The port with the speed of pin `n` set.
    pub open spec fn with_speed(self, n: u8, speed: Speed) -> GpioPort
        recommends
            n < 16,
    {
        if n < 8 {
            GpioPort { pl_cfg: with_speed_bits(self.pl_cfg, n, speed.spec_bits()), ..self }
        } else {
            GpioPort { ph_cfg: with_speed_bits(self.ph_cfg, n, speed.spec_bits()), ..self }
        }
    }
}

/// Generic pin type
///
/// - `MODE` is one of the pin modes (see [Modes](crate::gpio#modes) section).
/// - `P` is port name: `PORT_A` for GPIOA, `PORT_B` for GPIOB, etc.
/// - `N` is pin number: from `0` to `15`.
pub struct Pin<const P: u8, const N: u8, MODE = Input<Floating>> {
    _mode: PhantomData<MODE>,
}

impl<const P: u8, const N: u8, MODE> Pin<P, N, MODE> {
    /// A pin exists only on one of the ports A to G and with a number below 16.
    #[verifier::type_invariant]
    pub closed spec fn located(self) -> bool {
        is_port(P) && N < 16
    }

    pub(crate) fn new() -> (pin: Self)
        requires
            is_port(P),
            N < 16,
    {
        Self { _mode: PhantomData }
    }

    /// The pin's name: `P`, the port's letter and the pin's number.
    pub fn name(&self) -> (name: (char, char, u8))
        ensures
            name == ('P', P as char, N),
    {
        ('P', P as char, N)
    }
}

impl<const P: u8, const N: u8, MODE> PinExt for Pin<P, N, MODE> {
    type Mode = MODE;

    open spec fn spec_pin_id(&self) -> u8 {
        N
    }

    open spec fn spec_port_id(&self) -> u8 {
        (P - port::PORT_A) as u8
    }

    fn pin_id(&self) -> (n: u8) {
        proof {
            use_type_invariant(self);
        }
        N
    }

    fn port_id(&self) -> (p: u8) {
        proof {
            use_type_invariant(self);
        }
        P - port::PORT_A
    }
}

/// Pins whose slew rate can be set
pub trait PinSpeed: Sized {
    /// The GPIO registers after the pin's speed was set.
    spec fn with_speed(&self, gpio: Gpio, speed: Speed) -> Gpio;

    /// Set pin speed
    fn set_speed(&mut self, gpio: &mut Gpio, speed: Speed)
        ensures
            *final(gpio) == old(self).with_speed(*old(gpio), speed),
    ;

    /// Set pin speed
    fn speed(self, gpio: &mut Gpio, speed: Speed) -> (pin: Self)
        ensures
            *final(gpio) == self.with_speed(*old(gpio), speed),
    {
        let mut pin = self;
        pin.set_speed(gpio, speed);
        pin
    }
}

impl<const P: u8, const N: u8, MODE> PinSpeed for Pin<P, N, MODE> where MODE: marker::OutputSpeed {
    open spec fn with_speed(&self, gpio: Gpio, speed: Speed) -> Gpio {
        gpio.with_port(P, gpio.port(P).with_speed(N, speed))
    }

    fn set_speed(&mut self, gpio: &mut Gpio, speed: Speed) {
        Pin::set_speed(self, gpio, speed)
    }
}

impl<const P: u8, const N: u8, MODE> Pin<P, N, MODE> where MODE: marker::OutputSpeed {
    /// Set pin speed
    pub fn set_speed(&mut self, gpio: &mut Gpio, speed: Speed)
        ensures
            *final(gpio) == old(gpio).with_port(P, old(gpio).port(P).with_speed(N, speed)),
    {
        proof {
            use_type_invariant(&*self);
        }
        let offset: u32 = 2 * (N as u32);
        let registers = gpiox::<P>(gpio);
        if N < 8 {
            registers.pl_cfg = (registers.pl_cfg & !(3u32 << offset)) | (speed.bits() << offset);
        } else {
            registers.ph_cfg = (registers.ph_cfg & !(3u32 << offset)) | (speed.bits() << offset);
        }
    }

    /// Set pin speed
    pub fn speed(self, gpio: &mut Gpio, speed: Speed) -> (pin: Self)
        ensures
            *final(gpio) == old(gpio).with_port(P, old(gpio).port(P).with_speed(N, speed)),
    {
        let mut pin = self;
        pin.set_speed(gpio, speed);
        pin
    }
}

impl<const P: u8, const N: u8, MODE> Pin<P, N, MODE> {
    /// Erases the pin number from the type
    ///
    /// This is useful when you want to collect the pins into an array where you
    /// need all the elements to have the same type
    pub fn erase_number(self) -> (pin: PartiallyErasedPin<P, MODE>)
        ensures
            pin.spec_pin_id() == N,
            pin.spec_port_id() == P - port::PORT_A,
    {
        proof {
            use_type_invariant(&self);
        }
        PartiallyErasedPin::new(N)
    }

    /// Erases the pin number and the port from the type
    ///
    /// This is useful when you want to collect the pins into an array where you
    /// need all the elements to have the same type
    pub fn erase(self) -> (pin: ErasedPin<MODE>)
        ensures
            pin.spec_pin_id() == N,
            pin.spec_port_id() == P - port::PORT_A,
    {
        proof {
            use_type_invariant(&self);
        }
        ErasedPin::new(P - port::PORT_A, N)
    }
}

impl<const P: u8, const N: u8, MODE> Pin<P, N, MODE> {
    /// Set the output of the pin regardless of its mode.
    /// Primarily used to set the output value of the pin
    /// before changing its mode to an output to avoid
    /// a short spike of an incorrect value
    pub(crate) fn _set_state(&mut self, gpio: &mut Gpio, state: PinState)
        ensures
            *final(gpio) == old(gpio).with_output(P, N, state == PinState::High),
    {
        match state {
            PinState::High => self._set_high(gpio),
            PinState::Low => self._set_low(gpio),
        }
    }

    pub(crate) fn _set_high(&mut self, gpio: &mut Gpio)
        ensures
            *final(gpio) == old(gpio).with_output(P, N, true),
    {
        proof {
            use_type_invariant(&*self);
            lemma_output_writes(gpio.port(P).pod, N);
        }
        gpiox::<P>(gpio).write_pbsc(1u32 << (N as u32));
    }

    pub(crate) fn _set_low(&mut self, gpio: &mut Gpio)
        ensures
            *final(gpio) == old(gpio).with_output(P, N, false),
    {
        proof {
            use_type_invariant(&*self);
            lemma_output_writes(gpio.port(P).pod, N);
        }
        gpiox::<P>(gpio).write_pbsc(1u32 << ((16 + N) as u32));
    }

    pub(crate) fn _is_set_low(&self, gpio: &Gpio) -> (low: bool)
        ensures
            low == !gpio.port(P).output_high(N),
    {
        proof {
            use_type_invariant(self);
        }
        read_port(gpio, P).pod & (1u32 << (N as u32)) == 0
    }

    pub(crate) fn _is_low(&self, gpio: &Gpio) -> (low: bool)
        ensures
            low == !gpio.port(P).input_high(N),
    {
        proof {
            use_type_invariant(self);
        }
        read_port(gpio, P).pid & (1u32 << (N as u32)) == 0
    }
}

impl<const P: u8, const N: u8, MODE> Pin<P, N, Output<MODE>> {
    /// Drives the pin high
    pub fn set_high(&mut self, gpio: &mut Gpio)
        ensures
            *final(gpio) == old(gpio).with_output(P, N, true),
            final(gpio).port(P).output_high(N),
    {
        proof {
            use_type_invariant(&*self);
            lemma_output_writes(gpio.port(P).pod, N);
        }
        self._set_high(gpio)
    }

    /// Drives the pin low
    pub fn set_low(&mut self, gpio: &mut Gpio)
        ensures
            *final(gpio) == old(gpio).with_output(P, N, false),
            !final(gpio).port(P).output_high(N),
    {
        proof {
            use_type_invariant(&*self);
            lemma_output_writes(gpio.port(P).pod, N);
        }
        self._set_low(gpio)
    }

    /// Is the pin in drive high or low mode?
    pub fn get_state(&self, gpio: &Gpio) -> (state: PinState)
        ensures
            state == if gpio.port(P).output_high(N) {
                PinState::High
            } else {
                PinState::Low
            },
    {
        if self.is_set_low(gpio) {
            PinState::Low
        } else {
            PinState::High
        }
    }

    /// Drives the pin high or low depending on the provided value
    pub fn set_state(&mut self, gpio: &mut Gpio, state: PinState)
        ensures
            *final(gpio) == old(gpio).with_output(P, N, state == PinState::High),
            final(gpio).port(P).output_high(N) == (state == PinState::High),
    {
        match state {
            PinState::Low => self.set_low(gpio),
            PinState::High => self.set_high(gpio),
        }
    }

    /// Is the pin in drive high mode?
    pub fn is_set_high(&self, gpio: &Gpio) -> (high: bool)
        ensures
            high == gpio.port(P).output_high(N),
    {
        !self.is_set_low(gpio)
    }

    /// Is the pin in drive low mode?
    pub fn is_set_low(&self, gpio: &Gpio) -> (low: bool)
        ensures
            low == !gpio.port(P).output_high(N),
    {
        self._is_set_low(gpio)
    }

    /// Toggle pin output
    pub fn toggle(&mut self, gpio: &mut Gpio)
        ensures
            *final(gpio) == old(gpio).with_output(P, N, !old(gpio).port(P).output_high(N)),
            final(gpio).port(P).output_high(N) == !old(gpio).port(P).output_high(N),
    {
        if self.is_set_low(gpio) {
            self.set_high(gpio)
        } else {
            self.set_low(gpio)
        }
    }
}

/// Pins whose input level can be read
pub trait ReadPin {
    /// Whether the pin's input is low for given registers.
    spec fn spec_is_low(&self, gpio: Gpio) -> bool;

    /// Is the input pin high?
    fn is_high(&self, gpio: &Gpio) -> (high: bool)
        ensures
            high == !self.spec_is_low(*gpio),
    {
        !self.is_low(gpio)
    }

    /// Is the input pin low?
    fn is_low(&self, gpio: &Gpio) -> (low: bool)
        ensures
            low == self.spec_is_low(*gpio),
    ;
}

impl<const P: u8, const N: u8, MODE> ReadPin for Pin<P, N, MODE> where MODE: marker::Readable {
    open spec fn spec_is_low(&self, gpio: Gpio) -> bool {
        !gpio.port(P).input_high(N)
    }

    fn is_low(&self, gpio: &Gpio) -> (low: bool) {
        Pin::is_low(self, gpio)
    }
}

impl<const P: u8, const N: u8, MODE> Pin<P, N, MODE> where MODE: marker::Readable {
    /// Is the input pin high?
    pub fn is_high(&self, gpio: &Gpio) -> (high: bool)
        ensures
            high == gpio.port(P).input_high(N),
    {
        !self.is_low(gpio)
    }

    /// Is the input pin low?
    pub fn is_low(&self, gpio: &Gpio) -> (low: bool)
        ensures
            low == !gpio.port(P).input_high(N),
    {
        self._is_low(gpio)
    }
}

} // verus!
