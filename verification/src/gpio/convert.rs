//! Changing a pin's mode.

use vstd::prelude::*;
use crate::gpio::port::gpiox;
use crate::gpio::port::lemma_mode_field_fits;
use crate::gpio::port::lemma_output_writes;
use crate::gpio::port::mode_field;
use crate::gpio::port::port_of;
use crate::gpio::port::PullResistor;
use crate::gpio::port::PORT_A;
use crate::gpio::Alternate;
use crate::gpio::Analog;
use crate::gpio::Dynamic;
use crate::gpio::DynamicPin;
use crate::gpio::ErasedPin;
use crate::gpio::Floating;
use crate::gpio::Input;
use crate::gpio::OpenDrain;
use crate::gpio::Output;
use crate::gpio::PartiallyErasedPin;
use crate::gpio::Pin;
use crate::gpio::PinExt;
use crate::gpio::PinState;
use crate::gpio::PullDown;
use crate::gpio::PullUp;
use crate::gpio::PushPull;
use crate::pac::Gpio;
use crate::pac::GpioPort;

verus! {

/// Marker trait for valid pin modes (type state).
///
/// A mode fixes what the hardware holds for a pin in that mode: the two
/// `CNF` bits, the two `MODE` bits, and the direction of the pull resistor
/// where the mode has one.
pub trait PinMode: Default {
    const CNF: u32;

    const MODE: u32;

    const PULL: PullResistor;
}

impl PinMode for Input<Floating> {
    const CNF: u32 = 0b01;

    const MODE: u32 = 0b00;

    const PULL: PullResistor = PullResistor::Off;
}

impl PinMode for Input<PullDown> {
    const CNF: u32 = 0b10;

    const MODE: u32 = 0b00;

    const PULL: PullResistor = PullResistor::Down;
}

impl PinMode for Input<PullUp> {
    const CNF: u32 = 0b10;

    const MODE: u32 = 0b00;

    const PULL: PullResistor = PullResistor::Up;
}

impl PinMode for Output<OpenDrain> {
    const CNF: u32 = 0b01;

    const MODE: u32 = 0b11;

    const PULL: PullResistor = PullResistor::Off;
}

impl PinMode for Output<PushPull> {
    const CNF: u32 = 0b00;

    const MODE: u32 = 0b11;

    const PULL: PullResistor = PullResistor::Off;
}

impl PinMode for Analog {
    const CNF: u32 = 0b00;

    const MODE: u32 = 0b00;

    const PULL: PullResistor = PullResistor::Off;
}

impl PinMode for Alternate<PushPull> {
    const CNF: u32 = 0b10;

    const MODE: u32 = 0b11;

    const PULL: PullResistor = PullResistor::Off;
}

impl PinMode for Alternate<Input> {
    const CNF: u32 = 0b01;

    const MODE: u32 = 0b00;

    const PULL: PullResistor = PullResistor::Off;
}

impl PinMode for Alternate<OpenDrain> {
    const CNF: u32 = 0b11;

    const MODE: u32 = 0b11;

    const PULL: PullResistor = PullResistor::Off;
}

/// What each mode holds: its `CNF` bits, its `MODE` bits and its pull
/// resistor, and the four configuration bits that they make.
pub proof fn lemma_mode_table()
    ensures
        <Input<Floating> as PinMode>::CNF == 0b01 && <Input<Floating> as PinMode>::MODE == 0b00
            && <Input<Floating> as PinMode>::PULL == PullResistor::Off,
        <Input<PullDown> as PinMode>::CNF == 0b10 && <Input<PullDown> as PinMode>::MODE == 0b00
            && <Input<PullDown> as PinMode>::PULL == PullResistor::Down,
        <Input<PullUp> as PinMode>::CNF == 0b10 && <Input<PullUp> as PinMode>::MODE == 0b00
            && <Input<PullUp> as PinMode>::PULL == PullResistor::Up,
        <Output<OpenDrain> as PinMode>::CNF == 0b01 && <Output<OpenDrain> as PinMode>::MODE == 0b11
            && <Output<OpenDrain> as PinMode>::PULL == PullResistor::Off,
        <Output<PushPull> as PinMode>::CNF == 0b00 && <Output<PushPull> as PinMode>::MODE == 0b11
            && <Output<PushPull> as PinMode>::PULL == PullResistor::Off,
        <Analog as PinMode>::CNF == 0b00 && <Analog as PinMode>::MODE == 0b00 && <
            Analog as PinMode
        >::PULL == PullResistor::Off,
        <Alternate<PushPull> as PinMode>::CNF == 0b10 && <Alternate<PushPull> as PinMode>::MODE
            == 0b11 && <Alternate<PushPull> as PinMode>::PULL == PullResistor::Off,
        <Alternate<Input> as PinMode>::CNF == 0b01 && <Alternate<Input> as PinMode>::MODE == 0b00
            && <Alternate<Input> as PinMode>::PULL == PullResistor::Off,
        <Alternate<OpenDrain> as PinMode>::CNF == 0b11 && <Alternate<OpenDrain> as PinMode>::MODE
            == 0b11 && <Alternate<OpenDrain> as PinMode>::PULL == PullResistor::Off,
        field_of::<Input<Floating>>() == 0b0100,
        field_of::<Input<PullDown>>() == 0b1000,
        field_of::<Input<PullUp>>() == 0b1000,
        field_of::<Output<OpenDrain>>() == 0b0111,
        field_of::<Output<PushPull>>() == 0b0011,
        field_of::<Analog>() == 0b0000,
        field_of::<Alternate<PushPull>>() == 0b1011,
        field_of::<Alternate<Input>>() == 0b0100,
        field_of::<Alternate<OpenDrain>>() == 0b1111,
{
    lemma_mode_field_fits(0b01, 0b00);
    lemma_mode_field_fits(0b10, 0b00);
    lemma_mode_field_fits(0b01, 0b11);
    lemma_mode_field_fits(0b00, 0b11);
    lemma_mode_field_fits(0b00, 0b00);
    lemma_mode_field_fits(0b10, 0b11);
    lemma_mode_field_fits(0b11, 0b11);
}

/// The four configuration bits that the hardware holds for a pin in mode `M`.
pub open spec fn field_of<M: PinMode>() -> u32 {
    mode_field(M::CNF, M::MODE)
}

/// The GPIO registers after pin `n` of the port named `port` was put into
/// mode `M`.
pub open spec fn after<M: PinMode>(gpio: Gpio, port: u8, n: u8) -> Gpio {
    gpio.after_mode(port, n, M::CNF, M::MODE, M::PULL)
}

/// Puts pin `n` of a port into mode `M`: selects the direction of the pull
/// resistor where the mode has one, then writes the pin's configuration bits.
pub fn set_mode<M: PinMode>(registers: &mut GpioPort, n: u8)
    requires
        n < 16,
    ensures
        *final(registers) == old(registers).after_mode(n, M::CNF, M::MODE, M::PULL),
        final(registers).pin_field(n) == field_of::<M>(),
{
    proof {
        lemma_output_writes(registers.pod, n);
    }
    match M::PULL {
        PullResistor::Up => {
            registers.write_pbsc(1u32 << (n as u32));
        },
        PullResistor::Down => {
            registers.write_pbc(1u32 << (n as u32));
        },
        PullResistor::Off => {},
    }
    registers.write_pin_field(n, M::CNF, M::MODE);
}

impl<const P: u8, const N: u8> Pin<P, N, Alternate<PushPull>> {
    /// Turns pin alternate configuration pin into open drain
    pub fn set_open_drain(self, gpio: &mut Gpio) -> (pin: Pin<P, N, Alternate<OpenDrain>>)
        ensures
            *final(gpio) == after::<Alternate<OpenDrain>>(*old(gpio), P, N),
    {
        self.into_mode(gpio)
    }
}

impl<const P: u8, const N: u8, MODE: PinMode> Pin<P, N, MODE> {
    /// Configures the pin to operate alternate mode
    pub fn into_alternate(self, gpio: &mut Gpio) -> (pin: Pin<P, N, Alternate<PushPull>>)
        ensures
            *final(gpio) == after::<Alternate<PushPull>>(*old(gpio), P, N),
    {
        self.into_mode(gpio)
    }

    /// Configures the pin to operate in alternate open drain mode
    pub fn into_alternate_open_drain(self, gpio: &mut Gpio) -> (pin: Pin<
        P,
        N,
        Alternate<OpenDrain>,
    >)
        ensures
            *final(gpio) == after::<Alternate<OpenDrain>>(*old(gpio), P, N),
    {
        self.into_mode(gpio)
    }

    /// Configures the pin to operate as a floating input pin
    pub fn into_floating_input(self, gpio: &mut Gpio) -> (pin: Pin<P, N, Input<Floating>>)
        ensures
            *final(gpio) == after::<Input<Floating>>(*old(gpio), P, N),
    {
        self.into_mode(gpio)
    }

    /// Configures the pin to operate as a pulled down input pin
    pub fn into_pull_down_input(self, gpio: &mut Gpio) -> (pin: Pin<P, N, Input<PullDown>>)
        ensures
            *final(gpio) == after::<Input<PullDown>>(*old(gpio), P, N),
    {
        self.into_mode(gpio)
    }

    /// Configures the pin to operate as a pulled up input pin
    pub fn into_pull_up_input(self, gpio: &mut Gpio) -> (pin: Pin<P, N, Input<PullUp>>)
        ensures
            *final(gpio) == after::<Input<PullUp>>(*old(gpio), P, N),
    {
        self.into_mode(gpio)
    }

    /// Configures the pin to operate as an open drain output pin.
    /// The output level is left as it is.
    pub fn into_open_drain_output(self, gpio: &mut Gpio) -> (pin: Pin<P, N, Output<OpenDrain>>)
        ensures
            *final(gpio) == after::<Output<OpenDrain>>(*old(gpio), P, N),
    {
        self.into_mode(gpio)
    }

    /// Configures the pin to operate as an open-drain output pin.
    /// `initial_state` specifies whether the pin should be initially high or low.
    /// The level is set before the mode changes.
    pub fn into_open_drain_output_in_state(
        self,
        gpio: &mut Gpio,
        initial_state: PinState,
    ) -> (pin: Pin<P, N, Output<OpenDrain>>)
        ensures
            *final(gpio) == after::<Output<OpenDrain>>(
                old(gpio).with_output(P, N, initial_state == PinState::High),
                P,
                N,
            ),
    {
        let mut pin = self;
        pin._set_state(gpio, initial_state);
        pin.into_mode(gpio)
    }

    /// Configures the pin to operate as an push pull output pin
    /// Initial state will be low.
    pub fn into_push_pull_output(self, gpio: &mut Gpio) -> (pin: Pin<P, N, Output<PushPull>>)
        ensures
            *final(gpio) == after::<Output<PushPull>>(old(gpio).with_output(P, N, false), P, N),
    {
        let mut pin = self;
        pin._set_low(gpio);
        pin.into_mode(gpio)
    }

    /// Configures the pin to operate as an push-pull output pin.
    /// `initial_state` specifies whether the pin should be initially high or low.
    /// The level is set before the mode changes.
    pub fn into_push_pull_output_in_state(
        self,
        gpio: &mut Gpio,
        initial_state: PinState,
    ) -> (pin: Pin<P, N, Output<PushPull>>)
        ensures
            *final(gpio) == after::<Output<PushPull>>(
                old(gpio).with_output(P, N, initial_state == PinState::High),
                P,
                N,
            ),
    {
        let mut pin = self;
        pin._set_state(gpio, initial_state);
        pin.into_mode(gpio)
    }

    /// Configures the pin to operate as an analog input pin
    pub fn into_analog(self, gpio: &mut Gpio) -> (pin: Pin<P, N, Analog>)
        ensures
            *final(gpio) == after::<Analog>(*old(gpio), P, N),
    {
        self.into_mode(gpio)
    }

    /// Configures the pin as a pin that can change between input
    /// and output without changing the type. It starts out
    /// as a floating input
    pub fn into_dynamic(self, gpio: &mut Gpio) -> (pin: DynamicPin<P, N>)
        ensures
            *final(gpio) == after::<Input<Floating>>(*old(gpio), P, N),
            pin.spec_mode() == Dynamic::InputFloating,
    {
        let _floating = self.into_floating_input(gpio);
        DynamicPin::new(Dynamic::InputFloating)
    }

    /// Puts `self` into mode `M`.
    ///
    /// This violates the type state constraints from `MODE`, so callers must
    /// ensure they use this properly.
    pub(crate) fn mode<M: PinMode>(&mut self, gpio: &mut Gpio)
        ensures
            *final(gpio) == after::<M>(*old(gpio), P, N),
            final(gpio).pin_field(P, N) == field_of::<M>(),
    {
        proof {
            use_type_invariant(&*self);
        }
        set_mode::<M>(gpiox::<P>(gpio), N);
    }

    /// Converts pin into specified mode
    pub fn into_mode<M: PinMode>(self, gpio: &mut Gpio) -> (pin: Pin<P, N, M>)
        ensures
            *final(gpio) == after::<M>(*old(gpio), P, N),
            final(gpio).pin_field(P, N) == field_of::<M>(),
    {
        proof {
            use_type_invariant(&self);
        }
        let mut pin = self;
        pin.mode::<M>(gpio);
        Pin::new()
    }
}

impl<MODE: PinMode> ErasedPin<MODE> {
    pub(crate) fn mode<M: PinMode>(&mut self, gpio: &mut Gpio)
        ensures
            *final(gpio) == after::<M>(
                *old(gpio),
                (PORT_A + old(self).spec_port_id()) as u8,
                old(self).spec_pin_id(),
            ),
            *final(self) == *old(self),
    {
        let n: u8 = self.pin_id();
        let port: u8 = PORT_A + self.port_id();
        set_mode::<M>(port_of(gpio, port), n);
    }

    /// Converts pin into specified mode
    pub fn into_mode<M: PinMode>(self, gpio: &mut Gpio) -> (pin: ErasedPin<M>)
        ensures
            *final(gpio) == after::<M>(
                *old(gpio),
                (PORT_A + self.spec_port_id()) as u8,
                self.spec_pin_id(),
            ),
            pin.spec_pin_port() == self.spec_pin_port(),
            pin.spec_pin_id() == self.spec_pin_id(),
            pin.spec_port_id() == self.spec_port_id(),
    {
        let mut pin = self;
        pin.mode::<M>(gpio);
        ErasedPin::from_pin_port(pin.into_pin_port())
    }
}

impl<const P: u8, MODE: PinMode> PartiallyErasedPin<P, MODE> {
    pub(crate) fn mode<M: PinMode>(&mut self, gpio: &mut Gpio)
        ensures
            *final(gpio) == after::<M>(*old(gpio), P, old(self).spec_pin_id()),
            *final(self) == *old(self),
    {
        let n: u8 = self.pin_id();
        let port: u8 = PORT_A + self.port_id();
        set_mode::<M>(port_of(gpio, port), n);
    }

    /// Converts pin into specified mode
    pub fn into_mode<M: PinMode>(self, gpio: &mut Gpio) -> (pin: PartiallyErasedPin<P, M>)
        ensures
            *final(gpio) == after::<M>(*old(gpio), P, self.spec_pin_id()),
            pin.spec_pin_id() == self.spec_pin_id(),
            pin.spec_port_id() == self.spec_port_id(),
    {
        let mut pin = self;
        pin.mode::<M>(gpio);
        let _port: u8 = pin.port_id();
        PartiallyErasedPin::new(pin.pin_id())
    }
}

/// Whether the closure `f` may be called with pin `N` of port `P` in mode `M`
/// on the registers `entered`.
pub open spec fn accepts<const P: u8, const N: u8, M, R, F>(f: F, entered: Gpio) -> bool where
    F: FnOnce(&mut Pin<P, N, M>, &mut Gpio) -> R,
 {
    forall|pin: &mut Pin<P, N, M>, gpio: &mut Gpio|
        mut_ref_current(gpio) == entered ==> call_requires(f, (pin, gpio))
}

impl<const P: u8, const N: u8, MODE> Pin<P, N, MODE> where MODE: PinMode {
    /// Puts the pin into mode `M`, calls `f` with it, and puts it back into
    /// its own mode, whatever `f` did.
    pub(crate) fn with_mode<M, F, R>(&mut self, gpio: &mut Gpio, f: F) -> (r: R) where
        M: PinMode,
        F: FnOnce(&mut Pin<P, N, M>, &mut Gpio) -> R,

        requires
            accepts::<P, N, M, R, F>(f, after::<M>(*old(gpio), P, N)),
        ensures
            exists|pin: &mut Pin<P, N, M>, inner: &mut Gpio|
                ({
                    &&& mut_ref_current(inner) == after::<M>(*old(gpio), P, N)
                    &&& #[trigger] call_ensures(f, (pin, inner), r)
                    &&& *final(gpio) == after::<MODE>(mut_ref_future(inner), P, N)
                }),
            final(gpio).pin_field(P, N) == field_of::<MODE>(),
            old(gpio).pin_field(P, N) == field_of::<MODE>() ==> final(gpio).pin_field(P, N) == old(
                gpio,
            ).pin_field(P, N),
    {
        proof {
            use_type_invariant(&*self);
        }
        self.mode::<M>(gpio);  // change physical mode, without changing typestate
        let mut pin: Pin<P, N, M> = Pin::new();
        let r = f(&mut pin, gpio);
        // put the pin back into its own mode
        pin.mode::<MODE>(gpio);
        r
    }

    /// Temporarily configures this pin as a floating input.
    ///
    /// The closure `f` is called with the reconfigured pin. After it returns,
    /// the pin will be configured back.
    pub fn with_floating_input<R, F>(&mut self, gpio: &mut Gpio, f: F) -> (r: R) where
        F: FnOnce(&mut Pin<P, N, Input<Floating>>, &mut Gpio) -> R,

        requires
            accepts::<P, N, Input<Floating>, R, F>(f, after::<Input<Floating>>(*old(gpio), P, N)),
        ensures
            exists|pin: &mut Pin<P, N, Input<Floating>>, inner: &mut Gpio|
                ({
                    &&& mut_ref_current(inner) == after::<Input<Floating>>(*old(gpio), P, N)
                    &&& #[trigger] call_ensures(f, (pin, inner), r)
                    &&& *final(gpio) == after::<MODE>(mut_ref_future(inner), P, N)
                }),
            final(gpio).pin_field(P, N) == field_of::<MODE>(),
            old(gpio).pin_field(P, N) == field_of::<MODE>() ==> final(gpio).pin_field(P, N) == old(
                gpio,
            ).pin_field(P, N),
    {
        self.with_mode(gpio, f)
    }

    /// Temporarily configures this pin as a pull-up input.
    ///
    /// The closure `f` is called with the reconfigured pin. After it returns,
    /// the pin will be configured back.
    pub fn with_pull_up_input<R, F>(&mut self, gpio: &mut Gpio, f: F) -> (r: R) where
        F: FnOnce(&mut Pin<P, N, Input<PullUp>>, &mut Gpio) -> R,

        requires
            accepts::<P, N, Input<PullUp>, R, F>(f, after::<Input<PullUp>>(*old(gpio), P, N)),
        ensures
            exists|pin: &mut Pin<P, N, Input<PullUp>>, inner: &mut Gpio|
                ({
                    &&& mut_ref_current(inner) == after::<Input<PullUp>>(*old(gpio), P, N)
                    &&& #[trigger] call_ensures(f, (pin, inner), r)
                    &&& *final(gpio) == after::<MODE>(mut_ref_future(inner), P, N)
                }),
            final(gpio).pin_field(P, N) == field_of::<MODE>(),
            old(gpio).pin_field(P, N) == field_of::<MODE>() ==> final(gpio).pin_field(P, N) == old(
                gpio,
            ).pin_field(P, N),
    {
        self.with_mode(gpio, f)
    }

    /// Temporarily configures this pin as a pull-down input.
    ///
    /// The closure `f` is called with the reconfigured pin. After it returns,
    /// the pin will be configured back.
    pub fn with_pull_down_input<R, F>(&mut self, gpio: &mut Gpio, f: F) -> (r: R) where
        F: FnOnce(&mut Pin<P, N, Input<PullDown>>, &mut Gpio) -> R,

        requires
            accepts::<P, N, Input<PullDown>, R, F>(f, after::<Input<PullDown>>(*old(gpio), P, N)),
        ensures
            exists|pin: &mut Pin<P, N, Input<PullDown>>, inner: &mut Gpio|
                ({
                    &&& mut_ref_current(inner) == after::<Input<PullDown>>(*old(gpio), P, N)
                    &&& #[trigger] call_ensures(f, (pin, inner), r)
                    &&& *final(gpio) == after::<MODE>(mut_ref_future(inner), P, N)
                }),
            final(gpio).pin_field(P, N) == field_of::<MODE>(),
            old(gpio).pin_field(P, N) == field_of::<MODE>() ==> final(gpio).pin_field(P, N) == old(
                gpio,
            ).pin_field(P, N),
    {
        self.with_mode(gpio, f)
    }

    /// Temporarily configures this pin as an analog pin.
    ///
    /// The closure `f` is called with the reconfigured pin. After it returns,
    /// the pin will be configured back.
    pub fn with_analog<R, F>(&mut self, gpio: &mut Gpio, f: F) -> (r: R) where
        F: FnOnce(&mut Pin<P, N, Analog>, &mut Gpio) -> R,

        requires
            accepts::<P, N, Analog, R, F>(f, after::<Analog>(*old(gpio), P, N)),
        ensures
            exists|pin: &mut Pin<P, N, Analog>, inner: &mut Gpio|
                ({
                    &&& mut_ref_current(inner) == after::<Analog>(*old(gpio), P, N)
                    &&& #[trigger] call_ensures(f, (pin, inner), r)
                    &&& *final(gpio) == after::<MODE>(mut_ref_future(inner), P, N)
                }),
            final(gpio).pin_field(P, N) == field_of::<MODE>(),
            old(gpio).pin_field(P, N) == field_of::<MODE>() ==> final(gpio).pin_field(P, N) == old(
                gpio,
            ).pin_field(P, N),
    {
        self.with_mode(gpio, f)
    }

    /// Temporarily configures this pin as an open drain output.
    ///
    /// The closure `f` is called with the reconfigured pin. After it returns,
    /// the pin will be configured back.
    /// The value of the pin after conversion is undefined. If you
    /// want to control it, use `with_open_drain_output_in_state`
    pub fn with_open_drain_output<R, F>(&mut self, gpio: &mut Gpio, f: F) -> (r: R) where
        F: FnOnce(&mut Pin<P, N, Output<OpenDrain>>, &mut Gpio) -> R,

        requires
            accepts::<P, N, Output<OpenDrain>, R, F>(
                f,
                after::<Output<OpenDrain>>(*old(gpio), P, N),
            ),
        ensures
            exists|pin: &mut Pin<P, N, Output<OpenDrain>>, inner: &mut Gpio|
                ({
                    &&& mut_ref_current(inner) == after::<Output<OpenDrain>>(*old(gpio), P, N)
                    &&& #[trigger] call_ensures(f, (pin, inner), r)
                    &&& *final(gpio) == after::<MODE>(mut_ref_future(inner), P, N)
                }),
            final(gpio).pin_field(P, N) == field_of::<MODE>(),
            old(gpio).pin_field(P, N) == field_of::<MODE>() ==> final(gpio).pin_field(P, N) == old(
                gpio,
            ).pin_field(P, N),
    {
        self.with_mode(gpio, f)
    }

    /// Temporarily configures this pin as an open drain output .
    ///
    /// The closure `f` is called with the reconfigured pin. After it returns,
    /// the pin will be configured back.
    /// Note that the new state is set slightly before conversion
    /// happens. This can cause a short output glitch if switching
    /// between output modes
    pub fn with_open_drain_output_in_state<R, F>(
        &mut self,
        gpio: &mut Gpio,
        state: PinState,
        f: F,
    ) -> (r: R) where F: FnOnce(&mut Pin<P, N, Output<OpenDrain>>, &mut Gpio) -> R
        requires
            accepts::<P, N, Output<OpenDrain>, R, F>(
                f,
                after::<Output<OpenDrain>>(
                    old(gpio).with_output(P, N, state == PinState::High),
                    P,
                    N,
                ),
            ),
        ensures
            exists|pin: &mut Pin<P, N, Output<OpenDrain>>, inner: &mut Gpio|
                ({
                    &&& mut_ref_current(inner) == after::<Output<OpenDrain>>(old(gpio).with_output(P, N, state == PinState::High), P, N)
                    &&& #[trigger] call_ensures(f, (pin, inner), r)
                    &&& *final(gpio) == after::<MODE>(mut_ref_future(inner), P, N)
                }),
            final(gpio).pin_field(P, N) == field_of::<MODE>(),
            old(gpio).pin_field(P, N) == field_of::<MODE>() ==> final(gpio).pin_field(P, N) == old(
                gpio,
            ).pin_field(P, N),
    {
        self._set_state(gpio, state);
        self.with_mode(gpio, f)
    }

    /// Temporarily configures this pin as a push-pull output.
    ///
    /// The closure `f` is called with the reconfigured pin. After it returns,
    /// the pin will be configured back.
    /// The value of the pin after conversion is undefined. If you
    /// want to control it, use `with_push_pull_output_in_state`
    pub fn with_push_pull_output<R, F>(&mut self, gpio: &mut Gpio, f: F) -> (r: R) where
        F: FnOnce(&mut Pin<P, N, Output<PushPull>>, &mut Gpio) -> R,

        requires
            accepts::<P, N, Output<PushPull>, R, F>(f, after::<Output<PushPull>>(*old(gpio), P, N)),
        ensures
            exists|pin: &mut Pin<P, N, Output<PushPull>>, inner: &mut Gpio|
                ({
                    &&& mut_ref_current(inner) == after::<Output<PushPull>>(*old(gpio), P, N)
                    &&& #[trigger] call_ensures(f, (pin, inner), r)
                    &&& *final(gpio) == after::<MODE>(mut_ref_future(inner), P, N)
                }),
            final(gpio).pin_field(P, N) == field_of::<MODE>(),
            old(gpio).pin_field(P, N) == field_of::<MODE>() ==> final(gpio).pin_field(P, N) == old(
                gpio,
            ).pin_field(P, N),
    {
        self.with_mode(gpio, f)
    }

    /// Temporarily configures this pin as a push-pull output.
    ///
    /// The closure `f` is called with the reconfigured pin. After it returns,
    /// the pin will be configured back.
    /// Note that the new state is set slightly before conversion
    /// happens. This can cause a short output glitch if switching
    /// between output modes
    pub fn with_push_pull_output_in_state<R, F>(
        &mut self,
        gpio: &mut Gpio,
        state: PinState,
        f: F,
    ) -> (r: R) where F: FnOnce(&mut Pin<P, N, Output<PushPull>>, &mut Gpio) -> R
        requires
            accepts::<P, N, Output<PushPull>, R, F>(
                f,
                after::<Output<PushPull>>(
                    old(gpio).with_output(P, N, state == PinState::High),
                    P,
                    N,
                ),
            ),
        ensures
            exists|pin: &mut Pin<P, N, Output<PushPull>>, inner: &mut Gpio|
                ({
                    &&& mut_ref_current(inner) == after::<Output<PushPull>>(old(gpio).with_output(P, N, state == PinState::High), P, N)
                    &&& #[trigger] call_ensures(f, (pin, inner), r)
                    &&& *final(gpio) == after::<MODE>(mut_ref_future(inner), P, N)
                }),
            final(gpio).pin_field(P, N) == field_of::<MODE>(),
            old(gpio).pin_field(P, N) == field_of::<MODE>() ==> final(gpio).pin_field(P, N) == old(
                gpio,
            ).pin_field(P, N),
    {
        self._set_state(gpio, state);
        self.with_mode(gpio, f)
    }
}

} // verus!
