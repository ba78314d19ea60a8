//! What holds of every change of a pin's mode.

use vstd::prelude::*;
use crate::gpio::convert::after;
use crate::gpio::convert::field_of;
use crate::gpio::convert::PinMode;
use crate::gpio::port::is_port;
use crate::gpio::port::lemma_field;
use crate::gpio::port::lemma_mode_field_fits;
use crate::gpio::port::mode_field;
use crate::gpio::port::slot_shift;
use crate::gpio::port::with_field_at;
use crate::gpio::port::PullResistor;
use crate::gpio::Output;
use crate::gpio::PushPull;
use crate::pac::Gpio;
use crate::pac::GpioPort;

verus! {

/// Setting or clearing an output bit twice is setting or clearing it once,
/// and leaves the configuration registers alone.
pub proof fn lemma_output_idempotent(registers: GpioPort, n: u8, high: bool)
    requires
        n < 16,
    ensures
        registers.with_output(n, high).with_output(n, high) == registers.with_output(n, high),
        registers.with_output(n, high).pl_cfg == registers.pl_cfg,
        registers.with_output(n, high).ph_cfg == registers.ph_cfg,
        registers.with_output(n, high).pid == registers.pid,
        registers.with_output(n, high).output_high(n) == high,
{
    let pod = registers.pod;
    let m = n as u32;
    assert(((pod | (1u32 << m)) | (1u32 << m)) == (pod | (1u32 << m))) by (bit_vector);
    assert(((pod & !(1u32 << m)) & !(1u32 << m)) == (pod & !(1u32 << m))) by (bit_vector);
    assert((pod | (1u32 << m)) & (1u32 << m) != 0) by (bit_vector)
        requires
            m < 16,
    ;
    assert((pod & !(1u32 << m)) & (1u32 << m) == 0) by (bit_vector)
        requires
            m < 16,
    ;
}

/// On one port: after pin `n` is put into a mode its configuration bits are
/// those of the mode, whatever the registers held before; the configuration
/// bits of every other pin are as before; and so is the input data.
pub proof fn lemma_port_after_mode(
    registers: GpioPort,
    n: u8,
    cnf: u32,
    mode: u32,
    pull: PullResistor,
)
    requires
        n < 16,
    ensures
        registers.after_mode(n, cnf, mode, pull).pin_field(n) == mode_field(cnf, mode),
        forall|other: u8|
            other < 16 && other != n ==> #[trigger] registers.after_mode(
                n,
                cnf,
                mode,
                pull,
            ).pin_field(other) == registers.pin_field(other),
        registers.after_mode(n, cnf, mode, pull).pid == registers.pid,
        pull == PullResistor::Off ==> registers.after_mode(n, cnf, mode, pull).pod == registers.pod,
        pull == PullResistor::Up ==> registers.after_mode(n, cnf, mode, pull).output_high(n),
        pull == PullResistor::Down ==> !registers.after_mode(n, cnf, mode, pull).output_high(n),
{
    lemma_mode_field_fits(cnf, mode);
    lemma_field(registers.pl_cfg, slot_shift(n), mode_field(cnf, mode));
    lemma_field(registers.ph_cfg, slot_shift(n), mode_field(cnf, mode));
    lemma_output_idempotent(registers, n, true);
    lemma_output_idempotent(registers, n, false);
    let changed = registers.after_mode(n, cnf, mode, pull);
    assert forall|other: u8| other < 16 && other != n implies #[trigger] changed.pin_field(other)
        == registers.pin_field(other) by {
        if (other < 8) == (n < 8) {
            assert(slot_shift(other) != slot_shift(n));
            assert(slot_shift(other) <= 28 && slot_shift(other) % 4 == 0);
        }
    }
}

/// After pin `n` of a port is put into mode `M`, its configuration bits are
/// those of `M` whatever the registers held before: the bits depend on the
/// mode that is entered alone, not on the mode that is left.
pub proof fn lemma_mode_sets_field<M: PinMode>(gpio: Gpio, port: u8, n: u8)
    requires
        is_port(port),
        n < 16,
    ensures
        after::<M>(gpio, port, n).pin_field(port, n) == field_of::<M>(),
        field_of::<M>() <= 0xF,
        forall|earlier: Gpio| #[trigger]
            after::<M>(earlier, port, n).pin_field(port, n) == after::<M>(gpio, port, n).pin_field(
                port,
                n,
            ),
{
    lemma_mode_field_fits(M::CNF, M::MODE);
    lemma_port_after_mode(gpio.port(port), n, M::CNF, M::MODE, M::PULL);
    assert forall|earlier: Gpio| #[trigger]
        after::<M>(earlier, port, n).pin_field(port, n) == field_of::<M>() by {
        lemma_port_after_mode(earlier.port(port), n, M::CNF, M::MODE, M::PULL);
    }
}

/// Putting pin `n` of a port into a mode leaves every other pin's
/// configuration bits, every other port and the input data as they were.
pub proof fn lemma_mode_keeps_others<M: PinMode>(
    gpio: Gpio,
    port: u8,
    n: u8,
    other_port: u8,
    other: u8,
)
    requires
        is_port(port),
        n < 16,
        is_port(other_port),
        other < 16,
        other_port != port || other != n,
    ensures
        after::<M>(gpio, port, n).pin_field(other_port, other) == gpio.pin_field(other_port, other),
        other_port != port ==> after::<M>(gpio, port, n).port(other_port) == gpio.port(other_port),
        after::<M>(gpio, port, n).port(other_port).pid == gpio.port(other_port).pid,
{
    lemma_port_after_mode(gpio.port(port), n, M::CNF, M::MODE, M::PULL);
}

/// Putting a pin into the mode that it is in already changes nothing.
pub proof fn lemma_mode_idempotent<M: PinMode>(gpio: Gpio, port: u8, n: u8)
    requires
        is_port(port),
        n < 16,
    ensures
        after::<M>(after::<M>(gpio, port, n), port, n) == after::<M>(gpio, port, n),
{
    let registers = gpio.port(port);
    let field = field_of::<M>();
    lemma_mode_field_fits(M::CNF, M::MODE);
    lemma_output_idempotent(registers, n, true);
    lemma_output_idempotent(registers, n, false);
    let pulled = match M::PULL {
        PullResistor::Up => registers.with_output(n, true),
        PullResistor::Down => registers.with_output(n, false),
        PullResistor::Off => registers,
    };
    lemma_field(pulled.pl_cfg, slot_shift(n), field);
    lemma_field(pulled.ph_cfg, slot_shift(n), field);
    let once = registers.after_mode(n, M::CNF, M::MODE, M::PULL);
    assert(once == pulled.with_pin_field(n, field));
    assert(once.pod == pulled.pod);
    assert(once.after_mode(n, M::CNF, M::MODE, M::PULL) == once);
}

/// Making a pin a push-pull output twice in a row leaves the registers as
/// making it one once does.
pub proof fn lemma_push_pull_output_idempotent(gpio: Gpio, port: u8, n: u8)
    requires
        is_port(port),
        n < 16,
    ensures
        ({
            let once = after::<Output<PushPull>>(gpio.with_output(port, n, false), port, n);
            after::<Output<PushPull>>(once.with_output(port, n, false), port, n) == once
        }),
{
    let low = gpio.with_output(port, n, false);
    let once = after::<Output<PushPull>>(low, port, n);
    lemma_output_idempotent(gpio.port(port), n, false);
    lemma_mode_idempotent::<Output<PushPull>>(low, port, n);
    crate::gpio::convert::lemma_mode_table();
    assert(once.port(port).pod == low.port(port).pod);
    assert(once.port(port).with_output(n, false) == once.port(port));
    assert(once.with_output(port, n, false) == once);
}

/// Going through a mode without a pull resistor leaves no trace: entering
/// mode `B` after mode `A` gives the registers that entering `B` at once
/// gives. With a pull resistor in `A` the configuration registers are still
/// the same, and only the pin's output bit may differ.
pub proof fn lemma_mode_forgets_previous<A: PinMode, B: PinMode>(gpio: Gpio, port: u8, n: u8)
    requires
        is_port(port),
        n < 16,
    ensures
        after::<B>(after::<A>(gpio, port, n), port, n).port(port).pl_cfg == after::<B>(
            gpio,
            port,
            n,
        ).port(port).pl_cfg,
        after::<B>(after::<A>(gpio, port, n), port, n).port(port).ph_cfg == after::<B>(
            gpio,
            port,
            n,
        ).port(port).ph_cfg,
        A::PULL == PullResistor::Off ==> after::<B>(after::<A>(gpio, port, n), port, n) == after::<
            B,
        >(gpio, port, n),
{
    let registers = gpio.port(port);
    lemma_mode_field_fits(A::CNF, A::MODE);
    lemma_mode_field_fits(B::CNF, B::MODE);
    lemma_output_idempotent(registers, n, true);
    lemma_output_idempotent(registers, n, false);
    let first = registers.after_mode(n, A::CNF, A::MODE, A::PULL);
    lemma_output_idempotent(first, n, true);
    lemma_output_idempotent(first, n, false);
    lemma_field(registers.pl_cfg, slot_shift(n), field_of::<B>());
    lemma_field(registers.ph_cfg, slot_shift(n), field_of::<B>());
    assert(with_field_at(
        with_field_at(registers.pl_cfg, slot_shift(n), field_of::<A>()),
        slot_shift(n),
        field_of::<B>(),
    ) == with_field_at(registers.pl_cfg, slot_shift(n), field_of::<B>()));
    assert(with_field_at(
        with_field_at(registers.ph_cfg, slot_shift(n), field_of::<A>()),
        slot_shift(n),
        field_of::<B>(),
    ) == with_field_at(registers.ph_cfg, slot_shift(n), field_of::<B>()));
}

/// A pin that is put into another mode and back has the configuration bits
/// that it had, and so has every other pin: where the pin's bits were those
/// of its mode `ORIG`, both configuration registers are as they were.
pub proof fn lemma_mode_restored<ORIG: PinMode, M: PinMode>(gpio: Gpio, port: u8, n: u8)
    requires
        is_port(port),
        n < 16,
        gpio.pin_field(port, n) == field_of::<ORIG>(),
    ensures
        after::<ORIG>(after::<M>(gpio, port, n), port, n).pin_field(port, n) == gpio.pin_field(
            port,
            n,
        ),
        after::<ORIG>(after::<M>(gpio, port, n), port, n).port(port).pl_cfg == gpio.port(
            port,
        ).pl_cfg,
        after::<ORIG>(after::<M>(gpio, port, n), port, n).port(port).ph_cfg == gpio.port(
            port,
        ).ph_cfg,
{
    let registers = gpio.port(port);
    lemma_mode_forgets_previous::<M, ORIG>(gpio, port, n);
    lemma_mode_sets_field::<ORIG>(gpio, port, n);
    lemma_mode_sets_field::<ORIG>(after::<M>(gpio, port, n), port, n);
    lemma_output_idempotent(registers, n, true);
    lemma_output_idempotent(registers, n, false);
    lemma_field(registers.pl_cfg, slot_shift(n), field_of::<ORIG>());
    lemma_field(registers.ph_cfg, slot_shift(n), field_of::<ORIG>());
}

} // verus!
