//! What the GPIO registers hold for a pin, and what a write does to them.
//!
//! Each port configures its sixteen pins in two registers: pins 0 to 7 in the
//! low one, pins 8 to 15 in the high one. A pin has four bits there: the two
//! `MODE` bits below the two `CNF` bits. One more register holds the output
//! data, one bit per pin; for an input with a pull resistor its bit selects
//! the direction of the pull. The output data is changed through two
//! registers that hold nothing themselves: a 1 written to a bit of them sets
//! or clears the pin's output bit, a 0 does nothing.

use vstd::prelude::*;
use crate::pac::Gpio;
use crate::pac::GpioPort;

verus! {

/// Name of port A, as a pin's type carries it
pub const PORT_A: u8 = 65;

/// Name of port B
pub const PORT_B: u8 = 66;

/// Name of port C
pub const PORT_C: u8 = 67;

/// Name of port D
pub const PORT_D: u8 = 68;

/// Name of port E
pub const PORT_E: u8 = 69;

/// Name of port F
pub const PORT_F: u8 = 70;

/// Name of port G
pub const PORT_G: u8 = 71;

/// Pull resistor of an input
#[derive(Clone, Copy, PartialEq, Eq, Structural, Debug)]
pub enum PullResistor {
    /// No resistor
    Off,
    /// Resistor to ground
    Down,
    /// Resistor to the supply
    Up,
}

/// Whether `port` names one of the ports A to G.
pub open spec fn is_port(port: u8) -> bool {
    PORT_A <= port <= PORT_G
}

/// The four configuration bits of a mode: `CNF` above `MODE`, two bits each.
pub open spec fn mode_field(cnf: u32, mode: u32) -> u32 {
    ((cnf & 3u32) << 2u32) | (mode & 3u32)
}

/// Where the configuration bits of pin `n` start in their register.
pub open spec fn slot_shift(n: u8) -> u32
    recommends
        n < 16,
{
    if n < 8 {
        (4 * n) as u32
    } else {
        (4 * (n - 8)) as u32
    }
}

/// The four bits of `word` that start at bit `shift`.
pub open spec fn field_at(word: u32, shift: u32) -> u32 {
    (word >> shift) & 0xFu32
}

/// `word` with the four bits that start at bit `shift` replaced by `field`.
pub open spec fn with_field_at(word: u32, shift: u32, field: u32) -> u32 {
    (word & !(0xFu32 << shift)) | (field << shift)
}

/// The word with only bit `n` set.
pub open spec fn pin_mask(n: u8) -> u32
    recommends
        n < 16,
{
    1u32 << (n as u32)
}

/// A mode's configuration bits fit into four bits.
pub proof fn lemma_mode_field_fits(cnf: u32, mode: u32)
    ensures
        mode_field(cnf, mode) <= 0xF,
        cnf <= 3 && mode <= 3 ==> mode_field(cnf, mode) == 4 * cnf + mode,
{
    assert((((cnf & 3u32) << 2u32) | (mode & 3u32)) <= 0xFu32) by (bit_vector);
    assert(cnf <= 3 && mode <= 3 ==> (((cnf & 3u32) << 2u32) | (mode & 3u32)) == 4 * cnf + mode)
        by (bit_vector);
}

/// A field that was written is what is read back, the other seven fields of
/// the register are as before, a second write replaces the first, and
/// writing back what was read changes nothing.
pub proof fn lemma_field(word: u32, shift: u32, field: u32)
    requires
        shift <= 28,
        shift % 4 == 0,
        field <= 0xF,
    ensures
        field_at(with_field_at(word, shift, field), shift) == field,
        forall|other: u32|
            other <= 28 && other % 4 == 0 && other != shift ==> #[trigger] field_at(
                with_field_at(word, shift, field),
                other,
            ) == field_at(word, other),
        forall|first: u32|
            first <= 0xF ==> #[trigger] with_field_at(
                with_field_at(word, shift, first),
                shift,
                field,
            ) == with_field_at(word, shift, field),
        with_field_at(word, shift, field_at(word, shift)) == word,
{
    assert((((word & !(0xFu32 << shift)) | (field << shift)) >> shift) & 0xFu32 == field)
        by (bit_vector)
        requires
            shift <= 28,
            field <= 0xF,
    ;
    assert forall|other: u32| other <= 28 && other % 4 == 0 && other != shift implies #[trigger]
        field_at(with_field_at(word, shift, field), other) == field_at(word, other) by {
        assert((((word & !(0xFu32 << shift)) | (field << shift)) >> other) & 0xFu32 == (word
            >> other) & 0xFu32) by (bit_vector)
            requires
                shift <= 28,
                shift % 4 == 0,
                other <= 28,
                other % 4 == 0,
                other != shift,
                field <= 0xF,
        ;
    }
    assert forall|first: u32| first <= 0xF implies #[trigger] with_field_at(
        with_field_at(word, shift, first),
        shift,
        field,
    ) == with_field_at(word, shift, field) by {
        assert(((((word & !(0xFu32 << shift)) | (first << shift)) & !(0xFu32 << shift)) | (field
            << shift)) == ((word & !(0xFu32 << shift)) | (field << shift))) by (bit_vector)
            requires
                shift <= 28,
                first <= 0xF,
        ;
    }
    assert(((word & !(0xFu32 << shift)) | (((word >> shift) & 0xFu32) << shift)) == word)
        by (bit_vector)
        requires
            shift <= 28,
    ;
}

/// What a write of a pin's mask to the set and clear registers does to the
/// output data: it sets or clears that pin's bit and no other.
pub proof fn lemma_output_writes(pod: u32, n: u8)
    requires
        n < 16,
    ensures
        (pod | (pin_mask(n) & 0xFFFFu32)) & !(pin_mask(n) >> 16u32) == pod | pin_mask(n),
        (pod | ((1u32 << ((n + 16) as u32)) & 0xFFFFu32)) & !((1u32 << ((n + 16) as u32)) >> 16u32)
            == pod & !pin_mask(n),
        pod & !(pin_mask(n) & 0xFFFFu32) == pod & !pin_mask(n),
        (pod | pin_mask(n)) & pin_mask(n) != 0,
        (pod & !pin_mask(n)) & pin_mask(n) == 0,
{
    let m = n as u32;
    assert((pod | ((1u32 << m) & 0xFFFFu32)) & !((1u32 << m) >> 16u32) == pod | (1u32 << m))
        by (bit_vector)
        requires
            m < 16,
    ;
    assert((pod | ((1u32 << ((m + 16) as u32)) & 0xFFFFu32)) & !((1u32 << ((m + 16) as u32))
        >> 16u32) == pod & !(1u32 << m)) by (bit_vector)
        requires
            m < 16,
    ;
    assert(pod & !((1u32 << m) & 0xFFFFu32) == pod & !(1u32 << m)) by (bit_vector)
        requires
            m < 16,
    ;
    assert((pod | (1u32 << m)) & (1u32 << m) != 0) by (bit_vector)
        requires
            m < 16,
    ;
    assert((pod & !(1u32 << m)) & (1u32 << m) == 0) by (bit_vector)
        requires
            m < 16,
    ;
}

/// The word that, written to the bit set/clear register, turns the output
/// data `from` into `to`: a 1 in the low half for each bit to set, a 1 in
/// the high half for each bit to clear.
pub open spec fn pbsc_word_of(from: u32, to: u32) -> u32 {
    (to & !from & 0xFFFFu32) | ((from & !to & 0xFFFFu32) << 16u32)
}

/// Computes the word that, written to the bit set/clear register, turns the
/// output data `from` into `to`.
pub fn pbsc_word(from: u32, to: u32) -> (word: u32)
    requires
        from <= 0xFFFF,
        to <= 0xFFFF,
    ensures
        word == pbsc_word_of(from, to),
        (from | (word & 0xFFFFu32)) & !(word >> 16u32) == to,
{
    assert(({
        let word = (to & !from & 0xFFFFu32) | ((from & !to & 0xFFFFu32) << 16u32);
        (from | (word & 0xFFFFu32)) & !(word >> 16u32) == to
    })) by (bit_vector)
        requires
            from <= 0xFFFF,
            to <= 0xFFFF,
    ;
    (to & !from & 0xFFFFu32) | ((from & !to & 0xFFFFu32) << 16u32)
}

/// One write to a register of a port
#[derive(Clone, Copy, PartialEq, Eq, Structural, Debug)]
pub enum PortWrite {
    /// A word for the bit set/clear register
    BitSetClear(u32),
    /// A new value for the configuration of pins 0 to 7
    ConfigLow(u32),
    /// A new value for the configuration of pins 8 to 15
    ConfigHigh(u32),
}

/// What a write does to the registers of a port.
pub open spec fn after_write(write: PortWrite, registers: GpioPort) -> GpioPort {
    match write {
        PortWrite::BitSetClear(word) => GpioPort {
            pod: (registers.pod | (word & 0xFFFFu32)) & !(word >> 16u32),
            ..registers
        },
        PortWrite::ConfigLow(word) => GpioPort { pl_cfg: word, ..registers },
        PortWrite::ConfigHigh(word) => GpioPort { ph_cfg: word, ..registers },
    }
}

/// What a sequence of writes, made in order, does to the registers of a
/// port.
pub open spec fn after_writes(writes: Seq<PortWrite>, registers: GpioPort) -> GpioPort
    decreases writes.len(),
{
    if writes.len() == 0 {
        registers
    } else {
        after_write(writes.last(), after_writes(writes.drop_last(), registers))
    }
}

/// The writes that bring a port from `before` to `after`: first the output
/// data, so that a pin has its level before it becomes an output, then the
/// two configuration registers. A register that does not change is not
/// written.
pub open spec fn writes_from_to(before: GpioPort, after: GpioPort) -> Seq<PortWrite> {
    let level = if after.pod != before.pod {
        Seq::<PortWrite>::empty().push(PortWrite::BitSetClear(pbsc_word_of(before.pod, after.pod)))
    } else {
        Seq::<PortWrite>::empty()
    };
    let low = if after.pl_cfg != before.pl_cfg {
        level.push(PortWrite::ConfigLow(after.pl_cfg))
    } else {
        level
    };
    if after.ph_cfg != before.ph_cfg {
        low.push(PortWrite::ConfigHigh(after.ph_cfg))
    } else {
        low
    }
}

/// Computes the writes that bring a port from `before` to `after`, and
/// shows that they do: made in order on `before` they give `after`, but for
/// the input data, which no write changes.
pub fn writes_between(before: &GpioPort, after: &GpioPort) -> (writes: Vec<PortWrite>)
    requires
        before.pod <= 0xFFFF,
        after.pod <= 0xFFFF,
    ensures
        writes@ == writes_from_to(*before, *after),
        after_writes(writes@, *before) == (GpioPort { pid: before.pid, ..*after }),
{
    let mut writes: Vec<PortWrite> = Vec::new();
    assert(after_writes(writes@, *before) == *before);
    if after.pod != before.pod {
        let word: u32 = pbsc_word(before.pod, after.pod);
        proof {
            lemma_written(writes@, PortWrite::BitSetClear(word), *before);
        }
        writes.push(PortWrite::BitSetClear(word));
    }
    assert(after_writes(writes@, *before) == (GpioPort { pod: after.pod, ..*before }));
    if after.pl_cfg != before.pl_cfg {
        proof {
            lemma_written(writes@, PortWrite::ConfigLow(after.pl_cfg), *before);
        }
        writes.push(PortWrite::ConfigLow(after.pl_cfg));
    }
    if after.ph_cfg != before.ph_cfg {
        proof {
            lemma_written(writes@, PortWrite::ConfigHigh(after.ph_cfg), *before);
        }
        writes.push(PortWrite::ConfigHigh(after.ph_cfg));
    }
    writes
}

/// A sequence with one more write does what the sequence does and then what
/// the write does.
pub proof fn lemma_written(writes: Seq<PortWrite>, write: PortWrite, registers: GpioPort)
    ensures
        after_writes(writes.push(write), registers) == after_write(
            write,
            after_writes(writes, registers),
        ),
{
    assert(writes.push(write).drop_last() =~= writes);
    assert(writes.push(write).last() == write);
}

impl GpioPort {
    /// The four configuration bits of pin `n`.
    pub open spec fn pin_field(self, n: u8) -> u32
        recommends
            n < 16,
    {
        if n < 8 {
            field_at(self.pl_cfg, slot_shift(n))
        } else {
            field_at(self.ph_cfg, slot_shift(n))
        }
    }

    /// The port with the four configuration bits of pin `n` replaced.
    pub open spec fn with_pin_field(self, n: u8, field: u32) -> GpioPort
        recommends
            n < 16,
    {
        if n < 8 {
            GpioPort { pl_cfg: with_field_at(self.pl_cfg, slot_shift(n), field), ..self }
        } else {
            GpioPort { ph_cfg: with_field_at(self.ph_cfg, slot_shift(n), field), ..self }
        }
    }

    /// Whether the output bit of pin `n` is set.
    pub open spec fn output_high(self, n: u8) -> bool
        recommends
            n < 16,
    {
        self.pod & pin_mask(n) != 0
    }

    /// Whether the input bit of pin `n` is set.
    pub open spec fn input_high(self, n: u8) -> bool
        recommends
            n < 16,
    {
        self.pid & pin_mask(n) != 0
    }

    /// The port with the output bit of pin `n` set or cleared.
    pub open spec fn with_output(self, n: u8, high: bool) -> GpioPort
        recommends
            n < 16,
    {
        if high {
            GpioPort { pod: self.pod | pin_mask(n), ..self }
        } else {
            GpioPort { pod: self.pod & !pin_mask(n), ..self }
        }
    }

    /// The port after pin `n` was put into a mode: where the mode has a pull
    /// resistor the output bit selects its direction, and the pin's
    /// configuration bits are those of the mode.
    pub open spec fn after_mode(self, n: u8, cnf: u32, mode: u32, pull: PullResistor) -> GpioPort
        recommends
            n < 16,
    {
        let pulled = match pull {
            PullResistor::Up => self.with_output(n, true),
            PullResistor::Down => self.with_output(n, false),
            PullResistor::Off => self,
        };
        pulled.with_pin_field(n, mode_field(cnf, mode))
    }

    /// Writes `word` to the bit set/clear register: each 1 in the low half
    /// sets an output bit, each 1 in the high half clears one.
    pub fn write_pbsc(&mut self, word: u32)
        ensures
            *final(self) == (GpioPort {
                pod: (old(self).pod | (word & 0xFFFFu32)) & !(word >> 16u32),
                ..*old(self)
            }),
    {
        self.pod = (self.pod | (word & 0xFFFFu32)) & !(word >> 16u32);
    }

    /// Writes `word` to the bit clear register: each 1 in the low half clears
    /// an output bit.
    pub fn write_pbc(&mut self, word: u32)
        ensures
            *final(self) == (GpioPort { pod: old(self).pod & !(word & 0xFFFFu32), ..*old(self) }),
    {
        self.pod = self.pod & !(word & 0xFFFFu32);
    }

    /// Reads the four configuration bits of pin `n`.
    pub fn read_pin_field(&self, n: u8) -> (field: u32)
        requires
            n < 16,
        ensures
            field == self.pin_field(n),
    {
        if n < 8 {
            (self.pl_cfg >> (4 * (n as u32))) & 0xFu32
        } else {
            (self.ph_cfg >> (4 * ((n - 8) as u32))) & 0xFu32
        }
    }

    /// Replaces the configuration bits of pin `n` by those of a mode and
    /// leaves the other pins' bits as they are.
    pub fn write_pin_field(&mut self, n: u8, cnf: u32, mode: u32)
        requires
            n < 16,
        ensures
            *final(self) == old(self).with_pin_field(n, mode_field(cnf, mode)),
            final(self).pin_field(n) == mode_field(cnf, mode),
    {
        let field: u32 = ((cnf & 3u32) << 2u32) | (mode & 3u32);
        proof {
            lemma_mode_field_fits(cnf, mode);
            lemma_field(self.pl_cfg, slot_shift(n), field);
            lemma_field(self.ph_cfg, slot_shift(n), field);
        }
        if n < 8 {
            let shift: u32 = 4 * (n as u32);
            self.pl_cfg = (self.pl_cfg & !(0xFu32 << shift)) | (field << shift);
        } else {
            let shift: u32 = 4 * ((n - 8) as u32);
            self.ph_cfg = (self.ph_cfg & !(0xFu32 << shift)) | (field << shift);
        }
    }
}

impl Gpio {
    /// The registers of the port named `port`.
    pub open spec fn port(self, port: u8) -> GpioPort
        recommends
            is_port(port),
    {
        if port == PORT_A {
            self.a
        } else if port == PORT_B {
            self.b
        } else if port == PORT_C {
            self.c
        } else if port == PORT_D {
            self.d
        } else if port == PORT_E {
            self.e
        } else if port == PORT_F {
            self.f
        } else {
            self.g
        }
    }

    /// The device with the registers of the port named `port` replaced.
    pub open spec fn with_port(self, port: u8, registers: GpioPort) -> Gpio
        recommends
            is_port(port),
    {
        if port == PORT_A {
            Gpio { a: registers, ..self }
        } else if port == PORT_B {
            Gpio { b: registers, ..self }
        } else if port == PORT_C {
            Gpio { c: registers, ..self }
        } else if port == PORT_D {
            Gpio { d: registers, ..self }
        } else if port == PORT_E {
            Gpio { e: registers, ..self }
        } else if port == PORT_F {
            Gpio { f: registers, ..self }
        } else {
            Gpio { g: registers, ..self }
        }
    }

    /// The four configuration bits of pin `n` of a port.
    pub open spec fn pin_field(self, port: u8, n: u8) -> u32 {
        self.port(port).pin_field(n)
    }

    /// The device after pin `n` of a port was put into a mode.
    pub open spec fn after_mode(
        self,
        port: u8,
        n: u8,
        cnf: u32,
        mode: u32,
        pull: PullResistor,
    ) -> Gpio {
        self.with_port(port, self.port(port).after_mode(n, cnf, mode, pull))
    }

    /// The device with the output bit of pin `n` of a port set or cleared.
    pub open spec fn with_output(self, port: u8, n: u8, high: bool) -> Gpio {
        self.with_port(port, self.port(port).with_output(n, high))
    }
}

/// The registers of port `P`.
pub fn gpiox<const P: u8>(gpio: &mut Gpio) -> (registers: &mut GpioPort)
    requires
        is_port(P),
    ensures
        *registers == old(gpio).port(P),
        *final(gpio) == old(gpio).with_port(P, *final(registers)),
{
    port_of(gpio, P)
}

/// The registers of the port named `port`.
pub fn port_of(gpio: &mut Gpio, port: u8) -> (registers: &mut GpioPort)
    requires
        is_port(port),
    ensures
        *registers == old(gpio).port(port),
        *final(gpio) == old(gpio).with_port(port, *final(registers)),
{
    if port == PORT_A {
        &mut gpio.a
    } else if port == PORT_B {
        &mut gpio.b
    } else if port == PORT_C {
        &mut gpio.c
    } else if port == PORT_D {
        &mut gpio.d
    } else if port == PORT_E {
        &mut gpio.e
    } else if port == PORT_F {
        &mut gpio.f
    } else {
        &mut gpio.g
    }
}

/// Reads the registers of the port named `port`.
pub fn read_port(gpio: &Gpio, port: u8) -> (registers: GpioPort)
    requires
        is_port(port),
    ensures
        registers == gpio.port(port),
{
    if port == PORT_A {
        gpio.a
    } else if port == PORT_B {
        gpio.b
    } else if port == PORT_C {
        gpio.c
    } else if port == PORT_D {
        gpio.d
    } else if port == PORT_E {
        gpio.e
    } else if port == PORT_F {
        gpio.f
    } else {
        gpio.g
    }
}

} // verus!
