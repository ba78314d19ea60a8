//! Single-bit register updates.
//!
//! On the device these are bit-band accesses: each bit of a peripheral
//! register has a word address of its own, so one store changes one bit and
//! cannot race with an interrupt. On a register value they are the
//! corresponding mask operations.

use vstd::prelude::*;

verus! {

/// The word with only bit `bit` set.
pub open spec fn mask(bit: u32) -> u32
    recommends
        bit < 32,
{
    1u32 << bit
}

/// Whether bit `bit` of `word` is set.
pub open spec fn is_set(word: u32, bit: u32) -> bool
    recommends
        bit < 32,
{
    (word >> bit) & 1u32 != 0
}

/// `word` with bit `bit` set and every other bit kept.
pub open spec fn with_set(word: u32, bit: u32) -> u32 {
    word | mask(bit)
}

/// `word` with bit `bit` cleared and every other bit kept.
pub open spec fn with_cleared(word: u32, bit: u32) -> u32 {
    word & !mask(bit)
}

/// Setting a bit sets it and leaves the others as they were.
pub proof fn lemma_set(word: u32, bit: u32)
    requires
        bit < 32,
    ensures
        is_set(with_set(word, bit), bit),
        forall|other: u32|
            other < 32 && other != bit ==> (#[trigger] is_set(with_set(word, bit), other)
                == is_set(word, other)),
{
    assert(((word | (1u32 << bit)) >> bit) & 1u32 != 0) by (bit_vector)
        requires
            bit < 32,
    ;
    assert forall|other: u32| other < 32 && other != bit implies (#[trigger] is_set(
        with_set(word, bit),
        other,
    ) == is_set(word, other)) by {
        assert(((word | (1u32 << bit)) >> other) & 1u32 == (word >> other) & 1u32)
            by (bit_vector)
            requires
                bit < 32,
                other < 32,
                other != bit,
        ;
    }
}

/// Clearing a bit clears it and leaves the others as they were.
pub proof fn lemma_clear(word: u32, bit: u32)
    requires
        bit < 32,
    ensures
        !is_set(with_cleared(word, bit), bit),
        forall|other: u32|
            other < 32 && other != bit ==> (#[trigger] is_set(with_cleared(word, bit), other)
                == is_set(word, other)),
{
    assert(((word & !(1u32 << bit)) >> bit) & 1u32 == 0) by (bit_vector)
        requires
            bit < 32,
    ;
    assert forall|other: u32| other < 32 && other != bit implies (#[trigger] is_set(
        with_cleared(word, bit),
        other,
    ) == is_set(word, other)) by {
        assert(((word & !(1u32 << bit)) >> other) & 1u32 == (word >> other) & 1u32)
            by (bit_vector)
            requires
                bit < 32,
                other < 32,
                other != bit,
        ;
    }
}

/// Address of the first peripheral register that has bit-band aliases
pub const PERIPHERAL_BASE: u32 = 0x4000_0000;

/// Number of bytes of peripheral registers that have bit-band aliases
pub const PERIPHERAL_SIZE: u32 = 0x10_0000;

/// Address of the first bit-band alias of the peripheral region
pub const ALIAS_BASE: u32 = 0x4200_0000;

/// Whether a register at `address` has bit-band aliases.
pub open spec fn has_alias(address: u32) -> bool {
    PERIPHERAL_BASE <= address < PERIPHERAL_BASE + PERIPHERAL_SIZE
}

/// The address of the word that stands for bit `bit` of the byte at
/// `address`: every byte of the region has 32 bytes of aliases, every bit
/// four.
pub open spec fn alias_of(address: u32, bit: u32) -> int {
    ALIAS_BASE + (address - PERIPHERAL_BASE) * 32 + bit * 4
}

/// Computes the address of the word that stands for bit `bit` of the
/// register at `address`.
pub fn alias_address(address: u32, bit: u32) -> (alias: u32)
    requires
        has_alias(address),
        bit < 32,
    ensures
        alias == alias_of(address, bit),
        ALIAS_BASE <= alias < ALIAS_BASE + 32 * PERIPHERAL_SIZE + 128,
        alias % 4 == 0,
{
    ALIAS_BASE + (address - PERIPHERAL_BASE) * 32 + bit * 4
}

/// Reads bit `bit` of a register.
pub fn read(register: u32, bit: u32) -> (set: bool)
    requires
        bit < 32,
    ensures
        set == is_set(register, bit),
{
    (register >> bit) & 1u32 != 0
}

/// Sets bit `bit` of a register.
pub fn set(register: &mut u32, bit: u32)
    requires
        bit < 32,
    ensures
        *final(register) == with_set(*old(register), bit),
        is_set(*final(register), bit),
{
    proof {
        lemma_set(*register, bit);
    }
    *register = *register | (1u32 << bit);
}

/// Clears bit `bit` of a register.
pub fn clear(register: &mut u32, bit: u32)
    requires
        bit < 32,
    ensures
        *final(register) == with_cleared(*old(register), bit),
        !is_set(*final(register), bit),
{
    proof {
        lemma_clear(*register, bit);
    }
    *register = *register & !(1u32 << bit);
}

/// Sets or clears bit `bit` of a register.
pub fn write(register: &mut u32, bit: u32, value: bool)
    requires
        bit < 32,
    ensures
        *final(register) == if value {
            with_set(*old(register), bit)
        } else {
            with_cleared(*old(register), bit)
        },
        is_set(*final(register), bit) == value,
{
    if value {
        set(register, bit);
    } else {
        clear(register, bit);
    }
}

} // verus!
