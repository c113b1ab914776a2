//! Single-bit access within an 8-bit register value.
//!
//! The read/modify/write protocol of the driver is built on one pure
//! operation: replace exactly one bit of a byte. It is defined here as a
//! spec function mirrored by an executable function, together with the
//! lemmas that pin its behaviour down bit by bit.

use vstd::prelude::*;

verus! {

/// Whether bit `index` of `byte` is set.
pub open spec fn spec_bit(byte: u8, index: usize) -> bool {
    (byte >> index) & 1u8 == 1u8
}

/// `byte` with bit `index` replaced by `value` and every other bit kept.
pub open spec fn spec_update_bit(byte: u8, index: usize, value: bool) -> u8 {
    if value {
        byte | (1u8 << index)
    } else {
        byte & !(1u8 << index)
    }
}

/// Read a single bit out of a byte.
pub fn get_bit(byte: u8, index: usize) -> (r: bool)
    requires
        index < 8,
    ensures
        r == spec_bit(byte, index),
{
    (byte >> index) & 1u8 == 1u8
}

/// Replace a single bit of a byte, keeping all others.
pub fn update_bit(byte: u8, index: usize, value: bool) -> (r: u8)
    requires
        index < 8,
    ensures
        r == spec_update_bit(byte, index, value),
{
    if value {
        byte | (1u8 << index)
    } else {
        byte & !(1u8 << index)
    }
}

/// The updated byte reads back, at the target position, exactly the bit
/// value that was written.
pub proof fn lemma_update_bit_reads_back(byte: u8, index: usize, value: bool)
    requires
        index < 8,
    ensures
        spec_bit(spec_update_bit(byte, index, value), index) == value,
{
    assert(spec_bit(spec_update_bit(byte, index, value), index) == value) by (bit_vector)
        requires
            index < 8,
    ;
}

/// Updating one bit leaves every sibling bit of the byte untouched.
pub proof fn lemma_update_bit_preserves_siblings(byte: u8, index: usize, other: usize, value: bool)
    requires
        index < 8,
        other < 8,
        other != index,
    ensures
        spec_bit(spec_update_bit(byte, index, value), other) == spec_bit(byte, other),
{
    assert(spec_bit(spec_update_bit(byte, index, value), other) == spec_bit(byte, other))
        by (bit_vector)
        requires
            index < 8,
            other < 8,
            other != index,
    ;
}

/// Writing a bit that already holds the requested value returns the byte
/// unchanged: the read/modify/write cycle is idempotent per bit.
pub proof fn lemma_update_bit_idempotent(byte: u8, index: usize, value: bool)
    requires
        index < 8,
        spec_bit(byte, index) == value,
    ensures
        spec_update_bit(byte, index, value) == byte,
{
    assert(spec_bit(byte, index) == value ==> spec_update_bit(byte, index, value) == byte)
        by (bit_vector)
        requires
            index < 8,
    ;
}

} // verus!
