//! Bit fields of 32-bit register words: the vocabulary every register file
//! in this crate is specified in.

use vstd::prelude::*;

verus! {

/// The field of `word` that starts at bit `offset` and is `mask` wide
/// (`mask` being the field's all-ones value, such as `0b11` for two bits).
pub open spec fn get_field(word: u32, offset: u32, mask: u32) -> u32 {
    (word >> offset) & mask
}

/// `word` with the field at `offset` replaced by `value`, cut to the field's
/// width; every bit outside the field is left as it was.
pub open spec fn put_field(word: u32, offset: u32, mask: u32, value: u32) -> u32 {
    (word & !(mask << offset)) | ((value & mask) << offset)
}

/// Whether bit `index` of `word` is set.
pub open spec fn get_bit(word: u32, index: u32) -> bool {
    (word >> index) & 1u32 == 1u32
}

/// `word` with bit `index` set to `on`, the other bits left alone.
pub open spec fn put_bit(word: u32, index: u32, on: bool) -> u32 {
    if on {
        word | (1u32 << index)
    } else {
        word & !(1u32 << index)
    }
}

/// Whether `mask` shifted up by `offset` still fits in a word, so that the
/// field it describes lies wholly inside the register.
pub open spec fn field_fits(offset: u32, mask: u32) -> bool {
    offset < 32 && (mask << offset) >> offset == mask
}

/// Reads a field.
pub fn read_field(word: u32, offset: u32, mask: u32) -> (r: u32)
    requires
        offset < 32,
    ensures
        r == get_field(word, offset, mask),
{
    (word >> offset) & mask
}

/// Replaces a field, leaving the rest of the word alone.
pub fn write_field(word: u32, offset: u32, mask: u32, value: u32) -> (r: u32)
    requires
        offset < 32,
    ensures
        r == put_field(word, offset, mask, value),
{
    (word & !(mask << offset)) | ((value & mask) << offset)
}

/// Reads one bit.
pub fn read_bit(word: u32, index: u32) -> (r: bool)
    requires
        index < 32,
    ensures
        r == get_bit(word, index),
{
    (word >> index) & 1u32 == 1u32
}

/// Sets or clears one bit, leaving the rest of the word alone.
pub fn write_bit(word: u32, index: u32, on: bool) -> (r: u32)
    requires
        index < 32,
    ensures
        r == put_bit(word, index, on),
{
    if on {
        word | (1u32 << index)
    } else {
        word & !(1u32 << index)
    }
}

/// A field that was written reads back as what was written, cut to its
/// width, and every bit outside it keeps its value.
pub proof fn lemma_put_field(word: u32, offset: u32, mask: u32, value: u32)
    requires
        field_fits(offset, mask),
    ensures
        get_field(put_field(word, offset, mask, value), offset, mask) == value & mask,
        put_field(word, offset, mask, value) & !(mask << offset) == word & !(mask << offset),
{
    assert(((word & !(mask << offset)) | ((value & mask) << offset)) >> offset & mask == value
        & mask) by (bit_vector)
        requires
            offset < 32,
            (mask << offset) >> offset == mask,
    ;
    assert(((word & !(mask << offset)) | ((value & mask) << offset)) & !(mask << offset) == word
        & !(mask << offset)) by (bit_vector);
}

/// A bit that was written reads back as written; every other bit keeps its
/// value.
pub proof fn lemma_put_bit(word: u32, index: u32, on: bool, other: u32)
    requires
        index < 32,
        other < 32,
    ensures
        get_bit(put_bit(word, index, on), index) == on,
        other != index ==> get_bit(put_bit(word, index, on), other) == get_bit(word, other),
{
    if on {
        assert(((word | (1u32 << index)) >> index) & 1u32 == 1u32) by (bit_vector)
            requires
                index < 32,
        ;
        assert(other != index ==> (((word | (1u32 << index)) >> other) & 1u32 == 1u32) == ((
        word >> other) & 1u32 == 1u32)) by (bit_vector)
            requires
                index < 32,
                other < 32,
        ;
    } else {
        assert(((word & !(1u32 << index)) >> index) & 1u32 != 1u32) by (bit_vector)
            requires
                index < 32,
        ;
        assert(other != index ==> (((word & !(1u32 << index)) >> other) & 1u32 == 1u32) == ((
        word >> other) & 1u32 == 1u32)) by (bit_vector)
            requires
                index < 32,
                other < 32,
        ;
    }
}

} // verus!
