use vstd::prelude::*;

verus! {

/// The three-bit field of `word` that starts at bit `shift`.
pub open spec fn field3(word: u32, shift: u32) -> u32 {
    (word >> shift) & 7
}

/// Whether bit `index` of `word` is set.
pub open spec fn bit32(word: u32, index: u32) -> bool {
    word & (1u32 << index) != 0
}

/// Clearing a three-bit field leaves it zero.
pub proof fn lemma_field_cleared(word: u32, shift: u32)
    requires
        shift <= 27,
    ensures
        field3(word & !(7u32 << shift), shift) == 0,
{
    assert(((word & !(7u32 << shift)) >> shift) & 7 == 0) by (bit_vector)
        requires
            shift <= 27,
    ;
}

/// Clearing a three-bit field leaves every field that does not overlap it as it was.
pub proof fn lemma_field_clear_frame(word: u32, shift: u32, other: u32)
    requires
        shift <= 27,
        other <= 27,
        shift + 3 <= other || other + 3 <= shift,
    ensures
        field3(word & !(7u32 << shift), other) == field3(word, other),
{
    assert(((word & !(7u32 << shift)) >> other) & 7 == (word >> other) & 7) by (bit_vector)
        requires
            shift <= 27,
            other <= 27,
            shift + 3 <= other || other + 3 <= shift,
    ;
}

/// Or-ing a code into a three-bit field that is zero leaves the code there.
pub proof fn lemma_field_filled(word: u32, shift: u32, code: u32)
    requires
        shift <= 27,
        code <= 7,
        field3(word, shift) == 0,
    ensures
        field3(word | (code << shift), shift) == code,
{
    assert(((word | (code << shift)) >> shift) & 7 == code) by (bit_vector)
        requires
            shift <= 27,
            code <= 7,
            (word >> shift) & 7 == 0,
    ;
}

/// Or-ing a code into a three-bit field leaves every field that does not overlap it as it was.
pub proof fn lemma_field_fill_frame(word: u32, shift: u32, other: u32, code: u32)
    requires
        shift <= 27,
        other <= 27,
        code <= 7,
        shift + 3 <= other || other + 3 <= shift,
    ensures
        field3(word | (code << shift), other) == field3(word, other),
{
    assert(((word | (code << shift)) >> other) & 7 == (word >> other) & 7) by (bit_vector)
        requires
            shift <= 27,
            other <= 27,
            code <= 7,
            shift + 3 <= other || other + 3 <= shift,
    ;
}

/// Or-ing one bit into a word sets that bit and leaves the others as they were.
pub proof fn lemma_bit_set(word: u32, index: u32, other: u32)
    requires
        index < 32,
        other < 32,
    ensures
        bit32(word | (1u32 << index), index),
        other != index ==> bit32(word | (1u32 << index), other) == bit32(word, other),
{
    assert((word | (1u32 << index)) & (1u32 << index) != 0) by (bit_vector)
        requires
            index < 32,
    ;
    assert(other != index ==> (word | (1u32 << index)) & (1u32 << other) == word & (1u32
        << other)) by (bit_vector)
        requires
            index < 32,
            other < 32,
    ;
}

/// And-ing a word with the complement of one bit clears that bit and leaves
/// the others as they were.
pub proof fn lemma_bit_cleared(word: u32, index: u32, other: u32)
    requires
        index < 32,
        other < 32,
    ensures
        !bit32(word & !(1u32 << index), index),
        other != index ==> bit32(word & !(1u32 << index), other) == bit32(word, other),
{
    assert((word & !(1u32 << index)) & (1u32 << index) == 0) by (bit_vector)
        requires
            index < 32,
    ;
    assert(other != index ==> (word & !(1u32 << index)) & (1u32 << other) == word & (1u32
        << other)) by (bit_vector)
        requires
            index < 32,
            other < 32,
    ;
}

/// A single bit of a word is never zero as a word.
pub proof fn lemma_bit_nonzero(index: u32)
    requires
        index < 32,
    ensures
        bit32(1u32 << index, index),
        forall|other: u32| other < 32 && other != index ==> !bit32(1u32 << index, other),
{
    assert((1u32 << index) & (1u32 << index) != 0) by (bit_vector)
        requires
            index < 32,
    ;
    assert forall|other: u32| other < 32 && other != index implies !bit32(
        1u32 << index,
        other,
    ) by {
        assert((1u32 << index) & (1u32 << other) == 0) by (bit_vector)
            requires
                index < 32,
                other < 32,
                other != index,
        ;
    }
}

/// Whether the bits of `mask` are all set in `after`, or all clear, as
/// `high` says, while the other bits are as they are in `before`.
pub open spec fn masked_to(before: u8, after: u8, mask: u8, high: bool) -> bool {
    &&& after & mask == if high {
        mask
    } else {
        0u8
    }
    &&& after & !mask == before & !mask
}

/// Setting the bits of a mask sets them all and leaves the others as they were.
pub proof fn lemma_mask_set(byte: u8, mask: u8)
    ensures
        masked_to(byte, (byte | mask) & !0u8, mask, true),
{
    assert(((byte | mask) & !0u8) & mask == mask) by (bit_vector);
    assert(((byte | mask) & !0u8) & !mask == byte & !mask) by (bit_vector);
}

/// Clearing the bits of a mask clears them all and leaves the others as they were.
pub proof fn lemma_mask_cleared(byte: u8, mask: u8)
    ensures
        masked_to(byte, (byte | 0u8) & !mask, mask, false),
{
    assert(((byte | 0u8) & !mask) & mask == 0) by (bit_vector);
    assert(((byte | 0u8) & !mask) & !mask == byte & !mask) by (bit_vector);
}

/// Setting and clearing no bit leaves a byte as it was.
pub proof fn lemma_mask_kept(byte: u8)
    ensures
        (byte | 0u8) & !0u8 == byte,
{
    assert((byte | 0u8) & !0u8 == byte) by (bit_vector);
}

} // verus!
