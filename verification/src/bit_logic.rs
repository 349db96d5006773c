//! Bit helpers on bytes and words.
use vstd::prelude::*;

verus! {

/// Whether bit `position` of `byte` is set.
pub open spec fn bit_of(byte: u8, position: u8) -> bool {
    (byte >> position) & 1u8 == 1u8
}

/// The mask of bit `position` of a byte.
pub open spec fn bit_mask(position: u8) -> u8 {
    1u8 << position
}

/// The word whose high byte is `upper` and whose low byte is `lower`.
pub open spec fn word_of(lower: u8, upper: u8) -> u16 {
    (upper as int * 256 + lower as int) as u16
}

/// The low byte of a word.
pub open spec fn low_byte(word: u16) -> u8 {
    (word as int % 256) as u8
}

/// The high byte of a word.
pub open spec fn high_byte(word: u16) -> u8 {
    (word as int / 256) as u8
}

/// Whether bit `position` of `byte` is set.
pub fn check_bit(byte: u8, position: u8) -> (r: bool)
    requires
        position < 8,
    ensures
        r == bit_of(byte, position),
        r == (byte & bit_mask(position) != 0u8),
{
    let r: bool = bit_value(byte, position) != 0;
    assert(((byte >> position) & 1u8 == 1u8) == (byte & (1u8 << position) != 0u8)) by (bit_vector)
        requires position < 8u8;
    assert(((byte >> position) & 1u8 != 0u8) == ((byte >> position) & 1u8 == 1u8)) by (bit_vector);
    r
}

/// The value of bit `position` of `byte`: 0 or 1.
pub fn bit_value(byte: u8, position: u8) -> (r: u8)
    requires
        position < 8,
    ensures
        r == (byte >> position) & 1u8,
        r == 0 || r == 1,
        r == 1 <==> bit_of(byte, position),
{
    let r: u8 = (byte >> position) & 1;
    assert(r == 0 || r == 1) by (bit_vector)
        requires r == (byte >> position) & 1u8;
    r
}

/// `byte` with bit `position` set.
pub fn set_bit(byte: u8, position: u8) -> (r: u8)
    requires
        position < 8,
    ensures
        r == byte | bit_mask(position),
        bit_of(r, position),
        forall|i: u8| i < 8 && i != position ==> bit_of(r, i) == bit_of(byte, i),
{
    let r: u8 = byte | (1 << position);
    assert(bit_of(r, position)) by (bit_vector)
        requires r == byte | (1u8 << position), position < 8u8;
    assert forall|i: u8| i < 8 && i != position implies bit_of(r, i) == bit_of(byte, i) by {
        assert(((r >> i) & 1u8 == 1u8) == ((byte >> i) & 1u8 == 1u8)) by (bit_vector)
            requires r == byte | (1u8 << position), position < 8u8, i < 8u8, i != position;
    }
    r
}

/// `byte` with bit `position` cleared.
pub fn reset_bit(byte: u8, position: u8) -> (r: u8)
    requires
        position < 8,
    ensures
        r == byte & !bit_mask(position),
        !bit_of(r, position),
        forall|i: u8| i < 8 && i != position ==> bit_of(r, i) == bit_of(byte, i),
{
    let r: u8 = byte & (!(1 << position));
    assert(!bit_of(r, position)) by (bit_vector)
        requires r == byte & !(1u8 << position), position < 8u8;
    assert forall|i: u8| i < 8 && i != position implies bit_of(r, i) == bit_of(byte, i) by {
        assert(((r >> i) & 1u8 == 1u8) == ((byte >> i) & 1u8 == 1u8)) by (bit_vector)
            requires r == byte & !(1u8 << position), position < 8u8, i < 8u8, i != position;
    }
    r
}

/// `byte` with bit `position` set when `on` holds and cleared otherwise.
pub fn set_bit_to(on: bool, byte: u8, position: u8) -> (r: u8)
    requires
        position < 8,
    ensures
        r == (if on { byte | bit_mask(position) } else { byte & !bit_mask(position) }),
        bit_of(r, position) == on,
        forall|i: u8| i < 8 && i != position ==> bit_of(r, i) == bit_of(byte, i),
{
    if on {
        set_bit(byte, position)
    } else {
        reset_bit(byte, position)
    }
}

/// The word made of a low and a high byte.
pub fn compose_bytes(lower: u8, upper: u8) -> (r: u16)
    ensures
        r == word_of(lower, upper),
        r == upper as int * 256 + lower as int,
{
    let mut upper16: u16 = upper as u16;
    upper16 = upper16 << 8;
    let r: u16 = upper16 | (lower as u16);
    assert(r == upper as int * 256 + lower as int) by (bit_vector)
        requires upper16 == (upper as u16) << 8u16, r == upper16 | (lower as u16);
    r
}

/// The low and the high byte of a word, in that order.
pub fn decompose_bytes(bytes: u16) -> (r: (u8, u8))
    ensures
        r.0 == low_byte(bytes),
        r.1 == high_byte(bytes),
        r.0 as int == bytes as int % 256,
        r.1 as int == bytes as int / 256,
{
    let r: (u8, u8) = (bytes as u8, (bytes >> 8) as u8);
    assert(bytes as u8 == bytes as int % 256) by (bit_vector);
    assert((bytes >> 8u16) as u8 == bytes as int / 256) by (bit_vector);
    r
}

/// Reading a bit after setting it gives `true`, after clearing it `false`;
/// the other bits are left as they were.
pub proof fn lemma_set_reset_check(byte: u8, position: u8, other: u8)
    requires
        position < 8,
        other < 8,
    ensures
        bit_of(byte | bit_mask(position), position),
        !bit_of(byte & !bit_mask(position), position),
        other != position ==> bit_of(byte | bit_mask(position), other) == bit_of(byte, other),
        other != position ==> bit_of(byte & !bit_mask(position), other) == bit_of(byte, other),
{
    assert(((byte | (1u8 << position)) >> position) & 1u8 == 1u8) by (bit_vector)
        requires position < 8u8;
    assert(((byte & !(1u8 << position)) >> position) & 1u8 != 1u8) by (bit_vector)
        requires position < 8u8;
    assert(other != position ==> ((((byte | (1u8 << position)) >> other) & 1u8 == 1u8) == ((byte >> other) & 1u8 == 1u8))) by (bit_vector)
        requires position < 8u8, other < 8u8;
    assert(other != position ==> ((((byte & !(1u8 << position)) >> other) & 1u8 == 1u8) == ((byte >> other) & 1u8 == 1u8))) by (bit_vector)
        requires position < 8u8, other < 8u8;
}

/// Writing back the bit that was read leaves the byte unchanged.
pub proof fn lemma_set_bit_to_own_bit(byte: u8, position: u8)
    requires
        position < 8,
    ensures
        (if bit_of(byte, position) { byte | bit_mask(position) } else { byte & !bit_mask(position) }) == byte,
{
    assert((if (byte >> position) & 1u8 == 1u8 { byte | (1u8 << position) } else { byte & !(1u8 << position) }) == byte) by (bit_vector)
        requires position < 8u8;
}

/// Setting a bit twice is setting it once, and clearing after setting is
/// clearing; setting then clearing a bit that was clear gives the byte back.
pub proof fn lemma_set_reset_idempotent(byte: u8, position: u8)
    requires
        position < 8,
    ensures
        !bit_of(byte, position) ==> (byte | bit_mask(position)) & !bit_mask(position) == byte,
        (byte | bit_mask(position)) | bit_mask(position) == byte | bit_mask(position),
        (byte & !bit_mask(position)) & !bit_mask(position) == byte & !bit_mask(position),
        (byte | bit_mask(position)) & !bit_mask(position) == byte & !bit_mask(position),
        (byte & !bit_mask(position)) | bit_mask(position) == byte | bit_mask(position),
{
    assert((byte | (1u8 << position)) | (1u8 << position) == byte | (1u8 << position)) by (bit_vector);
    assert((byte & !(1u8 << position)) & !(1u8 << position) == byte & !(1u8 << position)) by (bit_vector);
    assert((byte | (1u8 << position)) & !(1u8 << position) == byte & !(1u8 << position)) by (bit_vector);
    assert((byte & !(1u8 << position)) | (1u8 << position) == byte | (1u8 << position)) by (bit_vector);
    lemma_set_bit_to_own_bit(byte, position);
}

/// The two bytes of a composed word are the bytes it was composed of.
pub broadcast proof fn lemma_word_of_bytes(lower: u8, upper: u8)
    ensures
        #[trigger] word_of(lower, upper) == upper as int * 256 + lower as int,
        low_byte(word_of(lower, upper)) == lower,
        high_byte(word_of(lower, upper)) == upper,
{
}

/// Composing the two bytes of a word gives back the word.
pub broadcast proof fn lemma_bytes_of_word(w: u16)
    ensures
        #[trigger] word_of(low_byte(w), high_byte(w)) == w,
{
}

} // verus!
