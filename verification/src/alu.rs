//! The arithmetic and logic of the processor, as mathematical functions of
//! their operands and the flags.
use vstd::prelude::*;

verus! {

/// The four condition flags of the processor.
pub struct Flags {
    pub zero: bool,
    pub subtract: bool,
    pub half_carry: bool,
    pub carry: bool,
}

/// 1 when `b` holds, else 0.
pub open spec fn bit_num(b: bool) -> int {
    if b { 1 } else { 0 }
}

/// Flags after a rotate or shift: only zero and carry can be set.
pub open spec fn shift_flags(r: u8, carry: bool) -> Flags {
    Flags { zero: r == 0, subtract: false, half_carry: false, carry }
}

/// Rotate left; bit 7 goes to bit 0 and to the carry.
pub open spec fn rlc_op(v: u8) -> (u8, Flags) {
    let r = ((v as int * 2) % 256 + v as int / 128) as u8;
    (r, shift_flags(r, v >= 128))
}

/// Rotate right; bit 0 goes to bit 7 and to the carry.
pub open spec fn rrc_op(v: u8) -> (u8, Flags) {
    let r = (v as int / 2 + (v as int % 2) * 128) as u8;
    (r, shift_flags(r, v % 2 == 1))
}

/// Rotate left through the carry.
pub open spec fn rl_op(v: u8, f: Flags) -> (u8, Flags) {
    let r = ((v as int * 2) % 256 + bit_num(f.carry)) as u8;
    (r, shift_flags(r, v >= 128))
}

/// Rotate right through the carry.
pub open spec fn rr_op(v: u8, f: Flags) -> (u8, Flags) {
    let r = (v as int / 2 + bit_num(f.carry) * 128) as u8;
    (r, shift_flags(r, v % 2 == 1))
}

/// Arithmetic shift left.
pub open spec fn sla_op(v: u8) -> (u8, Flags) {
    let r = ((v as int * 2) % 256) as u8;
    (r, shift_flags(r, v >= 128))
}

/// Arithmetic shift right: bit 7 is kept.
pub open spec fn sra_op(v: u8) -> (u8, Flags) {
    let r = (v as int / 2 + (if v >= 128 { 128int } else { 0int })) as u8;
    (r, shift_flags(r, v % 2 == 1))
}

/// Logical shift right.
pub open spec fn srl_op(v: u8) -> (u8, Flags) {
    let r = (v as int / 2) as u8;
    (r, shift_flags(r, v % 2 == 1))
}

/// Exchange of the two nibbles.
pub open spec fn swap_op(v: u8) -> (u8, Flags) {
    let r = ((v as int % 16) * 16 + v as int / 16) as u8;
    (r, shift_flags(r, false))
}

/// The rotate or shift that a CB-prefixed opcode in 0x00..=0x3f selects by its bits 3 to 5.
pub open spec fn rotation_op(y: int, v: u8, f: Flags) -> (u8, Flags) {
    if y == 0 { rlc_op(v) }
    else if y == 1 { rrc_op(v) }
    else if y == 2 { rl_op(v, f) }
    else if y == 3 { rr_op(v, f) }
    else if y == 4 { sla_op(v) }
    else if y == 5 { sra_op(v) }
    else if y == 6 { swap_op(v) }
    else { srl_op(v) }
}

/// Flags after testing bit `bit` of `v`.
pub open spec fn bit_test_flags(bit: u8, v: u8, f: Flags) -> Flags {
    Flags { zero: !crate::bit_logic::bit_of(v, bit), subtract: false, half_carry: true, carry: f.carry }
}

/// Increment of a byte; the carry is kept.
pub open spec fn inc_op(v: u8, f: Flags) -> (u8, Flags) {
    let r = ((v as int + 1) % 256) as u8;
    (r, Flags { zero: r == 0, subtract: false, half_carry: r % 16 == 0, carry: f.carry })
}

/// Decrement of a byte; the carry is kept.
pub open spec fn dec_op(v: u8, f: Flags) -> (u8, Flags) {
    let r = ((v as int + 255) % 256) as u8;
    (r, Flags { zero: r == 0, subtract: true, half_carry: r % 16 == 15, carry: f.carry })
}

/// Addition of two words; the zero flag is kept.
pub open spec fn add_word_op(x: u16, y: u16, f: Flags) -> (u16, Flags) {
    let r = ((x as int + y as int) % 0x10000) as u16;
    (r, Flags {
        zero: f.zero,
        subtract: false,
        half_carry: x as int % 0x800 + y as int % 0x800 > 0x7ff,
        carry: x as int + y as int > 0xffff,
    })
}

/// Addition, with the carry flag as a third addend when `with_carry`.
pub open spec fn add_op(x: u8, y: u8, c: int) -> (u8, Flags) {
    let r = ((x as int + y as int + c) % 256) as u8;
    (r, Flags {
        zero: r == 0,
        subtract: false,
        half_carry: x as int % 16 + y as int % 16 + c > 15,
        carry: x as int + y as int + c > 255,
    })
}

/// Subtraction, with the carry flag as a further subtrahend when `c` is 1.
pub open spec fn sub_op(x: u8, y: u8, c: int) -> (u8, Flags) {
    let r = ((x as int - y as int - c + 512) % 256) as u8;
    (r, Flags {
        zero: r == 0,
        subtract: true,
        half_carry: (x as int % 16) < (y as int % 16) + c,
        carry: (x as int) < y as int + c,
    })
}

/// Flags after a logical operation with result `r`.
pub open spec fn logic_flags(r: u8, half_carry: bool) -> Flags {
    Flags { zero: r == 0, subtract: false, half_carry, carry: false }
}

/// The operation on the accumulator that bits 3 to 5 of an opcode in
/// 0x80..=0xbf (or 0xc6, 0xce, ..., 0xfe) select; compare leaves the
/// accumulator as it was.
pub open spec fn alu_op(y: int, a: u8, v: u8, f: Flags) -> (u8, Flags) {
    if y == 0 { add_op(a, v, 0) }
    else if y == 1 { add_op(a, v, bit_num(f.carry)) }
    else if y == 2 { sub_op(a, v, 0) }
    else if y == 3 { sub_op(a, v, bit_num(f.carry)) }
    else if y == 4 { (a & v, logic_flags(a & v, true)) }
    else if y == 5 { (a ^ v, logic_flags(a ^ v, false)) }
    else if y == 6 { (a | v, logic_flags(a | v, false)) }
    else { (a, sub_op(a, v, 0).1) }
}

/// The byte that holds the four flags in bits 7 to 4.
pub open spec fn flags_byte(f: Flags) -> u8 {
    (bit_num(f.zero) * 128 + bit_num(f.subtract) * 64 + bit_num(f.half_carry) * 32 + bit_num(f.carry) * 16) as u8
}

/// The flags that bits 7 to 4 of a byte hold.
pub open spec fn flags_of_byte(b: u8) -> Flags {
    Flags {
        zero: crate::bit_logic::bit_of(b, 7),
        subtract: crate::bit_logic::bit_of(b, 6),
        half_carry: crate::bit_logic::bit_of(b, 5),
        carry: crate::bit_logic::bit_of(b, 4),
    }
}

/// The word that a signed byte, widened with its sign, adds to another word.
pub open spec fn sign_extended(v: u8) -> u16 {
    if v < 128 { v as u16 } else { (v as int + 0xff00) as u16 }
}

/// Arithmetic facts about the bit operations on bytes that the processor uses.
pub proof fn lemma_byte_ops()
    by (bit_vector)
    ensures
        forall|x: u8| #[trigger] (x << 1u8) == (x % 128u8) * 2u8,
        forall|x: u8| #[trigger] (x >> 1u8) == x / 2u8,
        forall|x: u8| #[trigger] (x & 0xfu8) == x % 16u8,
        forall|x: u8| #[trigger] (x & 0x0fu8) == x % 16u8,
        forall|x: u8| #[trigger] ((x & 0xf0u8) >> 4u8) == x / 16u8,
        forall|x: u8| #[trigger] ((x & 0x0fu8) << 4u8) == (x % 16u8) * 16u8,
        forall|x: u8| #[trigger] ((x >> 7u8) & 1u8) == x / 128u8,
        forall|x: u8| #[trigger] ((x >> 0u8) & 1u8) == x % 2u8,
        forall|x: u8, t: u8| t <= 1 ==> #[trigger] ((x << 1u8) | t) == ((x % 128u8) * 2u8 + t) as u8,
        forall|x: u8, t: u8| t <= 1 ==> #[trigger] ((x >> 1u8) | (t << 7u8)) == (x / 2u8 + t * 128u8) as u8,
        forall|x: u8| #[trigger] ((x >> 1u8) | (1u8 << 7u8)) == (x / 2u8 + 128u8) as u8,
        forall|x: u8| #[trigger] ((x >> 1u8) & !(1u8 << 7u8)) == x / 2u8,
        forall|x: u8| #[trigger] (((x & 0x0fu8) << 4u8) | ((x & 0xf0u8) >> 4u8)) == ((x % 16u8) * 16u8 + x / 16u8) as u8,
{
}

/// The low eleven bits of a word are its remainder modulo 0x800.
pub proof fn lemma_word_mask()
    by (bit_vector)
    ensures
        forall|x: u16| #[trigger] (x & 0x07ffu16) == x % 0x800u16,
        forall|x: u16| #[trigger] (x & 0xfu16) == x % 16u16,
        forall|x: u16| #[trigger] (x & 0xffu16) == x % 256u16,
{
}

/// A signed byte widened to a word.
pub proof fn lemma_sign_extension()
    by (bit_vector)
    ensures
        forall|x: u8| #[trigger] ((x as i8) as u16) == (if x < 128u8 { x as u16 } else { ((x as u16) + 0xff00u16) as u16 }),
{
}

/// The two bytes of a word, by shift and truncation.
pub proof fn lemma_word_bytes()
    by (bit_vector)
    ensures
        forall|x: u16| #[trigger] ((x >> 8u16) as u8) == (x / 256u16) as u8,
        forall|x: u16| #[trigger] (x as u8) == (x % 256u16) as u8,
{
}

/// The adjustments that decimal adjustment combines.
pub proof fn lemma_decimal_adjust_bits()
    by (bit_vector)
    ensures
        0u8 | 6u8 == 6u8,
        6u8 | 6u8 == 6u8,
        0x60u8 | 6u8 == 0x66u8,
        0x66u8 | 6u8 == 0x66u8,
        0u8 | 0x60u8 == 0x60u8,
        6u8 | 0x60u8 == 0x66u8,
        0x60u8 | 0x60u8 == 0x60u8,
        0x66u8 | 0x60u8 == 0x66u8,
{
}

/// The byte of the flags and the flags of a byte: writing the flags to a
/// byte and reading them back gives the same flags, and reading the flags
/// of a byte and writing them gives the byte with its low nibble cleared.
pub proof fn lemma_flags_byte_round_trip(f: Flags, b: u8)
    ensures
        flags_of_byte(flags_byte(f)) == f,
        flags_byte(flags_of_byte(b)) == b & 0xf0u8,
{
    let z = f.zero;
    let n = f.subtract;
    let h = f.half_carry;
    let c = f.carry;
    let x = flags_byte(f);
    assert(x == ((if z { 128u8 } else { 0u8 }) + (if n { 64u8 } else { 0u8 }) + (if h { 32u8 } else { 0u8 }) + (if c { 16u8 } else { 0u8 })) as u8);
    let y = flags_byte(flags_of_byte(b));
    assert(y == ((if (b >> 7u8) & 1u8 == 1u8 { 128u8 } else { 0u8 }) + (if (b >> 6u8) & 1u8 == 1u8 { 64u8 } else { 0u8 })
        + (if (b >> 5u8) & 1u8 == 1u8 { 32u8 } else { 0u8 }) + (if (b >> 4u8) & 1u8 == 1u8 { 16u8 } else { 0u8 })) as u8);
    assert(
        ((x >> 7u8) & 1u8 == 1u8) == z && ((x >> 6u8) & 1u8 == 1u8) == n && ((x >> 5u8) & 1u8 == 1u8) == h && ((x >> 4u8) & 1u8 == 1u8) == c
        && y == b & 0xf0u8
    ) by (bit_vector)
        requires
            x == ((if z { 128u8 } else { 0u8 }) + (if n { 64u8 } else { 0u8 }) + (if h { 32u8 } else { 0u8 }) + (if c { 16u8 } else { 0u8 })) as u8,
            y == ((if (b >> 7u8) & 1u8 == 1u8 { 128u8 } else { 0u8 }) + (if (b >> 6u8) & 1u8 == 1u8 { 64u8 } else { 0u8 })
                + (if (b >> 5u8) & 1u8 == 1u8 { 32u8 } else { 0u8 }) + (if (b >> 4u8) & 1u8 == 1u8 { 16u8 } else { 0u8 })) as u8;
}

/// Rotating left and then right gives the byte back, either way round.
pub proof fn lemma_rotate_inverse(v: u8)
    ensures
        rrc_op(rlc_op(v).0).0 == v,
        rlc_op(rrc_op(v).0).0 == v,
{
    let a = v as int / 128;
    let b = v as int % 128;
    assert(rlc_op(v).0 == 2 * b + a);
    let c = v as int % 2;
    let d = v as int / 2;
    assert(rrc_op(v).0 == d + c * 128);
}

/// Rotating left and then right through the carry gives the byte and the
/// carry back.
pub proof fn lemma_rotate_through_carry_inverse(v: u8, f: Flags)
    ensures
        rr_op(rl_op(v, f).0, rl_op(v, f).1).0 == v,
        rr_op(rl_op(v, f).0, rl_op(v, f).1).1.carry == f.carry,
        rl_op(rr_op(v, f).0, rr_op(v, f).1).0 == v,
        rl_op(rr_op(v, f).0, rr_op(v, f).1).1.carry == f.carry,
{
    let a = v as int / 128;
    let b = v as int % 128;
    assert(rl_op(v, f).0 == 2 * b + bit_num(f.carry));
    let c = v as int % 2;
    let d = v as int / 2;
    assert(rr_op(v, f).0 == d + bit_num(f.carry) * 128);
}

/// Swapping the nibbles twice gives the byte back.
pub proof fn lemma_swap_involution(v: u8)
    ensures
        swap_op(swap_op(v).0).0 == v,
{
    let lo = v as int % 16;
    let hi = v as int / 16;
    assert(swap_op(v).0 == lo * 16 + hi);
}

} // verus!
