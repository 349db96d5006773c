//! The instruction set, as a function from the processor and the memory
//! before an instruction to the processor and the memory after it.
use vstd::prelude::*;
use crate::alu::{
    Flags, add_word_op, alu_op, bit_test_flags, dec_op, flags_byte, flags_of_byte, inc_op,
    rl_op, rlc_op, rotation_op, rr_op, rrc_op, sign_extended,
};
use crate::bit_logic::{bit_mask, high_byte, low_byte, word_of};
use crate::cpu::Cpu;
use crate::memory::{lemma_read_back, lemma_write_elsewhere, plain_address, MemoryModel, MemoryWriteResult};

verus! {

/// Machine cycles of each opcode when no branch is taken.
pub const INSTRUCTION_TIMINGS: [u8; 256] = [
    1,3,2,2,1,1,2,1,5,2,2,2,1,1,2,1,
    1,3,2,2,1,1,2,1,3,2,2,2,1,1,2,1,
    2,3,2,2,1,1,2,1,2,2,2,2,1,1,2,1,
    2,3,2,2,3,3,3,1,2,2,2,2,1,1,2,1,
    1,1,1,1,1,1,2,1,1,1,1,1,1,1,2,1,
    1,1,1,1,1,1,2,1,1,1,1,1,1,1,2,1,
    1,1,1,1,1,1,2,1,1,1,1,1,1,1,2,1,
    2,2,2,2,2,2,1,2,1,1,1,1,1,1,2,1,
    1,1,1,1,1,1,2,1,1,1,1,1,1,1,2,1,
    1,1,1,1,1,1,2,1,1,1,1,1,1,1,2,1,
    1,1,1,1,1,1,2,1,1,1,1,1,1,1,2,1,
    1,1,1,1,1,1,2,1,1,1,1,1,1,1,2,1,
    2,3,3,4,3,4,2,4,2,4,3,0,3,6,2,4,
    2,3,3,0,3,4,2,4,2,4,3,0,3,0,2,4,
    3,3,2,0,0,4,2,4,4,1,4,0,0,0,2,4,
    3,3,2,1,0,4,2,4,3,2,4,1,0,0,2,4,
];
/// Machine cycles of each opcode when its branch is taken.
pub const BRANCH_INSTRUCTION_TIMINGS: [u8; 256] = [
    1,3,2,2,1,1,2,1,5,2,2,2,1,1,2,1,
    1,3,2,2,1,1,2,1,3,2,2,2,1,1,2,1,
    3,3,2,2,1,1,2,1,3,2,2,2,1,1,2,1,
    3,3,2,2,3,3,3,1,3,2,2,2,1,1,2,1,
    1,1,1,1,1,1,2,1,1,1,1,1,1,1,2,1,
    1,1,1,1,1,1,2,1,1,1,1,1,1,1,2,1,
    1,1,1,1,1,1,2,1,1,1,1,1,1,1,2,1,
    2,2,2,2,2,2,1,2,1,1,1,1,1,1,2,1,
    1,1,1,1,1,1,2,1,1,1,1,1,1,1,2,1,
    1,1,1,1,1,1,2,1,1,1,1,1,1,1,2,1,
    1,1,1,1,1,1,2,1,1,1,1,1,1,1,2,1,
    1,1,1,1,1,1,2,1,1,1,1,1,1,1,2,1,
    5,3,4,4,6,4,2,4,5,4,4,0,6,6,2,4,
    5,3,4,0,6,4,2,4,5,4,4,0,6,0,2,4,
    3,3,2,0,0,4,2,4,4,1,4,0,0,0,2,4,
    3,3,2,1,0,4,2,4,3,2,4,1,0,0,2,4,
];
/// Machine cycles of each CB-prefixed opcode.
pub const CB_INSTRUCTION_TIMINGS: [u8; 256] = [
    2,2,2,2,2,2,4,2,2,2,2,2,2,2,4,2,
    2,2,2,2,2,2,4,2,2,2,2,2,2,2,4,2,
    2,2,2,2,2,2,4,2,2,2,2,2,2,2,4,2,
    2,2,2,2,2,2,4,2,2,2,2,2,2,2,4,2,
    2,2,2,2,2,2,3,2,2,2,2,2,2,2,3,2,
    2,2,2,2,2,2,3,2,2,2,2,2,2,2,3,2,
    2,2,2,2,2,2,3,2,2,2,2,2,2,2,3,2,
    2,2,2,2,2,2,3,2,2,2,2,2,2,2,3,2,
    2,2,2,2,2,2,4,2,2,2,2,2,2,2,4,2,
    2,2,2,2,2,2,4,2,2,2,2,2,2,2,4,2,
    2,2,2,2,2,2,4,2,2,2,2,2,2,2,4,2,
    2,2,2,2,2,2,4,2,2,2,2,2,2,2,4,2,
    2,2,2,2,2,2,4,2,2,2,2,2,2,2,4,2,
    2,2,2,2,2,2,4,2,2,2,2,2,2,2,4,2,
    2,2,2,2,2,2,4,2,2,2,2,2,2,2,4,2,
    2,2,2,2,2,2,4,2,2,2,2,2,2,2,4,2,
];


/// The cycles of opcode `op`, branch taken or not, from the timing tables.
pub fn instruction_timing(op: u8, branch_taken: bool) -> (r: u8)
    ensures
        r == timing(op, branch_taken),
{
    proof { reveal(timing); }
    if branch_taken {
        BRANCH_INSTRUCTION_TIMINGS[op as usize]
    } else {
        INSTRUCTION_TIMINGS[op as usize]
    }
}

/// The outcome of one instruction.
pub struct Step {
    pub cpu: Cpu,
    pub memory: MemoryModel,
    pub cycles: u8,
    pub events: Seq<MemoryWriteResult>,
}

/// Register `r` in the order B, C, D, E, H, L, (HL), A of the opcode tables;
/// 6 is the byte that HL points to.
pub open spec fn reg(s: Cpu, m: MemoryModel, r: int) -> u8 {
    if r == 0 { s.b }
    else if r == 1 { s.c }
    else if r == 2 { s.d }
    else if r == 3 { s.e }
    else if r == 4 { s.h }
    else if r == 5 { s.l }
    else if r == 6 { m.read(s.hl()) }
    else { s.a }
}

/// The processor with register `r` (not 6) replaced.
pub open spec fn set_reg(s: Cpu, r: int, v: u8) -> Cpu {
    if r == 0 { Cpu { b: v, ..s } }
    else if r == 1 { Cpu { c: v, ..s } }
    else if r == 2 { Cpu { d: v, ..s } }
    else if r == 3 { Cpu { e: v, ..s } }
    else if r == 4 { Cpu { h: v, ..s } }
    else if r == 5 { Cpu { l: v, ..s } }
    else { Cpu { a: v, ..s } }
}

/// An instruction that ends by storing `v` into register `r`: a memory write
/// through HL for 6.
pub open spec fn put(s: Cpu, m: MemoryModel, r: int, v: u8, cycles: u8) -> Step {
    if r == 6 {
        Step { cpu: s, memory: m.written(s.hl(), v), cycles, events: m.write_events(s.hl(), v) }
    } else {
        Step { cpu: set_reg(s, r, v), memory: m, cycles, events: seq![] }
    }
}

/// An instruction that only changes the processor.
pub open spec fn only(s: Cpu, m: MemoryModel, cycles: u8) -> Step {
    Step { cpu: s, memory: m, cycles, events: seq![] }
}

/// An instruction that writes one byte.
pub open spec fn store(s: Cpu, m: MemoryModel, address: u16, v: u8, cycles: u8) -> Step {
    Step { cpu: s, memory: m.written(address, v), cycles, events: m.write_events(address, v) }
}

/// The register pair `p` in the order BC, DE, HL, SP.
pub open spec fn rp(s: Cpu, p: int) -> u16 {
    if p == 0 { s.bc() } else if p == 1 { s.de() } else if p == 2 { s.hl() } else { s.sp }
}

/// The processor with register pair `p` (BC, DE, HL, SP) replaced.
pub open spec fn set_rp(s: Cpu, p: int, w: u16) -> Cpu {
    if p == 0 { Cpu { c: low_byte(w), b: high_byte(w), ..s } }
    else if p == 1 { Cpu { e: low_byte(w), d: high_byte(w), ..s } }
    else if p == 2 { Cpu { l: low_byte(w), h: high_byte(w), ..s } }
    else { Cpu { sp: w, ..s } }
}

/// The branch condition `k` in the order NZ, Z, NC, C.
pub open spec fn cond(s: Cpu, k: int) -> bool {
    if k == 0 { !s.zero } else if k == 1 { s.zero } else if k == 2 { !s.carry } else { s.carry }
}

/// The byte after the program counter.
pub open spec fn imm8(s: Cpu, m: MemoryModel) -> u8 {
    m.read(s.pc)
}

/// The little-endian word after the program counter.
pub open spec fn imm16(s: Cpu, m: MemoryModel) -> u16 {
    word_of(m.read(s.pc), m.read(s.pc.wrapping_add(1)))
}

/// The program counter `k` bytes on.
pub open spec fn pc_on(s: Cpu, k: u16) -> u16 {
    s.pc.wrapping_add(k)
}

/// The program counter past a word read byte by byte.
pub open spec fn pc_after_word(s: Cpu) -> u16 {
    s.pc.wrapping_add(1).wrapping_add(1)
}

/// The cycles of opcode `op`, branch taken or not.
#[verifier::opaque]
pub open spec fn timing(op: u8, branch: bool) -> u8 {
    if branch { BRANCH_INSTRUCTION_TIMINGS[op as int] } else { INSTRUCTION_TIMINGS[op as int] }
}

/// Decimal adjustment of the accumulator after an addition or a subtraction.
pub open spec fn daa(s: Cpu) -> Cpu {
    let a = s.a as int;
    let low: int = if s.half_carry || (!s.subtract && a % 16 > 9) { 6 } else { 0 };
    let high: int = if s.carry || (!s.subtract && a > 0x99) { 0x60 } else { 0 };
    let r = if !s.subtract { ((a + low + high) % 256) as u8 } else { ((a - low - high + 256) % 256) as u8 };
    Cpu { a: r, zero: r == 0, half_carry: false, carry: high == 0x60, ..s }
}

/// The flags after adding a signed byte to the stack pointer.
pub open spec fn sp_offset_flags(sp: u16, value: u16) -> Flags {
    Flags {
        zero: false,
        subtract: false,
        half_carry: sp as int % 16 + value as int % 16 > 15,
        carry: sp as int % 256 + value as int % 256 > 255,
    }
}

/// A return: the program counter popped from the stack.
pub open spec fn returned(s: Cpu, m: MemoryModel) -> Cpu {
    Cpu {
        pc: word_of(m.read(s.sp), m.read(s.sp.wrapping_add(1))),
        sp: s.sp.wrapping_add(1).wrapping_add(1),
        ..s
    }
}

/// Pushes `hi` then `lo`; the processor is `s` with the stack pointer moved.
pub open spec fn pushed(s: Cpu, m: MemoryModel, hi: u8, lo: u8) -> (Cpu, MemoryModel, Seq<MemoryWriteResult>) {
    let sp1 = s.sp.wrapping_sub(1);
    let sp2 = sp1.wrapping_sub(1);
    let m1 = m.written(sp1, hi);
    (s.with_sp(sp2), m1.written(sp2, lo), m.write_events(sp1, hi) + m1.write_events(sp2, lo))
}

/// A call to `target`, returning to `ret`.
pub open spec fn called(s: Cpu, m: MemoryModel, target: u16, ret: u16, cycles: u8) -> Step {
    let (s2, m2, ev) = pushed(s, m, high_byte(ret), low_byte(ret));
    Step { cpu: s2.with_pc(target), memory: m2, cycles, events: ev }
}

/// A CB-prefixed instruction, the processor just past its second byte.
pub open spec fn cb_step(s: Cpu, m: MemoryModel, op: u8) -> Step {
    let x = op as int / 64;
    let y = (op as int / 8) % 8;
    let z = op as int % 8;
    let v = reg(s, m, z);
    let cycles = CB_INSTRUCTION_TIMINGS[op as int];
    if x == 0 {
        let (r, f) = rotation_op(y, v, s.flags());
        put(s.with_flags(f), m, z, r, cycles)
    } else if x == 1 {
        only(s.with_flags(bit_test_flags(y as u8, v, s.flags())), m, cycles)
    } else if x == 2 {
        put(s, m, z, v & !bit_mask(y as u8), cycles)
    } else {
        put(s, m, z, v | bit_mask(y as u8), cycles)
    }
}

/// An instruction of 0x00..=0x3f.
pub open spec fn block0_step(s: Cpu, m: MemoryModel, op: u8) -> Step {
    let y = op as int / 8;
    let z = op as int % 8;
    let p = y / 2;
    let q = y % 2;
    let t = timing(op, false);
    if z == 0 {
        if y == 1 {
            let address = imm16(s, m);
            let s2 = s.with_pc(pc_after_word(s));
            let m1 = m.written(address, low_byte(s.sp));
            Step {
                cpu: s2,
                memory: m1.written((address + 1) as u16, high_byte(s.sp)),
                cycles: t,
                events: m.write_events(address, low_byte(s.sp)) + m1.write_events((address + 1) as u16, high_byte(s.sp)),
            }
        } else if y == 3 {
            only(s.with_pc(pc_on(s, 1).wrapping_add(sign_extended(imm8(s, m)))), m, t)
        } else if y >= 4 {
            if cond(s, y - 4) {
                only(s.with_pc(pc_on(s, 1).wrapping_add(sign_extended(imm8(s, m)))), m, timing(op, true))
            } else {
                only(s.with_pc(pc_on(s, 1)), m, t)
            }
        } else {
            only(s, m, t)
        }
    } else if z == 1 {
        if q == 0 {
            only(set_rp(s.with_pc(pc_after_word(s)), p, imm16(s, m)), m, t)
        } else {
            let (w, f) = add_word_op(s.hl(), rp(s, p), s.flags());
            only(set_rp(s.with_flags(f), 2, w), m, t)
        }
    } else if z == 2 {
        let address = if p == 0 { s.bc() } else if p == 1 { s.de() } else { s.hl() };
        let s2 = if p == 2 { set_rp(s, 2, s.hl().wrapping_add(1)) } else if p == 3 { set_rp(s, 2, s.hl().wrapping_sub(1)) } else { s };
        if q == 0 {
            store(s2, m, address, s.a, t)
        } else {
            only(Cpu { a: m.read(address), ..s2 }, m, t)
        }
    } else if z == 3 {
        only(set_rp(s, p, if q == 0 { rp(s, p).wrapping_add(1) } else { rp(s, p).wrapping_sub(1) }), m, t)
    } else if z == 4 {
        let (r, f) = inc_op(reg(s, m, y), s.flags());
        put(s.with_flags(f), m, y, r, t)
    } else if z == 5 {
        let (r, f) = dec_op(reg(s, m, y), s.flags());
        put(s.with_flags(f), m, y, r, t)
    } else if z == 6 {
        put(s.with_pc(pc_on(s, 1)), m, y, imm8(s, m), t)
    } else {
        if y == 0 {
            let (r, f) = rlc_op(s.a);
            only(Cpu { a: r, zero: false, ..s.with_flags(f) }, m, t)
        } else if y == 1 {
            let (r, f) = rrc_op(s.a);
            only(Cpu { a: r, zero: false, ..s.with_flags(f) }, m, t)
        } else if y == 2 {
            let (r, f) = rl_op(s.a, s.flags());
            only(Cpu { a: r, zero: false, ..s.with_flags(f) }, m, t)
        } else if y == 3 {
            let (r, f) = rr_op(s.a, s.flags());
            only(Cpu { a: r, zero: false, ..s.with_flags(f) }, m, t)
        } else if y == 4 {
            only(daa(s), m, t)
        } else if y == 5 {
            only(Cpu { a: !s.a, subtract: true, half_carry: true, ..s }, m, t)
        } else if y == 6 {
            only(Cpu { subtract: false, half_carry: false, carry: true, ..s }, m, t)
        } else {
            only(Cpu { subtract: false, half_carry: false, carry: !s.carry, ..s }, m, t)
        }
    }
}

/// An instruction of 0x40..=0x7f: loads between registers, and HALT.
pub open spec fn block1_step(s: Cpu, m: MemoryModel, op: u8) -> Step {
    let y = (op as int / 8) % 8;
    let z = op as int % 8;
    if op == 0x76 {
        only(Cpu { halted: true, ..s }, m, timing(op, false))
    } else {
        put(s, m, y, reg(s, m, z), timing(op, false))
    }
}

/// An instruction of 0x80..=0xbf: arithmetic and logic on the accumulator.
pub open spec fn block2_step(s: Cpu, m: MemoryModel, op: u8) -> Step {
    let y = (op as int / 8) % 8;
    let z = op as int % 8;
    let (r, f) = alu_op(y, s.a, reg(s, m, z), s.flags());
    only(Cpu { a: r, ..s.with_flags(f) }, m, timing(op, false))
}

/// An instruction of 0xc0..=0xff: control flow, stack, and the rest.
pub open spec fn block3_step(s: Cpu, m: MemoryModel, op: u8) -> Step {
    let y = (op as int / 8) % 8;
    let z = op as int % 8;
    let p = y / 2;
    let q = y % 2;
    let t = timing(op, false);
    if z == 0 {
        if y < 4 {
            if cond(s, y) { only(returned(s, m), m, timing(op, true)) } else { only(s, m, t) }
        } else if y == 4 {
            store(s.with_pc(pc_on(s, 1)), m, (0xff00 + imm8(s, m)) as u16, s.a, t)
        } else if y == 5 {
            let value = sign_extended(imm8(s, m));
            only(Cpu { sp: s.sp.wrapping_add(value), pc: pc_on(s, 1), ..s.with_flags(sp_offset_flags(s.sp, value)) }, m, t)
        } else if y == 6 {
            only(Cpu { a: m.read((0xff00 + imm8(s, m)) as u16), pc: pc_on(s, 1), ..s }, m, t)
        } else {
            let value = sign_extended(imm8(s, m));
            let w = s.sp.wrapping_add(value);
            only(Cpu { l: low_byte(w), h: high_byte(w), pc: pc_on(s, 1), ..s.with_flags(sp_offset_flags(s.sp, value)) }, m, t)
        }
    } else if z == 1 {
        if q == 0 {
            let lo = m.read(s.sp);
            let hi = m.read(s.sp.wrapping_add(1));
            let s2 = s.with_sp(s.sp.wrapping_add(1).wrapping_add(1));
            if p == 3 {
                only(Cpu { a: hi, ..s2.with_flags(flags_of_byte(lo)) }, m, t)
            } else {
                only(set_rp(s2, p, word_of(lo, hi)), m, t)
            }
        } else if p == 0 {
            only(returned(s, m), m, t)
        } else if p == 1 {
            only(Cpu { interrupts_enabled: true, ..returned(s, m) }, m, t)
        } else if p == 2 {
            only(s.with_pc(s.hl()), m, t)
        } else {
            only(s.with_sp(s.hl()), m, t)
        }
    } else if z == 2 {
        if y < 4 {
            if cond(s, y) { only(s.with_pc(imm16(s, m)), m, timing(op, true)) } else { only(s.with_pc(pc_on(s, 2)), m, t) }
        } else if y == 4 {
            store(s, m, (0xff00 + s.c) as u16, s.a, t)
        } else if y == 5 {
            store(s.with_pc(pc_after_word(s)), m, imm16(s, m), s.a, t)
        } else if y == 6 {
            only(Cpu { a: m.read((0xff00 + s.c) as u16), ..s }, m, t)
        } else {
            only(Cpu { a: m.read(imm16(s, m)), pc: pc_after_word(s), ..s }, m, t)
        }
    } else if z == 3 {
        if y == 0 {
            only(s.with_pc(imm16(s, m)), m, t)
        } else if y == 1 {
            cb_step(s.with_pc(pc_on(s, 1)), m, imm8(s, m))
        } else if y == 6 {
            only(Cpu { pending_interrupt_enable: false, one_instruction_passed: false, interrupts_enabled: false, ..s }, m, t)
        } else if y == 7 {
            only(Cpu { pending_interrupt_enable: true, ..s }, m, t)
        } else {
            only(s, m, t)
        }
    } else if z == 4 {
        if y < 4 {
            if cond(s, y) {
                called(s, m, imm16(s, m), pc_after_word(s), timing(op, true))
            } else {
                only(s.with_pc(pc_on(s, 2)), m, t)
            }
        } else {
            only(s, m, t)
        }
    } else if z == 5 {
        if q == 0 {
            let (hi, lo) = if p == 0 { (s.b, s.c) } else if p == 1 { (s.d, s.e) } else if p == 2 { (s.h, s.l) } else { (s.a, flags_byte(s.flags())) };
            let (s2, m2, ev) = pushed(s, m, hi, lo);
            only(s2, m2, t)
        } else if p == 0 {
            called(s, m, imm16(s, m), pc_after_word(s), t)
        } else {
            only(s, m, t)
        }
    } else if z == 6 {
        let (r, f) = alu_op(y, s.a, imm8(s, m), s.flags());
        only(Cpu { a: r, pc: pc_on(s, 1), ..s.with_flags(f) }, m, t)
    } else {
        called(s, m, (y * 8) as u16, s.pc, t)
    }
}

/// The byte at `a` and the one after it can be read.
pub open spec fn word_readable(m: MemoryModel, a: u16) -> bool {
    m.readable(a) && m.readable(a.wrapping_add(1))
}

/// `hi` and then `lo` can be pushed onto the stack.
pub open spec fn push_ok(s: Cpu, m: MemoryModel, hi: u8, lo: u8) -> bool {
    m.writable(s.sp.wrapping_sub(1), hi) && m.writable(s.sp.wrapping_sub(1).wrapping_sub(1), lo)
}

/// The byte that a CB-prefixed instruction (not a bit test) stores.
pub open spec fn cb_value(s: Cpu, m: MemoryModel, op: u8) -> u8 {
    let x = op as int / 64;
    let y = (op as int / 8) % 8;
    let v = reg(s, m, op as int % 8);
    if x == 0 { rotation_op(y, v, s.flags()).0 } else if x == 2 { v & !bit_mask(y as u8) } else { v | bit_mask(y as u8) }
}

/// The memory accesses of a CB-prefixed instruction are defined: those
/// through HL, the only ones it makes.
pub open spec fn cb_accesses_ok(s: Cpu, m: MemoryModel, op: u8) -> bool {
    op as int % 8 == 6 ==> m.readable(s.hl()) && (op as int / 64 != 1 ==> m.writable(s.hl(), cb_value(s, m, op)))
}

/// The memory accesses of an instruction of 0x00..=0x3f are defined.
pub open spec fn block0_accesses_ok(s: Cpu, m: MemoryModel, op: u8) -> bool {
    let y = op as int / 8;
    let z = op as int % 8;
    let p = y / 2;
    let q = y % 2;
    if z == 0 {
        if y == 1 {
            let address = imm16(s, m);
            &&& word_readable(m, s.pc)
            &&& m.writable(address, low_byte(s.sp))
            &&& m.writable(address.wrapping_add(1), high_byte(s.sp))
        } else if y == 3 {
            m.readable(s.pc)
        } else if y >= 4 {
            cond(s, y - 4) ==> m.readable(s.pc)
        } else {
            true
        }
    } else if z == 1 {
        q == 0 ==> word_readable(m, s.pc)
    } else if z == 2 {
        let address = if p == 0 { s.bc() } else if p == 1 { s.de() } else { s.hl() };
        if q == 0 { m.writable(address, s.a) } else { m.readable(address) }
    } else if z == 4 {
        y == 6 ==> m.readable(s.hl()) && m.writable(s.hl(), inc_op(m.read(s.hl()), s.flags()).0)
    } else if z == 5 {
        y == 6 ==> m.readable(s.hl()) && m.writable(s.hl(), dec_op(m.read(s.hl()), s.flags()).0)
    } else if z == 6 {
        m.readable(s.pc) && (y == 6 ==> m.writable(s.hl(), imm8(s, m)))
    } else {
        true
    }
}

/// The memory accesses of an instruction of 0x40..=0x7f are defined.
pub open spec fn block1_accesses_ok(s: Cpu, m: MemoryModel, op: u8) -> bool {
    let y = (op as int / 8) % 8;
    let z = op as int % 8;
    op != 0x76 ==> (z == 6 ==> m.readable(s.hl())) && (y == 6 ==> m.writable(s.hl(), reg(s, m, z)))
}

/// The memory accesses of an instruction of 0x80..=0xbf are defined.
pub open spec fn block2_accesses_ok(s: Cpu, m: MemoryModel, op: u8) -> bool {
    op as int % 8 == 6 ==> m.readable(s.hl())
}

/// The memory accesses of an instruction of 0xc0..=0xff are defined.
pub open spec fn block3_accesses_ok(s: Cpu, m: MemoryModel, op: u8) -> bool {
    let y = (op as int / 8) % 8;
    let z = op as int % 8;
    let p = y / 2;
    let q = y % 2;
    if z == 0 {
        if y < 4 {
            cond(s, y) ==> word_readable(m, s.sp)
        } else if y == 4 {
            m.readable(s.pc) && m.writable((0xff00 + imm8(s, m)) as u16, s.a)
        } else if y == 6 {
            m.readable(s.pc) && m.readable((0xff00 + imm8(s, m)) as u16)
        } else {
            m.readable(s.pc)
        }
    } else if z == 1 {
        q == 0 || p < 2 ==> word_readable(m, s.sp)
    } else if z == 2 {
        if y < 4 {
            cond(s, y) ==> word_readable(m, s.pc)
        } else if y == 4 {
            m.writable((0xff00 + s.c) as u16, s.a)
        } else if y == 5 {
            word_readable(m, s.pc) && m.writable(imm16(s, m), s.a)
        } else if y == 6 {
            m.readable((0xff00 + s.c) as u16)
        } else {
            word_readable(m, s.pc) && m.readable(imm16(s, m))
        }
    } else if z == 3 {
        if y == 0 {
            word_readable(m, s.pc)
        } else if y == 1 {
            m.readable(s.pc) && cb_accesses_ok(s.with_pc(pc_on(s, 1)), m, imm8(s, m))
        } else {
            true
        }
    } else if z == 4 {
        y < 4 && cond(s, y) ==> word_readable(m, s.pc) && push_ok(s, m, high_byte(pc_after_word(s)), low_byte(pc_after_word(s)))
    } else if z == 5 {
        if q == 0 {
            let (hi, lo) = if p == 0 { (s.b, s.c) } else if p == 1 { (s.d, s.e) } else if p == 2 { (s.h, s.l) } else { (s.a, flags_byte(s.flags())) };
            push_ok(s, m, hi, lo)
        } else if p == 0 {
            word_readable(m, s.pc) && push_ok(s, m, high_byte(pc_after_word(s)), low_byte(pc_after_word(s)))
        } else {
            true
        }
    } else if z == 6 {
        m.readable(s.pc)
    } else {
        push_ok(s, m, high_byte(s.pc), low_byte(s.pc))
    }
}

/// The memory accesses of opcode `op` are defined, the processor just past
/// the opcode: every byte it reads can be read, and every byte it writes
/// can be written.
pub open spec fn accesses_ok(s: Cpu, m: MemoryModel, op: u8) -> bool {
    if op < 0x40 { block0_accesses_ok(s, m, op) }
    else if op < 0x80 { block1_accesses_ok(s, m, op) }
    else if op < 0xc0 { block2_accesses_ok(s, m, op) }
    else { block3_accesses_ok(s, m, op) }
}

/// On a loaded memory every access is defined.
pub proof fn lemma_loaded_accesses_ok(s: Cpu, m: MemoryModel, op: u8)
    requires
        m.wf(),
    ensures
        accesses_ok(s, m, op),
        cb_accesses_ok(s, m, op),
{
    broadcast use crate::memory::group_loaded_memory;
}

/// The outcome of executing opcode `op`, the processor just past the opcode.
pub open spec fn step(s: Cpu, m: MemoryModel, op: u8) -> Step {
    if op < 0x40 { block0_step(s, m, op) }
    else if op < 0x80 { block1_step(s, m, op) }
    else if op < 0xc0 { block2_step(s, m, op) }
    else { block3_step(s, m, op) }
}

/// The one input on which an instruction is undefined: LD (u16), SP with the
/// address 0xffff, whose second byte would lie past the address space.
pub open spec fn step_defined(s: Cpu, m: MemoryModel, op: u8) -> bool {
    op == 0x08 ==> imm16(s, m) != 0xffff
}

/// The processor after an instruction, with the delayed enabling of
/// interrupts that EI asks for.
pub open spec fn interrupt_delay(s: Cpu) -> Cpu {
    if s.pending_interrupt_enable {
        if s.one_instruction_passed {
            Cpu { interrupts_enabled: true, pending_interrupt_enable: false, one_instruction_passed: false, ..s }
        } else {
            Cpu { one_instruction_passed: true, ..s }
        }
    } else {
        s
    }
}

/// One fetch-and-execute cycle of the processor.
pub open spec fn update_step(s: Cpu, m: MemoryModel) -> Step {
    let op = m.read(s.pc);
    let st = step(s.with_pc(s.pc.wrapping_add(1)), m, op);
    Step { cpu: interrupt_delay(st.cpu), ..st }
}

/// Every instruction takes at most six machine cycles.
pub proof fn lemma_step_cycles(s: Cpu, m: MemoryModel, op: u8)
    ensures
        step(s, m, op).cycles <= 6,
{
    reveal(timing);
    assert(forall|i: int| 0 <= i < 256 ==> #[trigger] INSTRUCTION_TIMINGS[i] <= 6);
    assert(forall|i: int| 0 <= i < 256 ==> #[trigger] BRANCH_INSTRUCTION_TIMINGS[i] <= 6);
    assert(forall|i: int| 0 <= i < 256 ==> #[trigger] CB_INSTRUCTION_TIMINGS[i] <= 4);
}

/// The instruction at the program counter is defined.
pub open spec fn update_defined(s: Cpu, m: MemoryModel) -> bool {
    step_defined(s.with_pc(s.pc.wrapping_add(1)), m, m.read(s.pc))
}

/// What a call pushes, a return pops: after a call to `target` that returns
/// to `ret`, a return loads `ret` into the program counter and restores the
/// stack pointer, when the two stack bytes lie in plain memory.
pub proof fn lemma_call_then_return(s: Cpu, m: MemoryModel, target: u16, ret: u16, cycles: u8)
    requires
        m.structural(),
        plain_address(s.sp.wrapping_sub(1)),
        plain_address(s.sp.wrapping_sub(1).wrapping_sub(1)),
    ensures
        returned(called(s, m, target, ret, cycles).cpu, called(s, m, target, ret, cycles).memory).pc == ret,
        returned(called(s, m, target, ret, cycles).cpu, called(s, m, target, ret, cycles).memory).sp == s.sp,
{
    broadcast use crate::bit_logic::lemma_bytes_of_word, crate::memory::lemma_write_keeps_structural;
    let sp1 = s.sp.wrapping_sub(1);
    let sp2 = sp1.wrapping_sub(1);
    let m1 = m.written(sp1, high_byte(ret));
    let m2 = m1.written(sp2, low_byte(ret));
    lemma_read_back(m1, sp2, low_byte(ret));
    lemma_read_back(m, sp1, high_byte(ret));
    lemma_write_elsewhere(m1, sp2, low_byte(ret), sp1);
    assert(sp2.wrapping_add(1) == sp1);
    assert(m2.read(sp2) == low_byte(ret));
    assert(m2.read(sp1) == high_byte(ret));
}

/// The CB prefix runs the CB-prefixed instruction named by the byte after it,
/// the processor past that byte.
pub proof fn lemma_cb_prefix(s: Cpu, m: MemoryModel)
    ensures
        step(s, m, 0xcb) == cb_step(s.with_pc(pc_on(s, 1)), m, imm8(s, m)),
{
}

/// PUSH AF then POP AF gives back A, the flags and the stack pointer, when
/// the two stack bytes lie in plain memory.
pub proof fn lemma_push_pop_af(s: Cpu, m: MemoryModel)
    requires
        m.structural(),
        plain_address(s.sp.wrapping_sub(1)),
        plain_address(s.sp.wrapping_sub(1).wrapping_sub(1)),
    ensures
        ({
            let pushed_st = step(s, m, 0xf5);
            let popped = step(pushed_st.cpu, pushed_st.memory, 0xf1).cpu;
            &&& popped.a == s.a
            &&& popped.flags() == s.flags()
            &&& popped.sp == s.sp
        }),
{
    broadcast use crate::memory::lemma_write_keeps_structural;
    let sp1 = s.sp.wrapping_sub(1);
    let sp2 = sp1.wrapping_sub(1);
    let f = flags_byte(s.flags());
    let m1 = m.written(sp1, s.a);
    lemma_read_back(m1, sp2, f);
    lemma_read_back(m, sp1, s.a);
    lemma_write_elsewhere(m1, sp2, f, sp1);
    crate::alu::lemma_flags_byte_round_trip(s.flags(), 0);
    assert(sp2.wrapping_add(1) == sp1);
}

/// EI takes effect after the instruction that follows it: after EI the
/// enable is pending, and after a NOP interrupts are enabled.
pub proof fn lemma_ei_delay(s: Cpu, m: MemoryModel)
    requires
        m.read(s.pc) == 0xfb,
        m.read(s.pc.wrapping_add(1)) == 0x00,
        !s.interrupts_enabled,
        !s.pending_interrupt_enable,
        !s.one_instruction_passed,
    ensures
        ({
            let first = update_step(s, m);
            let second = update_step(first.cpu, first.memory);
            &&& !first.cpu.interrupts_enabled && first.cpu.pending_interrupt_enable && first.cpu.one_instruction_passed
            &&& second.cpu.interrupts_enabled && !second.cpu.pending_interrupt_enable && !second.cpu.one_instruction_passed
        }),
{
    let first = update_step(s, m);
    assert(first.memory == m);
    assert(first.cpu.pc == s.pc.wrapping_add(1));
}

/// CCF complements the carry flag, SCF sets it; both clear N and H and
/// change nothing else, in the processor or the memory.
pub proof fn lemma_carry_flag_ops(s: Cpu, m: MemoryModel)
    ensures
        step(s, m, 0x3f).cpu == (Cpu { carry: !s.carry, subtract: false, half_carry: false, ..s }),
        step(s, m, 0x3f).memory == m,
        step(s, m, 0x37).cpu == (Cpu { carry: true, subtract: false, half_carry: false, ..s }),
        step(s, m, 0x37).memory == m,
{
}

} // verus!
