//! The processor: registers, flags, and the operations that instructions are made of.
use vstd::prelude::*;
use crate::alu::{
    Flags, add_op, add_word_op, bit_num, bit_test_flags, dec_op, flags_byte, flags_of_byte, inc_op,
    lemma_byte_ops, lemma_sign_extension, lemma_word_bytes, lemma_word_mask, logic_flags, rl_op,
    rlc_op, rr_op, rrc_op, sign_extended, sla_op, sra_op, srl_op, sub_op, swap_op,
};
use crate::bit_logic::{self, bit_mask, high_byte, low_byte, word_of};
use crate::isa;
use crate::memory::{Memory, MemoryWriteResult};

verus! {

broadcast use crate::memory::group_loaded_memory;

/// The registers and the interrupt state of the processor.
pub struct Cpu {
    pub a: u8,
    pub b: u8,
    pub c: u8,
    pub d: u8,
    pub e: u8,
    pub h: u8,
    pub l: u8,
    pub sp: u16,
    pub pc: u16,
    pub zero: bool,
    pub subtract: bool,
    pub half_carry: bool,
    pub carry: bool,
    pub halted: bool,
    pub interrupts_enabled: bool,
    pub pending_interrupt_enable: bool,
    pub one_instruction_passed: bool,
}

impl Cpu {
    /// The four flags.
    pub open spec fn flags(self) -> Flags {
        Flags { zero: self.zero, subtract: self.subtract, half_carry: self.half_carry, carry: self.carry }
    }

    /// The processor with its flags replaced.
    pub open spec fn with_flags(self, f: Flags) -> Cpu {
        Cpu { zero: f.zero, subtract: f.subtract, half_carry: f.half_carry, carry: f.carry, ..self }
    }

    /// The processor with its program counter replaced.
    pub open spec fn with_pc(self, pc: u16) -> Cpu {
        Cpu { pc, ..self }
    }

    /// The processor with its stack pointer replaced.
    pub open spec fn with_sp(self, sp: u16) -> Cpu {
        Cpu { sp, ..self }
    }

    /// The register pair HL.
    pub open spec fn hl(self) -> u16 {
        word_of(self.l, self.h)
    }

    /// The register pair BC.
    pub open spec fn bc(self) -> u16 {
        word_of(self.c, self.b)
    }

    /// The register pair DE.
    pub open spec fn de(self) -> u16 {
        word_of(self.e, self.d)
    }

    /// The registers as the boot ROM leaves them.
    pub open spec fn after_boot() -> Cpu {
        Cpu {
            a: 0x01, b: 0x00, c: 0x13, d: 0x00, e: 0xd8, h: 0x01, l: 0x4d,
            sp: 0xfffe, pc: 0x0100,
            zero: true, subtract: false, half_carry: true, carry: true,
            halted: false, interrupts_enabled: false,
            pending_interrupt_enable: false, one_instruction_passed: false,
        }
    }

    /// The processor as it stands after the boot ROM.
    pub fn new() -> (r: Cpu)
        ensures
            r == Cpu::after_boot(),
    {
        Cpu {
            a: 0x01,
            b: 0x00,
            c: 0x13,
            d: 0x00,
            e: 0xd8,
            h: 0x01,
            l: 0x4d,
            sp: 0xfffe,
            pc: 0x0100,
            zero: true,
            subtract: false,
            half_carry: true,
            carry: true,
            halted: false,
            interrupts_enabled: false,
            pending_interrupt_enable: false,
            one_instruction_passed: false,
        }
    }

    /// The flags as the low byte of the AF pair: bits 7 to 4, low nibble clear.
    pub fn get_f(&self) -> (r: u8)
        ensures
            r == flags_byte(self.flags()),
    {
        let mut f: u8 = 0x0;
        f = bit_logic::set_bit_to(self.zero, f, 7);
        f = bit_logic::set_bit_to(self.subtract, f, 6);
        f = bit_logic::set_bit_to(self.half_carry, f, 5);
        f = bit_logic::set_bit_to(self.carry, f, 4);
        let ghost f0: u8 = 0;
        let ghost z = self.zero;
        let ghost n = self.subtract;
        let ghost h = self.half_carry;
        let ghost c = self.carry;
        assert(f == ((if z { 128u8 } else { 0u8 }) + (if n { 64u8 } else { 0u8 }) + (if h { 32u8 } else { 0u8 }) + (if c { 16u8 } else { 0u8 })) as u8) by (bit_vector)
            requires
                f == (if c {
                    (if h { (if n { (if z { 0u8 | (1u8 << 7u8) } else { 0u8 & !(1u8 << 7u8) }) | (1u8 << 6u8) } else { (if z { 0u8 | (1u8 << 7u8) } else { 0u8 & !(1u8 << 7u8) }) & !(1u8 << 6u8) }) | (1u8 << 5u8) }
                     else { (if n { (if z { 0u8 | (1u8 << 7u8) } else { 0u8 & !(1u8 << 7u8) }) | (1u8 << 6u8) } else { (if z { 0u8 | (1u8 << 7u8) } else { 0u8 & !(1u8 << 7u8) }) & !(1u8 << 6u8) }) & !(1u8 << 5u8) }) | (1u8 << 4u8)
                } else {
                    (if h { (if n { (if z { 0u8 | (1u8 << 7u8) } else { 0u8 & !(1u8 << 7u8) }) | (1u8 << 6u8) } else { (if z { 0u8 | (1u8 << 7u8) } else { 0u8 & !(1u8 << 7u8) }) & !(1u8 << 6u8) }) | (1u8 << 5u8) }
                     else { (if n { (if z { 0u8 | (1u8 << 7u8) } else { 0u8 & !(1u8 << 7u8) }) | (1u8 << 6u8) } else { (if z { 0u8 | (1u8 << 7u8) } else { 0u8 & !(1u8 << 7u8) }) & !(1u8 << 6u8) }) & !(1u8 << 5u8) }) & !(1u8 << 4u8)
                });
        f
    }

    /// Sets the flags from bits 7 to 4 of `new_f`.
    pub fn set_f(&mut self, new_f: u8)
        ensures
            *final(self) == old(self).with_flags(flags_of_byte(new_f)),
    {
        self.carry = bit_logic::check_bit(new_f, 4);
        self.half_carry = bit_logic::check_bit(new_f, 5);
        self.subtract = bit_logic::check_bit(new_f, 6);
        self.zero = bit_logic::check_bit(new_f, 7);
    }

    /// Reads the byte at the program counter and steps past it.
    pub fn fetch(&mut self, memory: &Memory) -> (r: u8)
        requires
            memory@.readable(old(self).pc),
        ensures
            r == memory@.read(old(self).pc),
            *final(self) == old(self).with_pc(old(self).pc.wrapping_add(1)),
    {
        let value: u8 = memory.read_from_memory(self.pc);
        self.pc = self.pc.wrapping_add(1);
        value
    }

    /// Reads the byte at the stack pointer and steps past it.
    pub fn pop(&mut self, memory: &Memory) -> (r: u8)
        requires
            memory@.readable(old(self).sp),
        ensures
            r == memory@.read(old(self).sp),
            *final(self) == old(self).with_sp(old(self).sp.wrapping_add(1)),
    {
        let value: u8 = memory.read_from_memory(self.sp);
        self.sp = self.sp.wrapping_add(1);
        value
    }

    /// Steps the stack pointer down and writes `value` there.
    pub fn push(&mut self, memory: &mut Memory, value: u8) -> (r: Vec<MemoryWriteResult>)
        requires
            old(memory)@.writable(old(self).sp.wrapping_sub(1), value),
        ensures
            *final(self) == old(self).with_sp(old(self).sp.wrapping_sub(1)),
            final(memory)@ == old(memory)@.written(old(self).sp.wrapping_sub(1), value),
            r@ == old(memory)@.write_events(old(self).sp.wrapping_sub(1), value),
    {
        self.sp = self.sp.wrapping_sub(1);
        memory.write_to_memory(self.sp, value)
    }

    /// Rotates left; bit 7 goes to bit 0 and to the carry.
    pub fn rlc(&mut self, value: u8) -> (r: u8)
        ensures
            r == rlc_op(value).0,
            *final(self) == old(self).with_flags(rlc_op(value).1),
    {
        proof { lemma_byte_ops(); }
        let truncated: u8 = if bit_logic::check_bit(value, 7) { 1 } else { 0 };
        let result: u8 = (value << 1) | truncated;
        self.zero = result == 0;
        self.subtract = false;
        self.half_carry = false;
        self.carry = bit_logic::check_bit(value, 7);
        result
    }

    /// Rotates right; bit 0 goes to bit 7 and to the carry.
    pub fn rrc(&mut self, value: u8) -> (r: u8)
        ensures
            r == rrc_op(value).0,
            *final(self) == old(self).with_flags(rrc_op(value).1),
    {
        proof { lemma_byte_ops(); }
        let truncated: u8 = if bit_logic::check_bit(value, 0) { 1 } else { 0 };
        let result: u8 = (value >> 1) | (truncated << 7);
        self.zero = result == 0;
        self.subtract = false;
        self.half_carry = false;
        self.carry = bit_logic::check_bit(value, 0);
        result
    }

    /// Rotates left through the carry.
    pub fn rl(&mut self, value: u8) -> (r: u8)
        ensures
            r == rl_op(value, old(self).flags()).0,
            *final(self) == old(self).with_flags(rl_op(value, old(self).flags()).1),
    {
        proof { lemma_byte_ops(); }
        let result: u8 = value << 1 | self.carry as u8;
        self.zero = result == 0;
        self.subtract = false;
        self.half_carry = false;
        self.carry = bit_logic::check_bit(value, 7);
        result
    }

    /// Rotates right through the carry.
    pub fn rr(&mut self, value: u8) -> (r: u8)
        ensures
            r == rr_op(value, old(self).flags()).0,
            *final(self) == old(self).with_flags(rr_op(value, old(self).flags()).1),
    {
        proof { lemma_byte_ops(); }
        let result: u8 = value >> 1 | (self.carry as u8) << 7;
        self.zero = result == 0;
        self.subtract = false;
        self.half_carry = false;
        self.carry = bit_logic::check_bit(value, 0);
        result
    }

    /// Shifts left; bit 7 goes to the carry.
    pub fn sla(&mut self, value: u8) -> (r: u8)
        ensures
            r == sla_op(value).0,
            *final(self) == old(self).with_flags(sla_op(value).1),
    {
        proof { lemma_byte_ops(); }
        let result: u8 = value << 1;
        self.zero = result == 0;
        self.subtract = false;
        self.half_carry = false;
        self.carry = bit_logic::check_bit(value, 7);
        result
    }

    /// Shifts right keeping bit 7; bit 0 goes to the carry.
    pub fn sra(&mut self, value: u8) -> (r: u8)
        ensures
            r == sra_op(value).0,
            *final(self) == old(self).with_flags(sra_op(value).1),
    {
        proof { lemma_byte_ops(); }
        let mut result: u8 = value >> 1;
        result = bit_logic::set_bit_to(bit_logic::check_bit(value, 7), result, 7);
        self.zero = result == 0;
        self.subtract = false;
        self.half_carry = false;
        self.carry = bit_logic::check_bit(value, 0);
        result
    }

    /// Shifts right; bit 0 goes to the carry.
    pub fn srl(&mut self, value: u8) -> (r: u8)
        ensures
            r == srl_op(value).0,
            *final(self) == old(self).with_flags(srl_op(value).1),
    {
        proof { lemma_byte_ops(); }
        let result: u8 = value >> 1;
        self.zero = result == 0;
        self.subtract = false;
        self.half_carry = false;
        self.carry = bit_logic::check_bit(value, 0);
        result
    }

    /// Exchanges the two nibbles.
    pub fn swap(&mut self, value: u8) -> (r: u8)
        ensures
            r == swap_op(value).0,
            *final(self) == old(self).with_flags(swap_op(value).1),
    {
        proof { lemma_byte_ops(); }
        let lower: u8 = value & 0x0f;
        let upper: u8 = (value & 0xf0) >> 4;
        let result: u8 = (lower << 4) | upper;
        self.zero = result == 0;
        self.subtract = false;
        self.half_carry = false;
        self.carry = false;
        result
    }

    /// Tests bit `bit` of `reg`: zero is set when the bit is clear.
    pub fn bit(&mut self, bit: u8, reg: u8)
        requires
            bit < 8,
        ensures
            *final(self) == old(self).with_flags(bit_test_flags(bit, reg, old(self).flags())),
    {
        self.zero = !bit_logic::check_bit(reg, bit);
        self.subtract = false;
        self.half_carry = true;
    }

    /// Sets bit `bit` of a register.
    pub fn set(bit: u8, reg: &mut u8)
        requires
            bit < 8,
        ensures
            *final(reg) == *old(reg) | bit_mask(bit),
    {
        *reg = bit_logic::set_bit(*reg, bit);
    }

    /// Clears bit `bit` of a register.
    pub fn res(bit: u8, reg: &mut u8)
        requires
            bit < 8,
        ensures
            *final(reg) == *old(reg) & !bit_mask(bit),
    {
        *reg = bit_logic::reset_bit(*reg, bit);
    }

    /// Loads a register pair.
    pub fn ld_word(lower_des: &mut u8, upper_des: &mut u8, lower: u8, upper: u8)
        ensures
            *final(lower_des) == lower,
            *final(upper_des) == upper,
    {
        *lower_des = lower;
        *upper_des = upper;
    }

    /// Loads a register.
    pub fn ld_byte(des: &mut u8, src: u8)
        ensures
            *final(des) == src,
    {
        *des = src;
    }

    /// Increments the register pair made of `upper` and `lower`, wrapping.
    pub fn inc_word(lower: &mut u8, upper: &mut u8)
        ensures
            *final(lower) == low_byte(word_of(*old(lower), *old(upper)).wrapping_add(1)),
            *final(upper) == high_byte(word_of(*old(lower), *old(upper)).wrapping_add(1)),
    {
        proof { lemma_word_bytes(); }
        let mut word: u16 = bit_logic::compose_bytes(*lower, *upper);
        word = word.wrapping_add(1);
        *upper = (word >> 8) as u8;
        *lower = word as u8;
    }

    /// Decrements the register pair made of `upper` and `lower`, wrapping.
    pub fn dec_word(lower: &mut u8, upper: &mut u8)
        ensures
            *final(lower) == low_byte(word_of(*old(lower), *old(upper)).wrapping_sub(1)),
            *final(upper) == high_byte(word_of(*old(lower), *old(upper)).wrapping_sub(1)),
    {
        proof { lemma_word_bytes(); }
        let mut word: u16 = bit_logic::compose_bytes(*lower, *upper);
        word = word.wrapping_sub(1);
        *upper = (word >> 8) as u8;
        *lower = word as u8;
    }

    /// Increments a byte; the carry is kept.
    pub fn inc_byte(&mut self, value: u8) -> (r: u8)
        ensures
            r == inc_op(value, old(self).flags()).0,
            *final(self) == old(self).with_flags(inc_op(value, old(self).flags()).1),
    {
        proof { lemma_byte_ops(); }
        let result: u8 = value.wrapping_add(1);
        self.zero = result == 0;
        self.subtract = false;
        self.half_carry = (result & 0xf) == 0;
        result
    }

    /// Decrements a byte; the carry is kept.
    pub fn dec_byte(&mut self, value: u8) -> (r: u8)
        ensures
            r == dec_op(value, old(self).flags()).0,
            *final(self) == old(self).with_flags(dec_op(value, old(self).flags()).1),
    {
        proof { lemma_byte_ops(); }
        let result: u8 = value.wrapping_sub(1);
        self.zero = result == 0;
        self.subtract = true;
        self.half_carry = (result & 0x0f) == 0x0f;
        result
    }

    /// Adds two register pairs, given as bytes; gives the low and the high byte of the sum.
    pub fn add_word(&mut self, lower_value: u8, upper_value: u8, lower_addend: u8, upper_addend: u8) -> (r: (u8, u8))
        ensures
            r.0 == low_byte(add_word_op(word_of(lower_value, upper_value), word_of(lower_addend, upper_addend), old(self).flags()).0),
            r.1 == high_byte(add_word_op(word_of(lower_value, upper_value), word_of(lower_addend, upper_addend), old(self).flags()).0),
            *final(self) == old(self).with_flags(add_word_op(word_of(lower_value, upper_value), word_of(lower_addend, upper_addend), old(self).flags()).1),
    {
        proof { lemma_word_bytes(); lemma_word_mask(); }
        let value_word: u16 = bit_logic::compose_bytes(lower_value, upper_value);
        let addend_word: u16 = bit_logic::compose_bytes(lower_addend, upper_addend);
        let result: u16 = value_word.wrapping_add(addend_word);
        self.subtract = false;
        self.half_carry = (value_word & 0x07ff) + (addend_word & 0x07ff) > 0x07ff;
        self.carry = value_word > 0xffff - addend_word;
        (result as u8, (result >> 8) as u8)
    }

    /// Adds two bytes.
    pub fn add_byte(&mut self, value: u8, addend: u8) -> (r: u8)
        ensures
            r == add_op(value, addend, 0).0,
            *final(self) == old(self).with_flags(add_op(value, addend, 0).1),
    {
        proof { lemma_byte_ops(); }
        let first: u8 = value;
        let second: u8 = addend;
        let result: u8 = first.wrapping_add(second);
        self.zero = result == 0;
        self.subtract = false;
        self.half_carry = (first & 0xf) + (second & 0xf) > 0xf;
        self.carry = (first as u16) + (second as u16) > 0xff;
        result
    }

    /// Adds two bytes and the carry.
    pub fn adc_byte(&mut self, value: u8, addend: u8) -> (r: u8)
        ensures
            r == add_op(value, addend, bit_num(old(self).carry)).0,
            *final(self) == old(self).with_flags(add_op(value, addend, bit_num(old(self).carry)).1),
    {
        proof { lemma_byte_ops(); }
        let first: u8 = value;
        let second: u8 = addend;
        let carry: u8 = self.carry as u8;
        let result: u8 = first.wrapping_add(second).wrapping_add(carry);
        self.zero = result == 0;
        self.subtract = false;
        self.half_carry = ((first & 0xf) + (second & 0xf) + carry) > 0xf;
        self.carry = (first as u16) + (second as u16) + (carry as u16) > 0xff;
        result
    }

    /// Subtracts a byte.
    pub fn sub_byte(&mut self, value: u8, subtrahend: u8) -> (r: u8)
        ensures
            r == sub_op(value, subtrahend, 0).0,
            *final(self) == old(self).with_flags(sub_op(value, subtrahend, 0).1),
    {
        proof { lemma_byte_ops(); }
        let first: u8 = value;
        let second: u8 = subtrahend;
        let result: u8 = first.wrapping_sub(second);
        self.zero = result == 0;
        self.subtract = true;
        self.half_carry = (first & 0xf) < (second & 0xf);
        self.carry = first < second;
        result
    }

    /// Subtracts a byte and the carry.
    pub fn sbc_byte(&mut self, value: u8, subtrahend: u8) -> (r: u8)
        ensures
            r == sub_op(value, subtrahend, bit_num(old(self).carry)).0,
            *final(self) == old(self).with_flags(sub_op(value, subtrahend, bit_num(old(self).carry)).1),
    {
        proof { lemma_byte_ops(); }
        let first: u8 = value;
        let second: u8 = subtrahend;
        let carry: u8 = self.carry as u8;
        let result: u8 = first.wrapping_sub(second).wrapping_sub(carry);
        self.zero = result == 0;
        self.subtract = true;
        self.half_carry = (first & 0xf) < (second & 0xf) + carry;
        self.carry = (first as u16) < (second as u16) + (carry as u16);
        result
    }

    /// Bitwise and; the half carry is set.
    pub fn and_byte(&mut self, value: u8, anding_value: u8) -> (r: u8)
        ensures
            r == value & anding_value,
            *final(self) == old(self).with_flags(logic_flags(r, true)),
    {
        let result: u8 = value & anding_value;
        self.zero = result == 0;
        self.subtract = false;
        self.half_carry = true;
        self.carry = false;
        result
    }

    /// Bitwise exclusive or.
    pub fn xor_byte(&mut self, value: u8, xoring_value: u8) -> (r: u8)
        ensures
            r == value ^ xoring_value,
            *final(self) == old(self).with_flags(logic_flags(r, false)),
    {
        let result: u8 = value ^ xoring_value;
        self.zero = result == 0;
        self.subtract = false;
        self.half_carry = false;
        self.carry = false;
        result
    }

    /// Bitwise or.
    pub fn or_byte(&mut self, value: u8, oring_value: u8) -> (r: u8)
        ensures
            r == value | oring_value,
            *final(self) == old(self).with_flags(logic_flags(r, false)),
    {
        let result: u8 = value | oring_value;
        self.zero = result == 0;
        self.subtract = false;
        self.half_carry = false;
        self.carry = false;
        result
    }

    /// Compares: the flags of a subtraction, the accumulator left as it was.
    pub fn cp_byte(&mut self, value: u8, cping_value: u8)
        ensures
            *final(self) == old(self).with_flags(sub_op(value, cping_value, 0).1),
    {
        proof { lemma_byte_ops(); }
        let first: u8 = value;
        let second: u8 = cping_value;
        let result: u8 = first.wrapping_sub(second);
        self.zero = result == 0;
        self.subtract = true;
        self.half_carry = (first & 0xf) < (second & 0xf);
        self.carry = first < second;
    }

    /// Pops the return address into the program counter.
    pub fn ret(&mut self, memory: &mut Memory)
        requires
            isa::word_readable(old(memory)@, old(self).sp),
        ensures
            *final(self) == old(self).with_sp(old(self).sp.wrapping_add(1).wrapping_add(1)).with_pc(
                word_of(old(memory)@.read(old(self).sp), old(memory)@.read(old(self).sp.wrapping_add(1)))),
            final(memory)@ == old(memory)@,
    {
        let lower: u8 = self.pop(memory);
        let upper: u8 = self.pop(memory);
        let pc: u16 = bit_logic::compose_bytes(lower, upper);
        self.jp_from_word(pc);
    }

    /// Jumps to `address`.
    pub fn jp_from_word(&mut self, address: u16)
        ensures
            *final(self) == old(self).with_pc(address),
    {
        self.pc = address;
    }

    /// Jumps to the address made of a low and a high byte.
    pub fn jp_from_bytes(&mut self, lower: u8, upper: u8)
        ensures
            *final(self) == old(self).with_pc(word_of(lower, upper)),
    {
        self.jp_from_word(bit_logic::compose_bytes(lower, upper));
    }

    /// Jumps to the address held in the two bytes after the program counter.
    pub fn jp_from_pc(&mut self, memory: &Memory)
        requires
            isa::word_readable(memory@, old(self).pc),
        ensures
            *final(self) == old(self).with_pc(
                word_of(memory@.read(old(self).pc), memory@.read(old(self).pc.wrapping_add(1)))),
    {
        let lower: u8 = self.fetch(memory);
        let upper: u8 = self.fetch(memory);
        self.jp_from_bytes(lower, upper);
    }

    /// Pushes the address of the next instruction and jumps to the address
    /// held in the two bytes after the program counter.
    pub fn call(&mut self, memory: &mut Memory) -> (r: Vec<MemoryWriteResult>)
        requires
            isa::word_readable(old(memory)@, old(self).pc),
            isa::push_ok(*old(self), old(memory)@, high_byte(old(self).pc.wrapping_add(1).wrapping_add(1)), low_byte(old(self).pc.wrapping_add(1).wrapping_add(1))),
        ensures
            ({
                let m = old(memory)@;
                let s = *old(self);
                let target = word_of(m.read(s.pc), m.read(s.pc.wrapping_add(1)));
                let ret = s.pc.wrapping_add(1).wrapping_add(1);
                let sp1 = s.sp.wrapping_sub(1);
                let sp2 = sp1.wrapping_sub(1);
                let m1 = m.written(sp1, high_byte(ret));
                &&& *final(self) == s.with_pc(target).with_sp(sp2)
                &&& final(memory)@ == m1.written(sp2, low_byte(ret))
                &&& r@ == m.write_events(sp1, high_byte(ret)) + m1.write_events(sp2, low_byte(ret))
            }),
            final(memory)@.structural(),
            old(memory)@.wf() ==> final(memory)@.wf(),
    {
        proof {
            lemma_word_bytes();
        }
        let mut memory_write_results: Vec<MemoryWriteResult> = Vec::new();
        let lower_new: u8 = self.fetch(memory);
        let upper_new: u8 = self.fetch(memory);
        let mut first = self.push(memory, (self.pc >> 8) as u8);
        memory_write_results.append(&mut first);
        let mut second = self.push(memory, self.pc as u8);
        memory_write_results.append(&mut second);
        self.jp_from_bytes(lower_new, upper_new);
        memory_write_results
    }

    /// Pushes the program counter and jumps to address `value`.
    pub fn rst(&mut self, memory: &mut Memory, value: u8) -> (r: Vec<MemoryWriteResult>)
        requires
            isa::push_ok(*old(self), old(memory)@, high_byte(old(self).pc), low_byte(old(self).pc)),
        ensures
            ({
                let m = old(memory)@;
                let s = *old(self);
                let sp1 = s.sp.wrapping_sub(1);
                let sp2 = sp1.wrapping_sub(1);
                let m1 = m.written(sp1, high_byte(s.pc));
                &&& *final(self) == s.with_pc(value as u16).with_sp(sp2)
                &&& final(memory)@ == m1.written(sp2, low_byte(s.pc))
                &&& r@ == m.write_events(sp1, high_byte(s.pc)) + m1.write_events(sp2, low_byte(s.pc))
            }),
            final(memory)@.structural(),
            old(memory)@.wf() ==> final(memory)@.wf(),
    {
        proof {
            lemma_word_bytes();
        }
        let mut memory_write_results: Vec<MemoryWriteResult> = Vec::new();
        let mut first = self.push(memory, (self.pc >> 8) as u8);
        memory_write_results.append(&mut first);
        let mut second = self.push(memory, self.pc as u8);
        memory_write_results.append(&mut second);
        self.jp_from_word(0x0000 + value as u16);
        memory_write_results
    }

    /// Relative jump by the signed byte after the program counter.
    pub fn jr(&mut self, memory: &Memory)
        requires
            memory@.readable(old(self).pc),
        ensures
            *final(self) == old(self).with_pc(
                old(self).pc.wrapping_add(1).wrapping_add(sign_extended(memory@.read(old(self).pc)))),
    {
        proof {
            lemma_sign_extension();
        }
        let value: u16 = (self.fetch(memory) as i8) as u16;
        self.jp_from_word(self.pc.wrapping_add(value));
    }
}

} // verus!
