//! Opcodes 0x00..=0x3f.
use vstd::prelude::*;
use crate::alu::{lemma_byte_ops, lemma_decimal_adjust_bits, lemma_word_bytes};
use crate::bit_logic;
use crate::cpu::Cpu;
use crate::isa;
use crate::memory::{Memory, MemoryWriteResult};

verus! {

broadcast use crate::memory::group_loaded_memory, crate::bit_logic::lemma_word_of_bytes, crate::bit_logic::lemma_bytes_of_word;

impl Cpu {
    /// The loads, increments, rotations of the accumulator and relative jumps (0x00..=0x3f).
    pub(crate) fn execute_misc(&mut self, memory: &mut Memory, instruction: u8) -> (r: (u8, Vec<MemoryWriteResult>))
        requires
            old(memory)@.structural(),
            crate::isa::block0_accesses_ok(*old(self), old(memory)@, instruction),
            0x00 <= instruction <= 0x3f,
            isa::step_defined(*old(self), old(memory)@, instruction),
        ensures
            ({
                let st = isa::block0_step(*old(self), old(memory)@, instruction);
                &&& *final(self) == st.cpu
                &&& final(memory)@ == st.memory
                &&& r.0 == st.cycles
                &&& r.1@ == st.events
            }),
            final(memory)@.structural(),
            old(memory)@.wf() ==> final(memory)@.wf(),
    {
        if instruction <= 0x0f {
            self.execute_00_0f(memory, instruction)
        } else if instruction <= 0x1f {
            self.execute_10_1f(memory, instruction)
        } else if instruction <= 0x23 {
            self.execute_20_23(memory, instruction)
        } else if instruction <= 0x27 {
            self.execute_24_27(memory, instruction)
        } else if instruction <= 0x2f {
            self.execute_28_2f(memory, instruction)
        } else {
            self.execute_30_3f(memory, instruction)
        }
    }

    /// Opcodes 0x00..=0x0f.
    #[verifier::rlimit(100)]
    pub(crate) fn execute_00_0f(&mut self, memory: &mut Memory, instruction: u8) -> (r: (u8, Vec<MemoryWriteResult>))
        requires
            old(memory)@.structural(),
            crate::isa::block0_accesses_ok(*old(self), old(memory)@, instruction),
            0x00 <= instruction <= 0x0f,
            isa::step_defined(*old(self), old(memory)@, instruction),
        ensures
            ({
                let st = isa::block0_step(*old(self), old(memory)@, instruction);
                &&& *final(self) == st.cpu
                &&& final(memory)@ == st.memory
                &&& r.0 == st.cycles
                &&& r.1@ == st.events
            }),
            final(memory)@.structural(),
            old(memory)@.wf() ==> final(memory)@.wf(),
    {
        let mut memory_write_results: Vec<MemoryWriteResult> = Vec::new();
        let mut branch_taken: bool = false;
        match instruction {
            0x00 => {
                // NOP
            },
            0x01 => {
                // LD BC, u16
                let lower: u8 = self.fetch(memory);
                let upper: u8 = self.fetch(memory);
                Cpu::ld_word(&mut self.c, &mut self.b, lower, upper);
            },
            0x02 => {
                // LD (BC), A
                memory_write_results.append(&mut memory.write_to_memory(bit_logic::compose_bytes(self.c, self.b), self.a));
            },
            0x03 => {
                // INC BC
                Cpu::inc_word(&mut self.c, &mut self.b);
            },
            0x04 => {
                // INC B
                self.b = self.inc_byte(self.b);
            },
            0x05 => {
                // DEC B
                self.b = self.dec_byte(self.b);
            },
            0x06 => {
                // LD B, u8
                let value: u8 = self.fetch(memory);
                Cpu::ld_byte(&mut self.b, value);
            },
            0x07 => {
                // RLCA
                self.a = self.rlc(self.a);
                self.zero = false;
            },
            0x08 => {
                // LD (u16), SP
                proof { lemma_word_bytes(); }
                let lower = self.fetch(memory);
                let upper = self.fetch(memory);
                let address = bit_logic::compose_bytes(lower, upper);
                memory_write_results.append(&mut memory.write_to_memory(address, self.sp as u8));
                memory_write_results.append(&mut memory.write_to_memory(address + 1, (self.sp >> 8) as u8));
            },
            0x09 => {
                // ADD HL, BC
                let (lower, upper) = self.add_word(self.l, self.h, self.c, self.b);
                self.l = lower;
                self.h = upper;
            },
            0x0a => {
                // LD A, (BC)
                let value: u8 = memory.read_from_memory(bit_logic::compose_bytes(self.c, self.b));
                Cpu::ld_byte(&mut self.a, value);
            },
            0x0b => {
                // DEC BC
                Cpu::dec_word(&mut self.c, &mut self.b);
            },
            0x0c => {
                // INC C
                self.c = self.inc_byte(self.c);
            },
            0x0d => {
                // DEC C
                self.c = self.dec_byte(self.c);
            },
            0x0e => {
                // LD C, u8
                let value: u8 = self.fetch(memory);
                Cpu::ld_byte(&mut self.c, value);
            },
            0x0f => {
                // RRCA
                self.a = self.rrc(self.a);
                self.zero = false;
            },
            _ => {},
        }
        (isa::instruction_timing(instruction, branch_taken), memory_write_results)
    }

    /// Opcodes 0x10..=0x1f.
    #[verifier::rlimit(100)]
    pub(crate) fn execute_10_1f(&mut self, memory: &mut Memory, instruction: u8) -> (r: (u8, Vec<MemoryWriteResult>))
        requires
            old(memory)@.structural(),
            crate::isa::block0_accesses_ok(*old(self), old(memory)@, instruction),
            0x10 <= instruction <= 0x1f,
        ensures
            ({
                let st = isa::block0_step(*old(self), old(memory)@, instruction);
                &&& *final(self) == st.cpu
                &&& final(memory)@ == st.memory
                &&& r.0 == st.cycles
                &&& r.1@ == st.events
            }),
            final(memory)@.structural(),
            old(memory)@.wf() ==> final(memory)@.wf(),
    {
        let mut memory_write_results: Vec<MemoryWriteResult> = Vec::new();
        let mut branch_taken: bool = false;
        match instruction {
            0x10 => {
                // STOP
            },
            0x11 => {
                // LD DE, u16
                let lower: u8 = self.fetch(memory);
                let upper: u8 = self.fetch(memory);
                Cpu::ld_word(&mut self.e, &mut self.d, lower, upper);
            },
            0x12 => {
                // LD (DE), A
                memory_write_results.append(&mut memory.write_to_memory(bit_logic::compose_bytes(self.e, self.d), self.a));
            },
            0x13 => {
                // INC DE
                Cpu::inc_word(&mut self.e, &mut self.d);
            },
            0x14 => {
                // INC D
                self.d = self.inc_byte(self.d);
            },
            0x15 => {
                // DEC D
                self.d = self.dec_byte(self.d);
            },
            0x16 => {
                // LD D, u8
                let value: u8 = self.fetch(memory);
                Cpu::ld_byte(&mut self.d, value);
            },
            0x17 => {
                // RLA
                self.a = self.rl(self.a);
                self.zero = false;
            },
            0x18 => {
                // JR i8
                self.jr(memory);
            },
            0x19 => {
                // ADD HL, DE
                let (lower, upper) = self.add_word(self.l, self.h, self.e, self.d);
                self.l = lower;
                self.h = upper;
            },
            0x1a => {
                // LD A, (DE)
                let value: u8 = memory.read_from_memory(bit_logic::compose_bytes(self.e, self.d));
                Cpu::ld_byte(&mut self.a, value);
            },
            0x1b => {
                // DEC DE
                Cpu::dec_word(&mut self.e, &mut self.d);
            },
            0x1c => {
                // INC E
                self.e = self.inc_byte(self.e);
            },
            0x1d => {
                // DEC E
                self.e = self.dec_byte(self.e);
            },
            0x1e => {
                // LD E, u8
                let value: u8 = self.fetch(memory);
                Cpu::ld_byte(&mut self.e, value);
            },
            0x1f => {
                // RRA
                self.a = self.rr(self.a);
                self.zero = false;
            },
            _ => {},
        }
        (isa::instruction_timing(instruction, branch_taken), memory_write_results)
    }

    /// Opcodes 0x20..=0x23.
    #[verifier::rlimit(100)]
    pub(crate) fn execute_20_23(&mut self, memory: &mut Memory, instruction: u8) -> (r: (u8, Vec<MemoryWriteResult>))
        requires
            old(memory)@.structural(),
            crate::isa::block0_accesses_ok(*old(self), old(memory)@, instruction),
            0x20 <= instruction <= 0x23,
        ensures
            ({
                let st = isa::block0_step(*old(self), old(memory)@, instruction);
                &&& *final(self) == st.cpu
                &&& final(memory)@ == st.memory
                &&& r.0 == st.cycles
                &&& r.1@ == st.events
            }),
            final(memory)@.structural(),
            old(memory)@.wf() ==> final(memory)@.wf(),
    {
        let mut memory_write_results: Vec<MemoryWriteResult> = Vec::new();
        let mut branch_taken: bool = false;
        match instruction {
            0x20 => {
                // JR NZ, i8
                if !self.zero {
                    self.jr(memory);
                    branch_taken = true;
                } else {
                    self.pc = self.pc.wrapping_add(1);
                }
            },
            0x21 => {
                // LD HL, u16
                let lower: u8 = self.fetch(memory);
                let upper: u8 = self.fetch(memory);
                Cpu::ld_word(&mut self.l, &mut self.h, lower, upper);
            },
            0x22 => {
                // LD (HL+), A
                memory_write_results.append(&mut memory.write_to_memory(bit_logic::compose_bytes(self.l, self.h), self.a));
                Cpu::inc_word(&mut self.l, &mut self.h);
            },
            0x23 => {
                // INC HL
                Cpu::inc_word(&mut self.l, &mut self.h);
            },
            _ => {},
        }
        (isa::instruction_timing(instruction, branch_taken), memory_write_results)
    }

    /// Opcodes 0x24..=0x27.
    pub(crate) fn execute_24_27(&mut self, memory: &mut Memory, instruction: u8) -> (r: (u8, Vec<MemoryWriteResult>))
        requires
            old(memory)@.structural(),
            crate::isa::block0_accesses_ok(*old(self), old(memory)@, instruction),
            0x24 <= instruction <= 0x27,
        ensures
            ({
                let st = isa::block0_step(*old(self), old(memory)@, instruction);
                &&& *final(self) == st.cpu
                &&& final(memory)@ == st.memory
                &&& r.0 == st.cycles
                &&& r.1@ == st.events
            }),
            final(memory)@.structural(),
            old(memory)@.wf() ==> final(memory)@.wf(),
    {
        if instruction <= 0x26 {
            self.execute_24_26(memory, instruction)
        } else {
            self.execute_27_27(memory, instruction)
        }
    }

    /// Opcodes 0x24..=0x26.
    #[verifier::rlimit(100)]
    pub(crate) fn execute_24_26(&mut self, memory: &mut Memory, instruction: u8) -> (r: (u8, Vec<MemoryWriteResult>))
        requires
            old(memory)@.structural(),
            crate::isa::block0_accesses_ok(*old(self), old(memory)@, instruction),
            0x24 <= instruction <= 0x26,
        ensures
            ({
                let st = isa::block0_step(*old(self), old(memory)@, instruction);
                &&& *final(self) == st.cpu
                &&& final(memory)@ == st.memory
                &&& r.0 == st.cycles
                &&& r.1@ == st.events
            }),
            final(memory)@.structural(),
            old(memory)@.wf() ==> final(memory)@.wf(),
    {
        let mut memory_write_results: Vec<MemoryWriteResult> = Vec::new();
        let mut branch_taken: bool = false;
        match instruction {
            0x24 => {
                // INC H
                self.h = self.inc_byte(self.h);
            },
            0x25 => {
                // DEC H
                self.h = self.dec_byte(self.h);
            },
            0x26 => {
                // LD H, u8
                let value: u8 = self.fetch(memory);
                Cpu::ld_byte(&mut self.h, value);
            },
            _ => {},
        }
        (isa::instruction_timing(instruction, branch_taken), memory_write_results)
    }

    /// Opcode 0x27, DAA.
    #[verifier::rlimit(100)]
    pub(crate) fn execute_27_27(&mut self, memory: &mut Memory, instruction: u8) -> (r: (u8, Vec<MemoryWriteResult>))
        requires
            old(memory)@.structural(),
            crate::isa::block0_accesses_ok(*old(self), old(memory)@, instruction),
            0x27 <= instruction <= 0x27,
        ensures
            ({
                let st = isa::block0_step(*old(self), old(memory)@, instruction);
                &&& *final(self) == st.cpu
                &&& final(memory)@ == st.memory
                &&& r.0 == st.cycles
                &&& r.1@ == st.events
            }),
            final(memory)@.structural(),
            old(memory)@.wf() ==> final(memory)@.wf(),
    {
        let mut memory_write_results: Vec<MemoryWriteResult> = Vec::new();
        let mut branch_taken: bool = false;
        match instruction {
            0x27 => {
                // DAA
                proof {
                    assert(self.a & 0x0fu8 == self.a % 16u8) by { lemma_byte_ops(); }
                    lemma_decimal_adjust_bits();
                }
                let mut a: u8 = self.a;
                let mut adjust: u8 = if self.carry { 0x60 } else { 0x00 };
                
                if self.half_carry { adjust |= 0x06; }
                
                if !self.subtract {
                    if a & 0x0f > 0x09 { adjust |= 0x06; }
                    if a > 0x99 { adjust |= 0x60; }
                    a = a.wrapping_add(adjust);
                } else {
                    a = a.wrapping_sub(adjust);
                }
                
                self.zero = a == 0;
                self.half_carry = false;
                self.carry = adjust >= 0x60;
                self.a = a;
            },
            _ => {},
        }
        (isa::instruction_timing(instruction, branch_taken), memory_write_results)
    }

    /// Opcodes 0x28..=0x2f.
    #[verifier::rlimit(100)]
    pub(crate) fn execute_28_2f(&mut self, memory: &mut Memory, instruction: u8) -> (r: (u8, Vec<MemoryWriteResult>))
        requires
            old(memory)@.structural(),
            crate::isa::block0_accesses_ok(*old(self), old(memory)@, instruction),
            0x28 <= instruction <= 0x2f,
        ensures
            ({
                let st = isa::block0_step(*old(self), old(memory)@, instruction);
                &&& *final(self) == st.cpu
                &&& final(memory)@ == st.memory
                &&& r.0 == st.cycles
                &&& r.1@ == st.events
            }),
            final(memory)@.structural(),
            old(memory)@.wf() ==> final(memory)@.wf(),
    {
        let mut memory_write_results: Vec<MemoryWriteResult> = Vec::new();
        let mut branch_taken: bool = false;
        match instruction {
            0x28 => {
                // JR Z, i8
                if self.zero {
                    self.jr(memory);
                    branch_taken = true;
                } else {
                    self.pc = self.pc.wrapping_add(1);
                }
            },
            0x29 => {
                // ADD HL, HL
                let (lower, upper) = self.add_word(self.l, self.h, self.l, self.h);
                self.l = lower;
                self.h = upper;
            },
            0x2a => {
                // LD A, (HL+)
                let value: u8 = memory.read_from_memory(bit_logic::compose_bytes(self.l, self.h));
                Cpu::ld_byte(&mut self.a, value);
                Cpu::inc_word(&mut self.l, &mut self.h);
            },
            0x2b => {
                // DEC HL
                Cpu::dec_word(&mut self.l, &mut self.h);
            },
            0x2c => {
                // INC L
                self.l = self.inc_byte(self.l);
            },
            0x2d => {
                // DEC L
                self.l = self.dec_byte(self.l);
            },
            0x2e => {
                // LD L, u8
                let value: u8 = self.fetch(memory);
                Cpu::ld_byte(&mut self.l, value);
            },
            0x2f => {
                // CPL
                self.a = !self.a;
                self.subtract = true;
                self.half_carry = true;
            },
            _ => {},
        }
        (isa::instruction_timing(instruction, branch_taken), memory_write_results)
    }

    /// Opcodes 0x30..=0x3f.
    #[verifier::rlimit(100)]
    pub(crate) fn execute_30_3f(&mut self, memory: &mut Memory, instruction: u8) -> (r: (u8, Vec<MemoryWriteResult>))
        requires
            old(memory)@.structural(),
            crate::isa::block0_accesses_ok(*old(self), old(memory)@, instruction),
            0x30 <= instruction <= 0x3f,
        ensures
            ({
                let st = isa::block0_step(*old(self), old(memory)@, instruction);
                &&& *final(self) == st.cpu
                &&& final(memory)@ == st.memory
                &&& r.0 == st.cycles
                &&& r.1@ == st.events
            }),
            final(memory)@.structural(),
            old(memory)@.wf() ==> final(memory)@.wf(),
    {
        let mut memory_write_results: Vec<MemoryWriteResult> = Vec::new();
        let mut branch_taken: bool = false;
        match instruction {
            0x30 => {
                // JR NC, i8
                if !self.carry {
                    self.jr(memory);
                    branch_taken = true;
                } else {
                    self.pc = self.pc.wrapping_add(1);
                }
            },
            0x31 => {
                // LD SP, u16
                let lower: u8 = self.fetch(memory);
                let upper: u8 = self.fetch(memory);
                self.sp = bit_logic::compose_bytes(lower, upper);
            },
            0x32 => {
                // LD (HL-), A
                memory_write_results.append(&mut memory.write_to_memory(bit_logic::compose_bytes(self.l, self.h), self.a));
                Cpu::dec_word(&mut self.l, &mut self.h);
            },
            0x33 => {
                // INC SP
                self.sp = self.sp.wrapping_add(1);
            },
            0x34 => {
                // INC (HL)
                let address: u16 = bit_logic::compose_bytes(self.l, self.h);
                let mut new_value: u8 = memory.read_from_memory(address);
                new_value = self.inc_byte(new_value);
                memory_write_results.append(&mut memory.write_to_memory(address, new_value));
            },
            0x35 => {
                // DEC (HL)
                let address: u16 = bit_logic::compose_bytes(self.l, self.h);
                let mut new_value: u8 = memory.read_from_memory(address);
                new_value = self.dec_byte(new_value);
                memory_write_results.append(&mut memory.write_to_memory(address, new_value));
            },
            0x36 => {
                // LD (HL), u8
                let value: u8 = self.fetch(memory);
                memory_write_results.append(&mut memory.write_to_memory(bit_logic::compose_bytes(self.l, self.h), value));
            },
            0x37 => {
                // SCF
                self.subtract = false;
                self.half_carry = false;
                self.carry = true;
            },
            0x38 => {
                // JR C, i8
                if self.carry {
                    self.jr(memory);
                    branch_taken = true;
                } else {
                    self.pc = self.pc.wrapping_add(1);
                }
            },
            0x39 => {
                // ADD HL, SP
                let (sp_lower, sp_upper) = bit_logic::decompose_bytes(self.sp);
                let (lower, upper) = self.add_word(self.l, self.h, sp_lower, sp_upper);
                self.l = lower;
                self.h = upper;
            },
            0x3a => {
                // LD A, (HL-)
                let value: u8 = memory.read_from_memory(bit_logic::compose_bytes(self.l, self.h));
                Cpu::ld_byte(&mut self.a, value);
                Cpu::dec_word(&mut self.l, &mut self.h);
            },
            0x3b => {
                // DEC SP
                self.sp = self.sp.wrapping_sub(1);
            },
            0x3c => {
                // INC A
                self.a = self.inc_byte(self.a);
            },
            0x3d => {
                // DEC A
                self.a = self.dec_byte(self.a);
            },
            0x3e => {
                // LD A, u8
                let value: u8 = self.fetch(memory);
                Cpu::ld_byte(&mut self.a, value);
            },
            0x3f => {
                // CCF
                self.subtract = false;
                self.half_carry = false;
                self.carry = !self.carry;
            },
            _ => {},
        }
        (isa::instruction_timing(instruction, branch_taken), memory_write_results)
    }
}

} // verus!
