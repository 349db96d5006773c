//! Whether the memory accesses of an instruction are defined, decided before
//! the instruction runs.
use vstd::prelude::*;
use crate::alu::lemma_word_bytes;
use crate::bit_logic::{self, bit_mask};
use crate::cpu::Cpu;
use crate::isa;
use crate::memory::Memory;

verus! {

broadcast use crate::bit_logic::lemma_word_of_bytes, crate::bit_logic::lemma_bytes_of_word;

impl Cpu {
    /// A copy of the processor.
    fn duplicate(&self) -> (r: Cpu)
        ensures
            r == *self,
    {
        Cpu {
            a: self.a, b: self.b, c: self.c, d: self.d, e: self.e, h: self.h, l: self.l,
            sp: self.sp, pc: self.pc,
            zero: self.zero, subtract: self.subtract, half_carry: self.half_carry, carry: self.carry,
            halted: self.halted, interrupts_enabled: self.interrupts_enabled,
            pending_interrupt_enable: self.pending_interrupt_enable,
            one_instruction_passed: self.one_instruction_passed,
        }
    }

    /// Branch condition `k` in the order NZ, Z, NC, C.
    fn condition(&self, k: u8) -> (r: bool)
        requires
            k < 4,
        ensures
            r == isa::cond(*self, k as int),
    {
        if k == 0 { !self.zero } else if k == 1 { self.zero } else if k == 2 { !self.carry } else { self.carry }
    }

    /// Register `r` (not 6, the byte through HL) in the order B, C, D, E, H, L, -, A.
    fn register(&self, r: u8) -> (v: u8)
        requires
            r < 8,
            r != 6,
        ensures
            forall|m: crate::memory::MemoryModel| v == #[trigger] isa::reg(*self, m, r as int),
    {
        if r == 0 { self.b } else if r == 1 { self.c } else if r == 2 { self.d } else if r == 3 { self.e }
        else if r == 4 { self.h } else if r == 5 { self.l } else { self.a }
    }

    /// Whether the two bytes at `address` can be read.
    fn word_readable(memory: &Memory, address: u16) -> (r: bool)
        requires
            memory@.structural(),
        ensures
            r == isa::word_readable(memory@, address),
    {
        memory.can_read(address) && memory.can_read(address.wrapping_add(1))
    }

    /// Whether `hi` and then `lo` can be pushed.
    pub(crate) fn push_defined(&self, memory: &Memory, hi: u8, lo: u8) -> (r: bool)
        requires
            memory@.structural(),
        ensures
            r == isa::push_ok(*self, memory@, hi, lo),
    {
        memory.can_write(self.sp.wrapping_sub(1), hi) && memory.can_write(self.sp.wrapping_sub(1).wrapping_sub(1), lo)
    }

    /// Whether the next instruction is defined: its opcode can be read, its
    /// accesses are defined, and it is not LD (0xffff), SP.
    pub fn next_instruction_defined(&self, memory: &Memory) -> (r: bool)
        requires
            memory@.structural(),
        ensures
            r == (memory@.readable(self.pc)
                && isa::accesses_ok(self.with_pc(self.pc.wrapping_add(1)), memory@, memory@.read(self.pc))
                && isa::update_defined(*self, memory@)),
    {
        if !memory.can_read(self.pc) {
            return false;
        }
        let op: u8 = memory.read_from_memory(self.pc);
        let mut after = self.duplicate();
        after.pc = self.pc.wrapping_add(1);
        if !after.accesses_defined(memory, op) {
            return false;
        }
        if op != 0x08 {
            return true;
        }
        let lo: u8 = memory.read_from_memory(after.pc);
        let hi: u8 = memory.read_from_memory(after.pc.wrapping_add(1));
        !(lo == 0xff && hi == 0xff)
    }

    /// Whether the memory accesses of CB-prefixed opcode `op` are defined.
    pub fn cb_accesses_defined(&self, memory: &Memory, op: u8) -> (r: bool)
        requires
            memory@.structural(),
        ensures
            r == isa::cb_accesses_ok(*self, memory@, op),
    {
        if op % 8 != 6 {
            return true;
        }
        let hl: u16 = bit_logic::compose_bytes(self.l, self.h);
        if !memory.can_read(hl) {
            return false;
        }
        if op / 64 == 1 {
            return true;
        }
        let v: u8 = memory.read_from_memory(hl);
        let y: u8 = (op / 8) % 8;
        let value: u8 = if op / 64 == 2 {
            bit_logic::reset_bit(v, y)
        } else if op / 64 == 3 {
            bit_logic::set_bit(v, y)
        } else {
            let mut scratch = self.duplicate();
            if y == 0 { scratch.rlc(v) }
            else if y == 1 { scratch.rrc(v) }
            else if y == 2 { scratch.rl(v) }
            else if y == 3 { scratch.rr(v) }
            else if y == 4 { scratch.sla(v) }
            else if y == 5 { scratch.sra(v) }
            else if y == 6 { scratch.swap(v) }
            else { scratch.srl(v) }
        };
        assert(value == isa::cb_value(*self, memory@, op));
        memory.can_write(hl, value)
    }

    /// Whether the memory accesses of opcode `op` are defined, the processor
    /// just past the opcode.
    #[verifier::rlimit(50)]
    pub fn accesses_defined(&self, memory: &Memory, op: u8) -> (r: bool)
        requires
            memory@.structural(),
        ensures
            r == isa::accesses_ok(*self, memory@, op),
    {
        proof { lemma_word_bytes(); }
        let y: u8 = (op / 8) % 8;
        let z: u8 = op % 8;
        let p: u8 = y / 2;
        let q: u8 = y % 2;
        let hl: u16 = bit_logic::compose_bytes(self.l, self.h);
        if op < 0x40 {
            if z == 0 {
                if y == 1 {
                    if !Cpu::word_readable(memory, self.pc) {
                        return false;
                    }
                    let address: u16 = bit_logic::compose_bytes(
                        memory.read_from_memory(self.pc),
                        memory.read_from_memory(self.pc.wrapping_add(1)),
                    );
                    let lo: u8 = self.sp as u8;
                    let hi: u8 = (self.sp >> 8) as u8;
                    assert(lo == bit_logic::low_byte(self.sp) && hi == bit_logic::high_byte(self.sp));
                    memory.can_write(address, lo) && memory.can_write(address.wrapping_add(1), hi)
                } else if y == 3 {
                    memory.can_read(self.pc)
                } else if y >= 4 {
                    !self.condition(y - 4) || memory.can_read(self.pc)
                } else {
                    true
                }
            } else if z == 1 {
                q != 0 || Cpu::word_readable(memory, self.pc)
            } else if z == 2 {
                let address: u16 = if p == 0 {
                    bit_logic::compose_bytes(self.c, self.b)
                } else if p == 1 {
                    bit_logic::compose_bytes(self.e, self.d)
                } else {
                    hl
                };
                if q == 0 { memory.can_write(address, self.a) } else { memory.can_read(address) }
            } else if z == 4 || z == 5 {
                if y != 6 {
                    return true;
                }
                if !memory.can_read(hl) {
                    return false;
                }
                let v: u8 = memory.read_from_memory(hl);
                memory.can_write(hl, if z == 4 { v.wrapping_add(1) } else { v.wrapping_sub(1) })
            } else if z == 6 {
                if !memory.can_read(self.pc) {
                    return false;
                }
                y != 6 || memory.can_write(hl, memory.read_from_memory(self.pc))
            } else {
                true
            }
        } else if op < 0x80 {
            if op == 0x76 {
                return true;
            }
            if z == 6 && !memory.can_read(hl) {
                return false;
            }
            y != 6 || memory.can_write(hl, self.register(z))
        } else if op < 0xc0 {
            z != 6 || memory.can_read(hl)
        } else {
            self.control_accesses_defined(memory, op)
        }
    }

    /// Whether the memory accesses of opcode `op` in 0xc0..=0xff are defined.
    #[verifier::rlimit(50)]
    fn control_accesses_defined(&self, memory: &Memory, op: u8) -> (r: bool)
        requires
            memory@.structural(),
            op >= 0xc0,
        ensures
            r == isa::block3_accesses_ok(*self, memory@, op),
    {
        proof { lemma_word_bytes(); }
        let y: u8 = (op / 8) % 8;
        let z: u8 = op % 8;
        let p: u8 = y / 2;
        let q: u8 = y % 2;
        let after_word: u16 = self.pc.wrapping_add(1).wrapping_add(1);
        if z == 0 {
            if y < 4 {
                !self.condition(y) || Cpu::word_readable(memory, self.sp)
            } else if y == 4 || y == 6 {
                if !memory.can_read(self.pc) {
                    return false;
                }
                let address: u16 = 0xff00 + memory.read_from_memory(self.pc) as u16;
                if y == 4 { memory.can_write(address, self.a) } else { memory.can_read(address) }
            } else {
                memory.can_read(self.pc)
            }
        } else if z == 1 {
            (q != 0 && p >= 2) || Cpu::word_readable(memory, self.sp)
        } else if z == 2 {
            if y < 4 {
                !self.condition(y) || Cpu::word_readable(memory, self.pc)
            } else if y == 4 {
                memory.can_write(0xff00 + self.c as u16, self.a)
            } else if y == 6 {
                memory.can_read(0xff00 + self.c as u16)
            } else {
                if !Cpu::word_readable(memory, self.pc) {
                    return false;
                }
                let address: u16 = bit_logic::compose_bytes(
                    memory.read_from_memory(self.pc),
                    memory.read_from_memory(self.pc.wrapping_add(1)),
                );
                if y == 5 { memory.can_write(address, self.a) } else { memory.can_read(address) }
            }
        } else if z == 3 {
            if y == 0 {
                Cpu::word_readable(memory, self.pc)
            } else if y == 1 {
                if !memory.can_read(self.pc) {
                    return false;
                }
                let cb: u8 = memory.read_from_memory(self.pc);
                self.cb_accesses_defined(memory, cb)
            } else {
                true
            }
        } else if z == 4 {
            if y < 4 && self.condition(y) {
                Cpu::word_readable(memory, self.pc) && self.push_defined(memory, (after_word >> 8) as u8, after_word as u8)
            } else {
                true
            }
        } else if z == 5 {
            if q == 0 {
                let (hi, lo): (u8, u8) = if p == 0 {
                    (self.b, self.c)
                } else if p == 1 {
                    (self.d, self.e)
                } else if p == 2 {
                    (self.h, self.l)
                } else {
                    (self.a, self.get_f())
                };
                self.push_defined(memory, hi, lo)
            } else if p == 0 {
                Cpu::word_readable(memory, self.pc) && self.push_defined(memory, (after_word >> 8) as u8, after_word as u8)
            } else {
                true
            }
        } else if z == 6 {
            memory.can_read(self.pc)
        } else {
            self.push_defined(memory, (self.pc >> 8) as u8, self.pc as u8)
        }
    }
}

} // verus!
