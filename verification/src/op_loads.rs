//! Opcodes 0x40..=0x7f.
use vstd::prelude::*;
use crate::bit_logic;
use crate::cpu::Cpu;
use crate::isa;
use crate::memory::{Memory, MemoryWriteResult};

verus! {

broadcast use crate::memory::group_loaded_memory, crate::bit_logic::lemma_word_of_bytes, crate::bit_logic::lemma_bytes_of_word;

impl Cpu {
    /// The loads between registers and HALT (0x40..=0x7f).
    pub(crate) fn execute_loads(&mut self, memory: &mut Memory, instruction: u8) -> (r: (u8, Vec<MemoryWriteResult>))
        requires
            old(memory)@.structural(),
            crate::isa::block1_accesses_ok(*old(self), old(memory)@, instruction),
            0x40 <= instruction <= 0x7f,
        ensures
            ({
                let st = isa::block1_step(*old(self), old(memory)@, instruction);
                &&& *final(self) == st.cpu
                &&& final(memory)@ == st.memory
                &&& r.0 == st.cycles
                &&& r.1@ == st.events
            }),
            final(memory)@.structural(),
            old(memory)@.wf() ==> final(memory)@.wf(),
    {
        if instruction <= 0x5f {
            self.execute_40_5f(memory, instruction)
        } else {
            self.execute_60_7f(memory, instruction)
        }
    }

    /// Opcodes 0x40..=0x5f.
    #[verifier::rlimit(100)]
    pub(crate) fn execute_40_5f(&mut self, memory: &mut Memory, instruction: u8) -> (r: (u8, Vec<MemoryWriteResult>))
        requires
            old(memory)@.structural(),
            crate::isa::block1_accesses_ok(*old(self), old(memory)@, instruction),
            0x40 <= instruction <= 0x5f,
        ensures
            ({
                let st = isa::block1_step(*old(self), old(memory)@, instruction);
                &&& *final(self) == st.cpu
                &&& final(memory)@ == st.memory
                &&& r.0 == st.cycles
                &&& r.1@ == st.events
            }),
            final(memory)@.structural(),
            old(memory)@.wf() ==> final(memory)@.wf(),
    {
        let mut memory_write_results: Vec<MemoryWriteResult> = Vec::new();
        let mut branch_taken: bool = false;
        match instruction {
            0x40 => {
                // LD B, B
                let value: u8 = self.b;
                Cpu::ld_byte(&mut self.b, value);
            },
            0x41 => {
                // LD B, C
                Cpu::ld_byte(&mut self.b, self.c);
            },
            0x42 => {
                // LD B, D
                Cpu::ld_byte(&mut self.b, self.d);
            },
            0x43 => {
                // LD B, E
                Cpu::ld_byte(&mut self.b, self.e);
            },
            0x44 => {
                // LD B, H
                Cpu::ld_byte(&mut self.b, self.h);
            },
            0x45 => {
                // LD B, L
                Cpu::ld_byte(&mut self.b, self.l);
            },
            0x46 => {
                // LD B, (HL)
                let value: u8 = memory.read_from_memory(bit_logic::compose_bytes(self.l, self.h));
                Cpu::ld_byte(&mut self.b, value);
            },
            0x47 => {
                // LD B, A
                Cpu::ld_byte(&mut self.b, self.a);
            },
            0x48 => {
                // LD C, B
                Cpu::ld_byte(&mut self.c, self.b);
            },
            0x49 => {
                // LD C, C
                let value: u8 = self.c;
                Cpu::ld_byte(&mut self.c, value);
            },
            0x4a => {
                // LD C, D
                Cpu::ld_byte(&mut self.c, self.d);
            },
            0x4b => {
                // LD C, E
                Cpu::ld_byte(&mut self.c, self.e);
            },
            0x4c => {
                // LD C, H
                Cpu::ld_byte(&mut self.c, self.h);
            },
            0x4d => {
                // LD C, L
                Cpu::ld_byte(&mut self.c, self.l);
            },
            0x4e => {
                // LD C, (HL)
                let value: u8 = memory.read_from_memory(bit_logic::compose_bytes(self.l, self.h));
                Cpu::ld_byte(&mut self.c, value);
            },
            0x4f => {
                // LD C, A
                Cpu::ld_byte(&mut self.c, self.a);
            },
            0x50 => {
                // LD D, B
                Cpu::ld_byte(&mut self.d, self.b);
            },
            0x51 => {
                // LD D, C
                Cpu::ld_byte(&mut self.d, self.c);
            },
            0x52 => {
                // LD D, D
                let value: u8 = self.d;
                Cpu::ld_byte(&mut self.d, value);
            },
            0x53 => {
                // LD D, E
                Cpu::ld_byte(&mut self.d, self.e);
            },
            0x54 => {
                // LD D, H
                Cpu::ld_byte(&mut self.d, self.h);
            },
            0x55 => {
                // LD D, L
                Cpu::ld_byte(&mut self.d, self.l);
            },
            0x56 => {
                // LD D, (HL)
                let value: u8 = memory.read_from_memory(bit_logic::compose_bytes(self.l, self.h));
                Cpu::ld_byte(&mut self.d, value);
            },
            0x57 => {
                // LD D, A
                Cpu::ld_byte(&mut self.d, self.a);
            },
            0x58 => {
                // LD E, B
                Cpu::ld_byte(&mut self.e, self.b);
            },
            0x59 => {
                // LD E, C
                Cpu::ld_byte(&mut self.e, self.c);
            },
            0x5a => {
                // LD E, D
                Cpu::ld_byte(&mut self.e, self.d);
            },
            0x5b => {
                // LD E, E
                let value: u8 = self.e;
                Cpu::ld_byte(&mut self.e, value);
            },
            0x5c => {
                // LD E, H
                Cpu::ld_byte(&mut self.e, self.h);
            },
            0x5d => {
                // LD E, L
                Cpu::ld_byte(&mut self.e, self.l);
            },
            0x5e => {
                // LD E, (HL)
                let value: u8 = memory.read_from_memory(bit_logic::compose_bytes(self.l, self.h));
                Cpu::ld_byte(&mut self.e, value);
            },
            0x5f => {
                // LD E, A
                Cpu::ld_byte(&mut self.e, self.a);
            },
            _ => {},
        }
        (isa::instruction_timing(instruction, branch_taken), memory_write_results)
    }

    /// Opcodes 0x60..=0x7f.
    #[verifier::rlimit(100)]
    pub(crate) fn execute_60_7f(&mut self, memory: &mut Memory, instruction: u8) -> (r: (u8, Vec<MemoryWriteResult>))
        requires
            old(memory)@.structural(),
            crate::isa::block1_accesses_ok(*old(self), old(memory)@, instruction),
            0x60 <= instruction <= 0x7f,
        ensures
            ({
                let st = isa::block1_step(*old(self), old(memory)@, instruction);
                &&& *final(self) == st.cpu
                &&& final(memory)@ == st.memory
                &&& r.0 == st.cycles
                &&& r.1@ == st.events
            }),
            final(memory)@.structural(),
            old(memory)@.wf() ==> final(memory)@.wf(),
    {
        let mut memory_write_results: Vec<MemoryWriteResult> = Vec::new();
        let mut branch_taken: bool = false;
        match instruction {
            0x60 => {
                // LD H, B
                Cpu::ld_byte(&mut self.h, self.b);
            },
            0x61 => {
                // LD H, C
                Cpu::ld_byte(&mut self.h, self.c);
            },
            0x62 => {
                // LD H, D
                Cpu::ld_byte(&mut self.h, self.d);
            },
            0x63 => {
                // LD H, E
                Cpu::ld_byte(&mut self.h, self.e);
            },
            0x64 => {
                // LD H, H
                let value: u8 = self.h;
                Cpu::ld_byte(&mut self.h, value);
            },
            0x65 => {
                // LD H, L
                Cpu::ld_byte(&mut self.h, self.l);
            },
            0x66 => {
                // LD H, (HL)
                let value: u8 = memory.read_from_memory(bit_logic::compose_bytes(self.l, self.h));
                Cpu::ld_byte(&mut self.h, value);
            },
            0x67 => {
                // LD H, A
                Cpu::ld_byte(&mut self.h, self.a);
            },
            0x68 => {
                // LD L, B
                Cpu::ld_byte(&mut self.l, self.b);
            },
            0x69 => {
                // LD L, C
                Cpu::ld_byte(&mut self.l, self.c);
            },
            0x6a => {
                // LD L, D
                Cpu::ld_byte(&mut self.l, self.d);
            },
            0x6b => {
                // LD L, E
                Cpu::ld_byte(&mut self.l, self.e);
            },
            0x6c => {
                // LD L, H
                Cpu::ld_byte(&mut self.l, self.h);
            },
            0x6d => {
                // LD L, L
                let value: u8 = self.l;
                Cpu::ld_byte(&mut self.l, value);
            },
            0x6e => {
                // LD L, (HL)
                let value: u8 = memory.read_from_memory(bit_logic::compose_bytes(self.l, self.h));
                Cpu::ld_byte(&mut self.l, value);
            },
            0x6f => {
                // LD L, A
                Cpu::ld_byte(&mut self.l, self.a);
            },
            0x70 => {
                // LD (HL), B
                memory_write_results.append(&mut memory.write_to_memory(bit_logic::compose_bytes(self.l, self.h), self.b));
            },
            0x71 => {
                // LD (HL), C
                memory_write_results.append(&mut memory.write_to_memory(bit_logic::compose_bytes(self.l, self.h), self.c));
            },
            0x72 => {
                // LD (HL), D
                memory_write_results.append(&mut memory.write_to_memory(bit_logic::compose_bytes(self.l, self.h), self.d));
            },
            0x73 => {
                // LD (HL), E
                memory_write_results.append(&mut memory.write_to_memory(bit_logic::compose_bytes(self.l, self.h), self.e));
            },
            0x74 => {
                // LD (HL), H
                memory_write_results.append(&mut memory.write_to_memory(bit_logic::compose_bytes(self.l, self.h), self.h));
            },
            0x75 => {
                // LD (HL), L
                memory_write_results.append(&mut memory.write_to_memory(bit_logic::compose_bytes(self.l, self.h), self.l));
            },
            0x76 => {
                // HALT
                self.halted = true;
            },
            0x77 => {
                // LD (HL), A
                memory_write_results.append(&mut memory.write_to_memory(bit_logic::compose_bytes(self.l, self.h), self.a));
            },
            0x78 => {
                // LD A, B
                Cpu::ld_byte(&mut self.a, self.b);
            },
            0x79 => {
                // LD A, C
                Cpu::ld_byte(&mut self.a, self.c);
            },
            0x7a => {
                // LD A, D
                Cpu::ld_byte(&mut self.a, self.d);
            },
            0x7b => {
                // LD A, E
                Cpu::ld_byte(&mut self.a, self.e);
            },
            0x7c => {
                // LD A, H
                Cpu::ld_byte(&mut self.a, self.h);
            },
            0x7d => {
                // LD A, L
                Cpu::ld_byte(&mut self.a, self.l);
            },
            0x7e => {
                // LD A, (HL)
                let value: u8 = memory.read_from_memory(bit_logic::compose_bytes(self.l, self.h));
                Cpu::ld_byte(&mut self.a, value);
            },
            0x7f => {
                // LD A, A
                let value: u8 = self.a;
                Cpu::ld_byte(&mut self.a, value);
            },
            _ => {},
        }
        (isa::instruction_timing(instruction, branch_taken), memory_write_results)
    }
}

} // verus!
