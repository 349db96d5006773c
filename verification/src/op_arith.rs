//! Opcodes 0x80..=0xbf.
use vstd::prelude::*;
use crate::bit_logic;
use crate::cpu::Cpu;
use crate::isa;
use crate::memory::{Memory, MemoryWriteResult};

verus! {

broadcast use crate::memory::group_loaded_memory, crate::bit_logic::lemma_word_of_bytes, crate::bit_logic::lemma_bytes_of_word;

impl Cpu {
    /// The arithmetic and logic on the accumulator (0x80..=0xbf).
    pub(crate) fn execute_arithmetic(&mut self, memory: &mut Memory, instruction: u8) -> (r: (u8, Vec<MemoryWriteResult>))
        requires
            old(memory)@.structural(),
            crate::isa::block2_accesses_ok(*old(self), old(memory)@, instruction),
            0x80 <= instruction <= 0xbf,
        ensures
            ({
                let st = isa::block2_step(*old(self), old(memory)@, instruction);
                &&& *final(self) == st.cpu
                &&& final(memory)@ == st.memory
                &&& r.0 == st.cycles
                &&& r.1@ == st.events
            }),
            final(memory)@.structural(),
            old(memory)@.wf() ==> final(memory)@.wf(),
    {
        if instruction <= 0x9f {
            self.execute_80_9f(memory, instruction)
        } else {
            self.execute_a0_bf(memory, instruction)
        }
    }

    /// Opcodes 0x80..=0x9f.
    pub(crate) fn execute_80_9f(&mut self, memory: &mut Memory, instruction: u8) -> (r: (u8, Vec<MemoryWriteResult>))
        requires
            old(memory)@.structural(),
            crate::isa::block2_accesses_ok(*old(self), old(memory)@, instruction),
            0x80 <= instruction <= 0x9f,
        ensures
            ({
                let st = isa::block2_step(*old(self), old(memory)@, instruction);
                &&& *final(self) == st.cpu
                &&& final(memory)@ == st.memory
                &&& r.0 == st.cycles
                &&& r.1@ == st.events
            }),
            final(memory)@.structural(),
            old(memory)@.wf() ==> final(memory)@.wf(),
    {
        if instruction <= 0x8f {
            self.execute_80_8f(memory, instruction)
        } else {
            self.execute_90_9f(memory, instruction)
        }
    }

    /// Opcodes 0x80..=0x8f.
    #[verifier::rlimit(100)]
    pub(crate) fn execute_80_8f(&mut self, memory: &mut Memory, instruction: u8) -> (r: (u8, Vec<MemoryWriteResult>))
        requires
            old(memory)@.structural(),
            crate::isa::block2_accesses_ok(*old(self), old(memory)@, instruction),
            0x80 <= instruction <= 0x8f,
        ensures
            ({
                let st = isa::block2_step(*old(self), old(memory)@, instruction);
                &&& *final(self) == st.cpu
                &&& final(memory)@ == st.memory
                &&& r.0 == st.cycles
                &&& r.1@ == st.events
            }),
            final(memory)@.structural(),
            old(memory)@.wf() ==> final(memory)@.wf(),
    {
        let mut memory_write_results: Vec<MemoryWriteResult> = Vec::new();
        let mut branch_taken: bool = false;
        match instruction {
            0x80 => {
                // ADD A, B
                self.a = self.add_byte(self.a, self.b);
            },
            0x81 => {
                // ADD A, C
                self.a = self.add_byte(self.a, self.c);
            },
            0x82 => {
                // ADD A, D
                self.a = self.add_byte(self.a, self.d);
            },
            0x83 => {
                // ADD A, E
                self.a = self.add_byte(self.a, self.e);
            },
            0x84 => {
                // ADD A, H
                self.a = self.add_byte(self.a, self.h);
            },
            0x85 => {
                // ADD A, L
                self.a = self.add_byte(self.a, self.l);
            },
            0x86 => {
                // ADD A, (HL)
                let value: u8 = memory.read_from_memory(bit_logic::compose_bytes(self.l, self.h));
                self.a = self.add_byte(self.a, value);
            },
            0x87 => {
                // ADD A, A
                self.a = self.add_byte(self.a, self.a);
            },
            0x88 => {
                // ADC A, B
                self.a = self.adc_byte(self.a, self.b);
            },
            0x89 => {
                // ADC A, C
                self.a = self.adc_byte(self.a, self.c);
            },
            0x8a => {
                // ADC A, D
                self.a = self.adc_byte(self.a, self.d);
            },
            0x8b => {
                // ADC A, E
                self.a = self.adc_byte(self.a, self.e);
            },
            0x8c => {
                // ADC A, H
                self.a = self.adc_byte(self.a, self.h);
            },
            0x8d => {
                // ADC A, L
                self.a = self.adc_byte(self.a, self.l);
            },
            0x8e => {
                // ADC A, (HL)
                let value: u8 = memory.read_from_memory(bit_logic::compose_bytes(self.l, self.h));
                self.a = self.adc_byte(self.a, value);
            },
            0x8f => {
                // ADC A, A
                self.a = self.adc_byte(self.a, self.a);
            },
            _ => {},
        }
        (isa::instruction_timing(instruction, branch_taken), memory_write_results)
    }

    /// Opcodes 0x90..=0x9f.
    #[verifier::rlimit(100)]
    pub(crate) fn execute_90_9f(&mut self, memory: &mut Memory, instruction: u8) -> (r: (u8, Vec<MemoryWriteResult>))
        requires
            old(memory)@.structural(),
            crate::isa::block2_accesses_ok(*old(self), old(memory)@, instruction),
            0x90 <= instruction <= 0x9f,
        ensures
            ({
                let st = isa::block2_step(*old(self), old(memory)@, instruction);
                &&& *final(self) == st.cpu
                &&& final(memory)@ == st.memory
                &&& r.0 == st.cycles
                &&& r.1@ == st.events
            }),
            final(memory)@.structural(),
            old(memory)@.wf() ==> final(memory)@.wf(),
    {
        let mut memory_write_results: Vec<MemoryWriteResult> = Vec::new();
        let mut branch_taken: bool = false;
        match instruction {
            0x90 => {
                // SUB A, B
                self.a = self.sub_byte(self.a, self.b);
            },
            0x91 => {
                // SUB A, C
                self.a = self.sub_byte(self.a, self.c);
            },
            0x92 => {
                // SUB A, D
                self.a = self.sub_byte(self.a, self.d);
            },
            0x93 => {
                // SUB A, E
                self.a = self.sub_byte(self.a, self.e);
            },
            0x94 => {
                // SUB A, H
                self.a = self.sub_byte(self.a, self.h);
            },
            0x95 => {
                // SUB A, L
                self.a = self.sub_byte(self.a, self.l);
            },
            0x96 => {
                // SUB A, (HL)
                let value: u8 = memory.read_from_memory(bit_logic::compose_bytes(self.l, self.h));
                self.a = self.sub_byte(self.a, value);
            },
            0x97 => {
                // SUB A, A
                self.a = self.sub_byte(self.a, self.a);
            },
            0x98 => {
                // SBC A, B
                self.a = self.sbc_byte(self.a, self.b);
            },
            0x99 => {
                // SBC A, C
                self.a = self.sbc_byte(self.a, self.c);
            },
            0x9a => {
                // SBC A, D
                self.a = self.sbc_byte(self.a, self.d);
            },
            0x9b => {
                // SBC A, E
                self.a = self.sbc_byte(self.a, self.e);
            },
            0x9c => {
                // SBC A, H
                self.a = self.sbc_byte(self.a, self.h);
            },
            0x9d => {
                // SBC A, L
                self.a = self.sbc_byte(self.a, self.l);
            },
            0x9e => {
                // SBC A, (HL)
                let value: u8 = memory.read_from_memory(bit_logic::compose_bytes(self.l, self.h));
                self.a = self.sbc_byte(self.a, value);
            },
            0x9f => {
                // SBC A, A
                self.a = self.sbc_byte(self.a, self.a);
            },
            _ => {},
        }
        (isa::instruction_timing(instruction, branch_taken), memory_write_results)
    }

    /// Opcodes 0xa0..=0xbf.
    pub(crate) fn execute_a0_bf(&mut self, memory: &mut Memory, instruction: u8) -> (r: (u8, Vec<MemoryWriteResult>))
        requires
            old(memory)@.structural(),
            crate::isa::block2_accesses_ok(*old(self), old(memory)@, instruction),
            0xa0 <= instruction <= 0xbf,
        ensures
            ({
                let st = isa::block2_step(*old(self), old(memory)@, instruction);
                &&& *final(self) == st.cpu
                &&& final(memory)@ == st.memory
                &&& r.0 == st.cycles
                &&& r.1@ == st.events
            }),
            final(memory)@.structural(),
            old(memory)@.wf() ==> final(memory)@.wf(),
    {
        if instruction <= 0xaf {
            self.execute_a0_af(memory, instruction)
        } else {
            self.execute_b0_bf(memory, instruction)
        }
    }

    /// Opcodes 0xa0..=0xaf.
    #[verifier::rlimit(100)]
    pub(crate) fn execute_a0_af(&mut self, memory: &mut Memory, instruction: u8) -> (r: (u8, Vec<MemoryWriteResult>))
        requires
            old(memory)@.structural(),
            crate::isa::block2_accesses_ok(*old(self), old(memory)@, instruction),
            0xa0 <= instruction <= 0xaf,
        ensures
            ({
                let st = isa::block2_step(*old(self), old(memory)@, instruction);
                &&& *final(self) == st.cpu
                &&& final(memory)@ == st.memory
                &&& r.0 == st.cycles
                &&& r.1@ == st.events
            }),
            final(memory)@.structural(),
            old(memory)@.wf() ==> final(memory)@.wf(),
    {
        let mut memory_write_results: Vec<MemoryWriteResult> = Vec::new();
        let mut branch_taken: bool = false;
        match instruction {
            0xa0 => {
                // AND A, B
                self.a = self.and_byte(self.a, self.b);
            },
            0xa1 => {
                // AND A, C
                self.a = self.and_byte(self.a, self.c);
            },
            0xa2 => {
                // AND A, D
                self.a = self.and_byte(self.a, self.d);
            },
            0xa3 => {
                // AND A, E
                self.a = self.and_byte(self.a, self.e);
            },
            0xa4 => {
                // AND A, H
                self.a = self.and_byte(self.a, self.h);
            },
            0xa5 => {
                // AND A, L
                self.a = self.and_byte(self.a, self.l);
            },
            0xa6 => {
                // AND A, (HL)
                let value: u8 = memory.read_from_memory(bit_logic::compose_bytes(self.l, self.h));
                self.a = self.and_byte(self.a, value);
            },
            0xa7 => {
                // AND A, A
                self.a = self.and_byte(self.a, self.a);
            },
            0xa8 => {
                // XOR A, B
                self.a = self.xor_byte(self.a, self.b);
            },
            0xa9 => {
                // XOR A, C
                self.a = self.xor_byte(self.a, self.c);
            },
            0xaa => {
                // XOR A, D
                self.a = self.xor_byte(self.a, self.d);
            },
            0xab => {
                // XOR A, E
                self.a = self.xor_byte(self.a, self.e);
            },
            0xac => {
                // XOR A, H
                self.a = self.xor_byte(self.a, self.h);
            },
            0xad => {
                // XOR A, L
                self.a = self.xor_byte(self.a, self.l);
            },
            0xae => {
                // XOR A, (HL)
                let value: u8 = memory.read_from_memory(bit_logic::compose_bytes(self.l, self.h));
                self.a = self.xor_byte(self.a, value);
            },
            0xaf => {
                // XOR A, A
                self.a = self.xor_byte(self.a, self.a);
            },
            _ => {},
        }
        (isa::instruction_timing(instruction, branch_taken), memory_write_results)
    }

    /// Opcodes 0xb0..=0xbf.
    #[verifier::rlimit(100)]
    pub(crate) fn execute_b0_bf(&mut self, memory: &mut Memory, instruction: u8) -> (r: (u8, Vec<MemoryWriteResult>))
        requires
            old(memory)@.structural(),
            crate::isa::block2_accesses_ok(*old(self), old(memory)@, instruction),
            0xb0 <= instruction <= 0xbf,
        ensures
            ({
                let st = isa::block2_step(*old(self), old(memory)@, instruction);
                &&& *final(self) == st.cpu
                &&& final(memory)@ == st.memory
                &&& r.0 == st.cycles
                &&& r.1@ == st.events
            }),
            final(memory)@.structural(),
            old(memory)@.wf() ==> final(memory)@.wf(),
    {
        let mut memory_write_results: Vec<MemoryWriteResult> = Vec::new();
        let mut branch_taken: bool = false;
        match instruction {
            0xb0 => {
                // OR A, B
                self.a = self.or_byte(self.a, self.b);
            },
            0xb1 => {
                // OR A, C
                self.a = self.or_byte(self.a, self.c);
            },
            0xb2 => {
                // OR A, D
                self.a = self.or_byte(self.a, self.d);
            },
            0xb3 => {
                // OR A, E
                self.a = self.or_byte(self.a, self.e);
            },
            0xb4 => {
                // OR A, H
                self.a = self.or_byte(self.a, self.h);
            },
            0xb5 => {
                // OR A, L
                self.a = self.or_byte(self.a, self.l);
            },
            0xb6 => {
                // OR A, (HL)
                let value: u8 = memory.read_from_memory(bit_logic::compose_bytes(self.l, self.h));
                self.a = self.or_byte(self.a, value);
            },
            0xb7 => {
                // OR A, A
                self.a = self.or_byte(self.a, self.a);
            },
            0xb8 => {
                // CP A, B
                self.cp_byte(self.a, self.b);
            },
            0xb9 => {
                // CP A, C
                self.cp_byte(self.a, self.c);
            },
            0xba => {
                // CP A, D
                self.cp_byte(self.a, self.d);
            },
            0xbb => {
                // CP A, E
                self.cp_byte(self.a, self.e);
            },
            0xbc => {
                // CP A, H
                self.cp_byte(self.a, self.h);
            },
            0xbd => {
                // CP A, L
                self.cp_byte(self.a, self.l);
            },
            0xbe => {
                // CP A, (HL)
                let value: u8 = memory.read_from_memory(bit_logic::compose_bytes(self.l, self.h));
                self.cp_byte(self.a, value);
            },
            0xbf => {
                // CP A, A
                self.cp_byte(self.a, self.a);
            },
            _ => {},
        }
        (isa::instruction_timing(instruction, branch_taken), memory_write_results)
    }
}

} // verus!
