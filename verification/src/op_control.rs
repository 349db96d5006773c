//! Opcodes 0xc0..=0xff.
use vstd::prelude::*;
use crate::alu::{lemma_sign_extension, lemma_word_mask};
use crate::bit_logic;
use crate::cpu::Cpu;
use crate::isa;
use crate::memory::{Memory, MemoryWriteResult};

verus! {

broadcast use crate::memory::group_loaded_memory, crate::bit_logic::lemma_word_of_bytes, crate::bit_logic::lemma_bytes_of_word;

impl Cpu {
    /// The jumps, calls, returns, the stack and the rest (0xc0..=0xff).
    pub(crate) fn execute_control(&mut self, memory: &mut Memory, instruction: u8) -> (r: (u8, Vec<MemoryWriteResult>))
        requires
            old(memory)@.structural(),
            crate::isa::block3_accesses_ok(*old(self), old(memory)@, instruction),
            0xc0 <= instruction <= 0xff,
        ensures
            ({
                let st = isa::block3_step(*old(self), old(memory)@, instruction);
                &&& *final(self) == st.cpu
                &&& final(memory)@ == st.memory
                &&& r.0 == st.cycles
                &&& r.1@ == st.events
            }),
            final(memory)@.structural(),
            old(memory)@.wf() ==> final(memory)@.wf(),
    {
        if instruction <= 0xcf {
            self.execute_c0_cf(memory, instruction)
        } else if instruction <= 0xdf {
            self.execute_d0_df(memory, instruction)
        } else if instruction <= 0xef {
            self.execute_e0_ef(memory, instruction)
        } else {
            self.execute_f0_ff(memory, instruction)
        }
    }

    /// Opcodes 0xc0..=0xcf.
    #[verifier::rlimit(100)]
    pub(crate) fn execute_c0_cf(&mut self, memory: &mut Memory, instruction: u8) -> (r: (u8, Vec<MemoryWriteResult>))
        requires
            old(memory)@.structural(),
            crate::isa::block3_accesses_ok(*old(self), old(memory)@, instruction),
            0xc0 <= instruction <= 0xcf,
        ensures
            ({
                let st = isa::block3_step(*old(self), old(memory)@, instruction);
                &&& *final(self) == st.cpu
                &&& final(memory)@ == st.memory
                &&& r.0 == st.cycles
                &&& r.1@ == st.events
            }),
            final(memory)@.structural(),
            old(memory)@.wf() ==> final(memory)@.wf(),
    {
        let mut memory_write_results: Vec<MemoryWriteResult> = Vec::new();
        let mut branch_taken: bool = false;
        match instruction {
            0xc0 => {
                // RET NZ
                if !self.zero {
                    self.ret(memory);
                    branch_taken = true;
                }
            },
            0xc1 => {
                // POP BC
                self.c = self.pop(memory);
                self.b = self.pop(memory);
            },
            0xc2 => {
                // JP NZ, u16
                if !self.zero {
                    self.jp_from_pc(memory);
                    branch_taken = true;
                } else {
                    self.pc = self.pc.wrapping_add(2);
                }
            },
            0xc3 => {
                // JP u16
                self.jp_from_pc(memory);
            },
            0xc4 => {
                // CALL NZ, u16
                if !self.zero {
                    memory_write_results.append(&mut self.call(memory));
                    branch_taken = true;
                } else {
                    self.pc = self.pc.wrapping_add(2);
                }
            },
            0xc5 => {
                // PUSH BC
                self.push(memory, self.b);
                self.push(memory, self.c);
            },
            0xc6 => {
                // ADD A, u8
                let value: u8 = self.fetch(memory);
                self.a = self.add_byte(self.a, value);
            },
            0xc7 => {
                // RST 00h
                memory_write_results.append(&mut self.rst(memory, 0x0));
            },
            0xc8 => {
                // RET Z
                if self.zero {
                    self.ret(memory);
                    branch_taken = true;
                }
            },
            0xc9 => {
                // RET
                self.ret(memory);
            },
            0xca => {
                // JP Z, u16
                if self.zero {
                    self.jp_from_pc(memory);
                    branch_taken = true;
                } else {
                    self.pc = self.pc.wrapping_add(2);
                }
            },
            0xcb => {
                // Prefix CB
                let cb_instruction: u8 = self.fetch(memory);
                return self.execute_cb(memory, cb_instruction);
            },
            0xcc => {
                // CALL Z, u16
                if self.zero {
                    memory_write_results.append(&mut self.call(memory));
                    branch_taken = true;
                } else {
                    self.pc = self.pc.wrapping_add(2);
                }
            },
            0xcd => {
                // CALL u16
                memory_write_results.append(&mut self.call(memory));
            },
            0xce => {
                // ADC A, u8
                let value: u8 = self.fetch(memory);
                self.a = self.adc_byte(self.a, value);
            },
            0xcf => {
                // RST 08h
                memory_write_results.append(&mut self.rst(memory, 0x8));
            },
            _ => {},
        }
        (isa::instruction_timing(instruction, branch_taken), memory_write_results)
    }

    /// Opcodes 0xd0..=0xdf.
    #[verifier::rlimit(100)]
    pub(crate) fn execute_d0_df(&mut self, memory: &mut Memory, instruction: u8) -> (r: (u8, Vec<MemoryWriteResult>))
        requires
            old(memory)@.structural(),
            crate::isa::block3_accesses_ok(*old(self), old(memory)@, instruction),
            0xd0 <= instruction <= 0xdf,
        ensures
            ({
                let st = isa::block3_step(*old(self), old(memory)@, instruction);
                &&& *final(self) == st.cpu
                &&& final(memory)@ == st.memory
                &&& r.0 == st.cycles
                &&& r.1@ == st.events
            }),
            final(memory)@.structural(),
            old(memory)@.wf() ==> final(memory)@.wf(),
    {
        let mut memory_write_results: Vec<MemoryWriteResult> = Vec::new();
        let mut branch_taken: bool = false;
        match instruction {
            0xd0 => {
                // RET NC
                if !self.carry {
                    self.ret(memory);
                    branch_taken = true;
                }
            },
            0xd1 => {
                // POP DE
                self.e = self.pop(memory);
                self.d = self.pop(memory);
            },
            0xd2 => {
                // JP NC, u16
                if !self.carry {
                    self.jp_from_pc(memory);
                    branch_taken = true;
                } else {
                    self.pc = self.pc.wrapping_add(2);
                }
            },
            0xd3 => {
                // Blank Instruction
            },
            0xd4 => {
                // CALL NC, u16
                if !self.carry {
                    memory_write_results.append(&mut self.call(memory));
                    branch_taken = true;
                } else {
                    self.pc = self.pc.wrapping_add(2);
                }
            },
            0xd5 => {
                // PUSH DE
                self.push(memory, self.d);
                self.push(memory, self.e);
            },
            0xd6 => {
                // SUB A, u8
                let value: u8 = self.fetch(memory);
                self.a = self.sub_byte(self.a, value);
            },
            0xd7 => {
                // RST 10h
                memory_write_results.append(&mut self.rst(memory, 0x10));
            },
            0xd8 => {
                // RET C
                if self.carry {
                    self.ret(memory);
                    branch_taken = true;
                }
            },
            0xd9 => {
                // RETI
                self.ret(memory);
                self.interrupts_enabled = true;
            },
            0xda => {
                // JP C, u16
                if self.carry {
                    self.jp_from_pc(memory);
                    branch_taken = true;
                } else {
                    self.pc = self.pc.wrapping_add(2);
                }
            },
            0xdb => {
                // Blank Instruction
            },
            0xdc => {
                // CALL C, u16
                if self.carry {
                    memory_write_results.append(&mut self.call(memory));
                    branch_taken = true;
                } else {
                    self.pc = self.pc.wrapping_add(2);
                }
            },
            0xdd => {
                // Blank Instruction
            },
            0xde => {
                // SBC A, u8
                let value: u8 = self.fetch(memory);
                self.a = self.sbc_byte(self.a, value);
            },
            0xdf => {
                // RST 18h
                memory_write_results.append(&mut self.rst(memory, 0x18));
            },
            _ => {},
        }
        (isa::instruction_timing(instruction, branch_taken), memory_write_results)
    }

    /// Opcodes 0xe0..=0xef.
    #[verifier::rlimit(100)]
    pub(crate) fn execute_e0_ef(&mut self, memory: &mut Memory, instruction: u8) -> (r: (u8, Vec<MemoryWriteResult>))
        requires
            old(memory)@.structural(),
            crate::isa::block3_accesses_ok(*old(self), old(memory)@, instruction),
            0xe0 <= instruction <= 0xef,
        ensures
            ({
                let st = isa::block3_step(*old(self), old(memory)@, instruction);
                &&& *final(self) == st.cpu
                &&& final(memory)@ == st.memory
                &&& r.0 == st.cycles
                &&& r.1@ == st.events
            }),
            final(memory)@.structural(),
            old(memory)@.wf() ==> final(memory)@.wf(),
    {
        let mut memory_write_results: Vec<MemoryWriteResult> = Vec::new();
        let mut branch_taken: bool = false;
        match instruction {
            0xe0 => {
                // LD (FF00 + u8), A
                let value: u8 = self.fetch(memory);
                memory_write_results.append(&mut memory.write_to_memory(0xff00 + (value as u16), self.a));
            },
            0xe1 => {
                // POP HL
                self.l = self.pop(memory);
                self.h = self.pop(memory);
            },
            0xe2 => {
                // LD (FF00 + C), A
                memory_write_results.append(&mut memory.write_to_memory(0xff00 + (self.c as u16), self.a));
            },
            0xe3 | 0xe4 => {
                // Blank Instruction
            },
            0xe5 => {
                // PUSH HL
                self.push(memory, self.h);
                self.push(memory, self.l);
            },
            0xe6 => {
                // AND A, u8
                let value: u8 = self.fetch(memory);
                self.a = self.and_byte(self.a, value);
            },
            0xe7 => {
                // RST 20h
                memory_write_results.append(&mut self.rst(memory, 0x20));
            },
            0xe8 => {
                // ADD SP, i8
                proof { lemma_word_mask(); lemma_sign_extension(); }
                let sp: u16 = self.sp;
                //let value: u16 = ((self.fetch(memory) as i8) as i16) as u16;
                let value: u16 = (self.fetch(memory) as i8) as u16;
                self.sp = sp.wrapping_add(value);
                self.zero = false;
                self.subtract = false;
                self.half_carry = (sp & 0xf) + (value & 0xf) > 0xf;
                self.carry = (sp & 0xff) + (value & 0xff) > 0xff;
            },
            0xe9 => {
                // JP HL
                self.jp_from_bytes(self.l, self.h);
            },
            0xea => {
                // LD (u16), A
                let lower: u8 = self.fetch(memory);
                let upper: u8 = self.fetch(memory);
                memory_write_results.append(&mut memory.write_to_memory(bit_logic::compose_bytes(lower, upper), self.a));
            },
            0xeb | 0xec | 0xed => {
                // Blank Instruction
            },
            0xee => {
                // XOR A, u8
                let value: u8 = self.fetch(memory);
                self.a = self.xor_byte(self.a, value);
            },
            0xef => {
                // RST 28h
                memory_write_results.append(&mut self.rst(memory, 0x28));
            },
            _ => {},
        }
        (isa::instruction_timing(instruction, branch_taken), memory_write_results)
    }

    /// Opcodes 0xf0..=0xff.
    #[verifier::rlimit(100)]
    pub(crate) fn execute_f0_ff(&mut self, memory: &mut Memory, instruction: u8) -> (r: (u8, Vec<MemoryWriteResult>))
        requires
            old(memory)@.structural(),
            crate::isa::block3_accesses_ok(*old(self), old(memory)@, instruction),
            0xf0 <= instruction <= 0xff,
        ensures
            ({
                let st = isa::block3_step(*old(self), old(memory)@, instruction);
                &&& *final(self) == st.cpu
                &&& final(memory)@ == st.memory
                &&& r.0 == st.cycles
                &&& r.1@ == st.events
            }),
            final(memory)@.structural(),
            old(memory)@.wf() ==> final(memory)@.wf(),
    {
        let mut memory_write_results: Vec<MemoryWriteResult> = Vec::new();
        let mut branch_taken: bool = false;
        match instruction {
            0xf0 => {
                // LD A, (FF00 + u8)
                let offset: u8 = self.fetch(memory);
                let value: u8 = memory.read_from_memory(0xff00 + (offset as u16));
                Cpu::ld_byte(&mut self.a, value);
            },
            0xf1 => {
                // POP AF
                let popped_f: u8 = self.pop(memory);
                self.set_f(popped_f);
                self.a = self.pop(memory);
            },
            0xf2 => {
                // LD A, (FF00 + C)
                let value: u8 = memory.read_from_memory(0xff00 + (self.c as u16));
                Cpu::ld_byte(&mut self.a, value);
            },
            0xf3 => {
                // DI
                self.pending_interrupt_enable = false;
                self.one_instruction_passed = false;
                self.interrupts_enabled = false;
            },
            0xf4 => {
                // Blank Instruction
            },
            0xf5 => {
                // PUSH AF
                self.push(memory, self.a);
                self.push(memory, self.get_f());
            },
            0xf6 => {
                // OR A, u8
                let value: u8 = self.fetch(memory);
                self.a = self.or_byte(self.a, value);
            },
            0xf7 => {
                // RST 30h
                memory_write_results.append(&mut self.rst(memory, 0x30));
            },
            0xf8 => {
                // LD HL, SP + i8
                proof { lemma_word_mask(); lemma_sign_extension(); }
                //let value: u16 = ((self.fetch(memory) as i8) as i16) as u16;
                let value: u16 = (self.fetch(memory) as i8) as u16;
                let (lower, upper) = bit_logic::decompose_bytes(self.sp.wrapping_add(value));
                self.l = lower;
                self.h = upper;
                self.zero = false;
                self.subtract = false;
                self.half_carry = (self.sp & 0xf) + (value & 0xf) > 0xf;
                self.carry = (self.sp & 0xff) + (value & 0xff) > 0xff;
            },
            0xf9 => {
                // LD SP, HL
                self.sp = bit_logic::compose_bytes(self.l, self.h);
            },
            0xfa => {
                // LD A, (u16)
                let lower: u8 = self.fetch(memory);
                let upper: u8 = self.fetch(memory);
                let value: u8 = memory.read_from_memory(bit_logic::compose_bytes(lower, upper));
                Cpu::ld_byte(&mut self.a, value);
            },
            0xfb => {
                // EI
                self.pending_interrupt_enable = true;
            },
            0xfc | 0xfd => {
                // Blank Instruction
            },
            0xfe => {
                // CP A, u8
                let value: u8 = self.fetch(memory);
                self.cp_byte(self.a, value);
            },
            0xff => {
                // RST 38h
                memory_write_results.append(&mut self.rst(memory, 0x38));
            },
            _ => {},
        }
        (isa::instruction_timing(instruction, branch_taken), memory_write_results)
    }
}

} // verus!
