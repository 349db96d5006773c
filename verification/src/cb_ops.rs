//! The CB-prefixed opcode table: rotations, shifts and single-bit operations.
use vstd::prelude::*;
use crate::bit_logic;
use crate::cpu::Cpu;
use crate::isa::{cb_step, CB_INSTRUCTION_TIMINGS};
use crate::memory::{Memory, MemoryWriteResult};

verus! {

broadcast use crate::memory::group_loaded_memory;

impl Cpu {
    /// Executes a CB-prefixed instruction, the processor just past its second
    /// byte; gives its cycles and what its writes ask of the other components.
    pub fn execute_cb(&mut self, memory: &mut Memory, instruction: u8) -> (r: (u8, Vec<MemoryWriteResult>))
        requires
            old(memory)@.structural(),
            crate::isa::cb_accesses_ok(*old(self), old(memory)@, instruction),
        ensures
            ({
                let st = cb_step(*old(self), old(memory)@, instruction);
                &&& *final(self) == st.cpu
                &&& final(memory)@ == st.memory
                &&& r.0 == st.cycles
                &&& r.1@ == st.events
            }),
            final(memory)@.structural(),
            old(memory)@.wf() ==> final(memory)@.wf(),
    {
        let memory_write_results: Vec<MemoryWriteResult> = if instruction < 0x40 {
            self.execute_cb_rotations(memory, instruction)
        } else if instruction < 0x80 {
            self.execute_cb_bit_tests(memory, instruction)
        } else if instruction < 0xc0 {
            self.execute_cb_resets(memory, instruction)
        } else {
            self.execute_cb_sets(memory, instruction)
        };
        (CB_INSTRUCTION_TIMINGS[instruction as usize], memory_write_results)
    }

    /// The CB-prefixed rotates and shifts (0x00..=0x3f).
    #[verifier::rlimit(100)]
    pub(crate) fn execute_cb_rotations(&mut self, memory: &mut Memory, instruction: u8) -> (r: Vec<MemoryWriteResult>)
        requires
            old(memory)@.structural(),
            crate::isa::cb_accesses_ok(*old(self), old(memory)@, instruction),
            0x00 <= instruction <= 0x3f,
        ensures
            ({
                let st = cb_step(*old(self), old(memory)@, instruction);
                &&& *final(self) == st.cpu
                &&& final(memory)@ == st.memory
                &&& r@ == st.events
            }),
            final(memory)@.structural(),
            old(memory)@.wf() ==> final(memory)@.wf(),
    {
        let mut memory_write_results: Vec<MemoryWriteResult> = Vec::new();
        match instruction {
            0x00 => {
                // RLC B
                self.b = self.rlc(self.b);
            },
            0x01 => {
                // RLC C
                self.c = self.rlc(self.c);
            },
            0x02 => {
                // RLC D
                self.d = self.rlc(self.d);
            },
            0x03 => {
                // RLC E
                self.e = self.rlc(self.e);
            },
            0x04 => {
                // RLC H
                self.h = self.rlc(self.h);
            },
            0x05 => {
                // RLC L
                self.l = self.rlc(self.l);
            },
            0x06 => {
                // RLC (HL)
                let mut value: u8 = memory.read_from_memory(bit_logic::compose_bytes(self.l, self.h));
                value = self.rlc(value);
                memory_write_results.append(&mut memory.write_to_memory(bit_logic::compose_bytes(self.l, self.h), value));
            },
            0x07 => {
                // RLC A
                self.a = self.rlc(self.a);
            },
            0x08 => {
                // RRC B
                self.b = self.rrc(self.b);
            },
            0x09 => {
                // RRC C
                self.c = self.rrc(self.c);
            },
            0x0a => {
                // RRC D
                self.d = self.rrc(self.d);
            },
            0x0b => {
                // RRC E
                self.e = self.rrc(self.e);
            },
            0x0c => {
                // RRC H
                self.h = self.rrc(self.h);
            },
            0x0d => {
                // RRC L
                self.l = self.rrc(self.l);
            },
            0x0e => {
                // RRC (HL)
                let mut value: u8 = memory.read_from_memory(bit_logic::compose_bytes(self.l, self.h));
                value = self.rrc(value);
                memory_write_results.append(&mut memory.write_to_memory(bit_logic::compose_bytes(self.l, self.h), value));
            },
            0x0f => {
                // RRC A
                self.a = self.rrc(self.a);
            },
            0x10 => {
                // RL B
                self.b = self.rl(self.b);
            },
            0x11 => {
                // RL C
                self.c = self.rl(self.c);
            },
            0x12 => {
                // RL D
                self.d = self.rl(self.d);
            },
            0x13 => {
                // RL E
                self.e = self.rl(self.e);
            },
            0x14 => {
                // RL H
                self.h = self.rl(self.h);
            },
            0x15 => {
                // RL L
                self.l = self.rl(self.l);
            },
            0x16 => {
                // RL (HL)
                let mut value: u8 = memory.read_from_memory(bit_logic::compose_bytes(self.l, self.h));
                value = self.rl(value);
                memory_write_results.append(&mut memory.write_to_memory(bit_logic::compose_bytes(self.l, self.h), value));
            },
            0x17 => {
                // RL A
                self.a = self.rl(self.a);
            },
            0x18 => {
                // RR B
                self.b = self.rr(self.b);
            },
            0x19 => {
                // RR C
                self.c = self.rr(self.c);
            },
            0x1a => {
                // RR D
                self.d = self.rr(self.d);
            },
            0x1b => {
                // RR E
                self.e = self.rr(self.e);
            },
            0x1c => {
                // RR H
                self.h = self.rr(self.h);
            },
            0x1d => {
                // RR L
                self.l = self.rr(self.l);
            },
            0x1e => {
                // RR (HL)
                let mut value: u8 = memory.read_from_memory(bit_logic::compose_bytes(self.l, self.h));
                value = self.rr(value);
                memory_write_results.append(&mut memory.write_to_memory(bit_logic::compose_bytes(self.l, self.h), value));
            },
            0x1f => {
                // RR A
                self.a = self.rr(self.a);
            },
            0x20 => {
                // SLA B
                self.b = self.sla(self.b);
            },
            0x21 => {
                // SLA C
                self.c = self.sla(self.c);
            },
            0x22 => {
                // SLA D
                self.d = self.sla(self.d);
            },
            0x23 => {
                // SLA E
                self.e = self.sla(self.e);
            },
            0x24 => {
                // SLA H
                self.h = self.sla(self.h);
            },
            0x25 => {
                // SLA L
                self.l = self.sla(self.l);
            },
            0x26 => {
                // SLA (HL)
                let mut value: u8 = memory.read_from_memory(bit_logic::compose_bytes(self.l, self.h));
                value = self.sla(value);
                memory_write_results.append(&mut memory.write_to_memory(bit_logic::compose_bytes(self.l, self.h), value));
            },
            0x27 => {
                // SLA A
                self.a = self.sla(self.a);
            },
            0x28 => {
                // SRA B
                self.b = self.sra(self.b);
            },
            0x29 => {
                // SRA C
                self.c = self.sra(self.c);
            },
            0x2a => {
                // SRA D
                self.d = self.sra(self.d);
            },
            0x2b => {
                // SRA E
                self.e = self.sra(self.e);
            },
            0x2c => {
                // SRA H
                self.h = self.sra(self.h);
            },
            0x2d => {
                // SRA L
                self.l = self.sra(self.l);
            },
            0x2e => {
                // SRA (HL)
                let mut value: u8 = memory.read_from_memory(bit_logic::compose_bytes(self.l, self.h));
                value = self.sra(value);
                memory_write_results.append(&mut memory.write_to_memory(bit_logic::compose_bytes(self.l, self.h), value));
            },
            0x2f => {
                // SRA A
                self.a = self.sra(self.a);
            },
            0x30 => {
                // SWAP B
                self.b = self.swap(self.b);
            },
            0x31 => {
                // SWAP C
                self.c = self.swap(self.c);
            },
            0x32 => {
                // SWAP D
                self.d = self.swap(self.d);
            },
            0x33 => {
                // SWAP E
                self.e = self.swap(self.e);
            },
            0x34 => {
                // SWAP H
                self.h = self.swap(self.h);
            },
            0x35 => {
                // SWAP L
                self.l = self.swap(self.l);
            },
            0x36 => {
                // SWAP (HL)
                let mut value: u8 = memory.read_from_memory(bit_logic::compose_bytes(self.l, self.h));
                value = self.swap(value);
                memory_write_results.append(&mut memory.write_to_memory(bit_logic::compose_bytes(self.l, self.h), value));
            },
            0x37 => {
                // SWAP A
                self.a = self.swap(self.a);
            },
            0x38 => {
                // SRL B
                self.b = self.srl(self.b);
            },
            0x39 => {
                // SRL C
                self.c = self.srl(self.c);
            },
            0x3a => {
                // SRL D
                self.d = self.srl(self.d);
            },
            0x3b => {
                // SRL E
                self.e = self.srl(self.e);
            },
            0x3c => {
                // SRL H
                self.h = self.srl(self.h);
            },
            0x3d => {
                // SRL L
                self.l = self.srl(self.l);
            },
            0x3e => {
                // SRL (HL)
                let mut value: u8 = memory.read_from_memory(bit_logic::compose_bytes(self.l, self.h));
                value = self.srl(value);
                memory_write_results.append(&mut memory.write_to_memory(bit_logic::compose_bytes(self.l, self.h), value));
            },
            0x3f => {
                // SRL A
                self.a = self.srl(self.a);
            },
            _ => {},
        }
        memory_write_results
    }

    /// The CB-prefixed bit tests (0x40..=0x7f).
    #[verifier::rlimit(100)]
    pub(crate) fn execute_cb_bit_tests(&mut self, memory: &mut Memory, instruction: u8) -> (r: Vec<MemoryWriteResult>)
        requires
            old(memory)@.structural(),
            crate::isa::cb_accesses_ok(*old(self), old(memory)@, instruction),
            0x40 <= instruction <= 0x7f,
        ensures
            ({
                let st = cb_step(*old(self), old(memory)@, instruction);
                &&& *final(self) == st.cpu
                &&& final(memory)@ == st.memory
                &&& r@ == st.events
            }),
            final(memory)@.structural(),
            old(memory)@.wf() ==> final(memory)@.wf(),
    {
        let mut memory_write_results: Vec<MemoryWriteResult> = Vec::new();
        match instruction {
            0x40 => {
                // BIT 0, B
                self.bit(0, self.b);
            },
            0x41 => {
                // BIT 0, C
                self.bit(0, self.c);
            },
            0x42 => {
                // BIT 0, D
                self.bit(0, self.d);
            },
            0x43 => {
                // BIT 0, E
                self.bit(0, self.e);
            },
            0x44 => {
                // BIT 0, H
                self.bit(0, self.h);
            },
            0x45 => {
                // BIT 0, L
                self.bit(0, self.l);
            },
            0x46 => {
                // BIT 0, (HL)
                let value: u8 = memory.read_from_memory(bit_logic::compose_bytes(self.l, self.h));
                self.bit(0, value);
            },
            0x47 => {
                // BIT 0, A
                self.bit(0, self.a);
            },
            0x48 => {
                // BIT 1, B
                self.bit(1, self.b);
            },
            0x49 => {
                // BIT 1, C
                self.bit(1, self.c);
            },
            0x4a => {
                // BIT 1, D
                self.bit(1, self.d);
            },
            0x4b => {
                // BIT 1, E
                self.bit(1, self.e);
            },
            0x4c => {
                // BIT 1, H
                self.bit(1, self.h);
            },
            0x4d => {
                // BIT 1, L
                self.bit(1, self.l);
            },
            0x4e => {
                // BIT 1, (HL)
                let value: u8 = memory.read_from_memory(bit_logic::compose_bytes(self.l, self.h));
                self.bit(1, value);
            },
            0x4f => {
                // BIT 1, A
                self.bit(1, self.a);
            },
            0x50 => {
                // BIT 2, B
                self.bit(2, self.b);
            },
            0x51 => {
                // BIT 2, C
                self.bit(2, self.c);
            },
            0x52 => {
                // BIT 2, D
                self.bit(2, self.d);
            },
            0x53 => {
                // BIT 2, E
                self.bit(2, self.e);
            },
            0x54 => {
                // BIT 2, H
                self.bit(2, self.h);
            },
            0x55 => {
                // BIT 2, L
                self.bit(2, self.l);
            },
            0x56 => {
                // BIT 2, (HL)
                let value: u8 = memory.read_from_memory(bit_logic::compose_bytes(self.l, self.h));
                self.bit(2, value);
            },
            0x57 => {
                // BIT 2, A
                self.bit(2, self.a);
            },
            0x58 => {
                // BIT 3, B
                self.bit(3, self.b);
            },
            0x59 => {
                // BIT 3, C
                self.bit(3, self.c);
            },
            0x5a => {
                // BIT 3, D
                self.bit(3, self.d);
            },
            0x5b => {
                // BIT 3, E
                self.bit(3, self.e);
            },
            0x5c => {
                // BIT 3, H
                self.bit(3, self.h);
            },
            0x5d => {
                // BIT 3, L
                self.bit(3, self.l);
            },
            0x5e => {
                // BIT 3, (HL)
                let value: u8 = memory.read_from_memory(bit_logic::compose_bytes(self.l, self.h));
                self.bit(3, value);
            },
            0x5f => {
                // BIT 3, A
                self.bit(3, self.a);
            },
            0x60 => {
                // BIT 4, B
                self.bit(4, self.b);
            },
            0x61 => {
                // BIT 4, C
                self.bit(4, self.c);
            },
            0x62 => {
                // BIT 4, D
                self.bit(4, self.d);
            },
            0x63 => {
                // BIT 4, E
                self.bit(4, self.e);
            },
            0x64 => {
                // BIT 4, H
                self.bit(4, self.h);
            },
            0x65 => {
                // BIT 4, L
                self.bit(4, self.l);
            },
            0x66 => {
                // BIT 4, (HL)
                let value: u8 = memory.read_from_memory(bit_logic::compose_bytes(self.l, self.h));
                self.bit(4, value);
            },
            0x67 => {
                // BIT 4, A
                self.bit(4, self.a);
            },
            0x68 => {
                // BIT 5, B
                self.bit(5, self.b);
            },
            0x69 => {
                // BIT 5, C
                self.bit(5, self.c);
            },
            0x6a => {
                // BIT 5, D
                self.bit(5, self.d);
            },
            0x6b => {
                // BIT 5, E
                self.bit(5, self.e);
            },
            0x6c => {
                // BIT 5, H
                self.bit(5, self.h);
            },
            0x6d => {
                // BIT 5, L
                self.bit(5, self.l);
            },
            0x6e => {
                // BIT 5, (HL)
                let value: u8 = memory.read_from_memory(bit_logic::compose_bytes(self.l, self.h));
                self.bit(5, value);
            },
            0x6f => {
                // BIT 5, A
                self.bit(5, self.a);
            },
            0x70 => {
                // BIT 6, B
                self.bit(6, self.b);
            },
            0x71 => {
                // BIT 6, C
                self.bit(6, self.c);
            },
            0x72 => {
                // BIT 6, D
                self.bit(6, self.d);
            },
            0x73 => {
                // BIT 6, E
                self.bit(6, self.e);
            },
            0x74 => {
                // BIT 6, H
                self.bit(6, self.h);
            },
            0x75 => {
                // BIT 6, L
                self.bit(6, self.l);
            },
            0x76 => {
                // BIT 6, (HL)
                let value: u8 = memory.read_from_memory(bit_logic::compose_bytes(self.l, self.h));
                self.bit(6, value);
            },
            0x77 => {
                // BIT 6, A
                self.bit(6, self.a);
            },
            0x78 => {
                // BIT 7, B
                self.bit(7, self.b);
            },
            0x79 => {
                // BIT 7, C
                self.bit(7, self.c);
            },
            0x7a => {
                // BIT 7, D
                self.bit(7, self.d);
            },
            0x7b => {
                // BIT 7, E
                self.bit(7, self.e);
            },
            0x7c => {
                // BIT 7, H
                self.bit(7, self.h);
            },
            0x7d => {
                // BIT 7, L
                self.bit(7, self.l);
            },
            0x7e => {
                // BIT 7, (HL)
                let value: u8 = memory.read_from_memory(bit_logic::compose_bytes(self.l, self.h));
                self.bit(7, value);
            },
            0x7f => {
                // BIT 7, A
                self.bit(7, self.a);
            },
            _ => {},
        }
        memory_write_results
    }

    /// The CB-prefixed bit resets (0x80..=0xbf).
    #[verifier::rlimit(100)]
    pub(crate) fn execute_cb_resets(&mut self, memory: &mut Memory, instruction: u8) -> (r: Vec<MemoryWriteResult>)
        requires
            old(memory)@.structural(),
            crate::isa::cb_accesses_ok(*old(self), old(memory)@, instruction),
            0x80 <= instruction <= 0xbf,
        ensures
            ({
                let st = cb_step(*old(self), old(memory)@, instruction);
                &&& *final(self) == st.cpu
                &&& final(memory)@ == st.memory
                &&& r@ == st.events
            }),
            final(memory)@.structural(),
            old(memory)@.wf() ==> final(memory)@.wf(),
    {
        let mut memory_write_results: Vec<MemoryWriteResult> = Vec::new();
        match instruction {
            0x80 => {
                // RES 0, B
                Cpu::res(0, &mut self.b);
            },
            0x81 => {
                // RES 0, C
                Cpu::res(0, &mut self.c);
            },
            0x82 => {
                // RES 0, D
                Cpu::res(0, &mut self.d);
            },
            0x83 => {
                // RES 0, E
                Cpu::res(0, &mut self.e);
            },
            0x84 => {
                // RES 0, H
                Cpu::res(0, &mut self.h);
            },
            0x85 => {
                // RES 0, L
                Cpu::res(0, &mut self.l);
            },
            0x86 => {
                // RES 0, (HL)
                let mut value: u8 = memory.read_from_memory(bit_logic::compose_bytes(self.l, self.h));
                Cpu::res(0, &mut value);
                memory_write_results.append(&mut memory.write_to_memory(bit_logic::compose_bytes(self.l, self.h), value));
            },
            0x87 => {
                // RES 0, A
                Cpu::res(0, &mut self.a);
            },
            0x88 => {
                // RES 1, B
                Cpu::res(1, &mut self.b);
            },
            0x89 => {
                // RES 1, C
                Cpu::res(1, &mut self.c);
            },
            0x8a => {
                // RES 1, D
                Cpu::res(1, &mut self.d);
            },
            0x8b => {
                // RES 1, E
                Cpu::res(1, &mut self.e);
            },
            0x8c => {
                // RES 1, H
                Cpu::res(1, &mut self.h);
            },
            0x8d => {
                // RES 1, L
                Cpu::res(1, &mut self.l);
            },
            0x8e => {
                // RES 1, (HL)
                let mut value: u8 = memory.read_from_memory(bit_logic::compose_bytes(self.l, self.h));
                Cpu::res(1, &mut value);
                memory_write_results.append(&mut memory.write_to_memory(bit_logic::compose_bytes(self.l, self.h), value));
            },
            0x8f => {
                // RES 1, A
                Cpu::res(1, &mut self.a);
            },
            0x90 => {
                // RES 2, B
                Cpu::res(2, &mut self.b);
            },
            0x91 => {
                // RES 2, C
                Cpu::res(2, &mut self.c);
            },
            0x92 => {
                // RES 2, D
                Cpu::res(2, &mut self.d);
            },
            0x93 => {
                // RES 2, E
                Cpu::res(2, &mut self.e);
            },
            0x94 => {
                // RES 2, H
                Cpu::res(2, &mut self.h);
            },
            0x95 => {
                // RES 2, L
                Cpu::res(2, &mut self.l);
            },
            0x96 => {
                // RES 2, (HL)
                let mut value: u8 = memory.read_from_memory(bit_logic::compose_bytes(self.l, self.h));
                Cpu::res(2, &mut value);
                memory_write_results.append(&mut memory.write_to_memory(bit_logic::compose_bytes(self.l, self.h), value));
            },
            0x97 => {
                // RES 2, A
                Cpu::res(2, &mut self.a);
            },
            0x98 => {
                // RES 3, B
                Cpu::res(3, &mut self.b);
            },
            0x99 => {
                // RES 3, C
                Cpu::res(3, &mut self.c);
            },
            0x9a => {
                // RES 3, D
                Cpu::res(3, &mut self.d);
            },
            0x9b => {
                // RES 3, E
                Cpu::res(3, &mut self.e);
            },
            0x9c => {
                // RES 3, H
                Cpu::res(3, &mut self.h);
            },
            0x9d => {
                // RES 3, L
                Cpu::res(3, &mut self.l);
            },
            0x9e => {
                // RES 3, (HL)
                let mut value: u8 = memory.read_from_memory(bit_logic::compose_bytes(self.l, self.h));
                Cpu::res(3, &mut value);
                memory_write_results.append(&mut memory.write_to_memory(bit_logic::compose_bytes(self.l, self.h), value));
            },
            0x9f => {
                // RES 3, A
                Cpu::res(3, &mut self.a);
            },
            0xa0 => {
                // RES 4, B
                Cpu::res(4, &mut self.b);
            },
            0xa1 => {
                // RES 4, C
                Cpu::res(4, &mut self.c);
            },
            0xa2 => {
                // RES 4, D
                Cpu::res(4, &mut self.d);
            },
            0xa3 => {
                // RES 4, E
                Cpu::res(4, &mut self.e);
            },
            0xa4 => {
                // RES 4, H
                Cpu::res(4, &mut self.h);
            },
            0xa5 => {
                // RES 4, L
                Cpu::res(4, &mut self.l);
            },
            0xa6 => {
                // RES 4, (HL)
                let mut value: u8 = memory.read_from_memory(bit_logic::compose_bytes(self.l, self.h));
                Cpu::res(4, &mut value);
                memory_write_results.append(&mut memory.write_to_memory(bit_logic::compose_bytes(self.l, self.h), value));
            },
            0xa7 => {
                // RES 4, A
                Cpu::res(4, &mut self.a);
            },
            0xa8 => {
                // RES 5, B
                Cpu::res(5, &mut self.b);
            },
            0xa9 => {
                // RES 5, C
                Cpu::res(5, &mut self.c);
            },
            0xaa => {
                // RES 5, D
                Cpu::res(5, &mut self.d);
            },
            0xab => {
                // RES 5, E
                Cpu::res(5, &mut self.e);
            },
            0xac => {
                // RES 5, H
                Cpu::res(5, &mut self.h);
            },
            0xad => {
                // RES 5, L
                Cpu::res(5, &mut self.l);
            },
            0xae => {
                // RES 5, (HL)
                let mut value: u8 = memory.read_from_memory(bit_logic::compose_bytes(self.l, self.h));
                Cpu::res(5, &mut value);
                memory_write_results.append(&mut memory.write_to_memory(bit_logic::compose_bytes(self.l, self.h), value));
            },
            0xaf => {
                // RES 5, A
                Cpu::res(5, &mut self.a);
            },
            0xb0 => {
                // RES 6, B
                Cpu::res(6, &mut self.b);
            },
            0xb1 => {
                // RES 6, C
                Cpu::res(6, &mut self.c);
            },
            0xb2 => {
                // RES 6, D
                Cpu::res(6, &mut self.d);
            },
            0xb3 => {
                // RES 6, E
                Cpu::res(6, &mut self.e);
            },
            0xb4 => {
                // RES 6, H
                Cpu::res(6, &mut self.h);
            },
            0xb5 => {
                // RES 6, L
                Cpu::res(6, &mut self.l);
            },
            0xb6 => {
                // RES 6, (HL)
                let mut value: u8 = memory.read_from_memory(bit_logic::compose_bytes(self.l, self.h));
                Cpu::res(6, &mut value);
                memory_write_results.append(&mut memory.write_to_memory(bit_logic::compose_bytes(self.l, self.h), value));
            },
            0xb7 => {
                // RES 6, A
                Cpu::res(6, &mut self.a);
            },
            0xb8 => {
                // RES 7, B
                Cpu::res(7, &mut self.b);
            },
            0xb9 => {
                // RES 7, C
                Cpu::res(7, &mut self.c);
            },
            0xba => {
                // RES 7, D
                Cpu::res(7, &mut self.d);
            },
            0xbb => {
                // RES 7, E
                Cpu::res(7, &mut self.e);
            },
            0xbc => {
                // RES 7, H
                Cpu::res(7, &mut self.h);
            },
            0xbd => {
                // RES 7, L
                Cpu::res(7, &mut self.l);
            },
            0xbe => {
                // RES 7, (HL)
                let mut value: u8 = memory.read_from_memory(bit_logic::compose_bytes(self.l, self.h));
                Cpu::res(7, &mut value);
                memory_write_results.append(&mut memory.write_to_memory(bit_logic::compose_bytes(self.l, self.h), value));
            },
            0xbf => {
                // RES 7, A
                Cpu::res(7, &mut self.a);
            },
            _ => {},
        }
        memory_write_results
    }

    /// The CB-prefixed bit sets (0xc0..=0xff).
    #[verifier::rlimit(100)]
    pub(crate) fn execute_cb_sets(&mut self, memory: &mut Memory, instruction: u8) -> (r: Vec<MemoryWriteResult>)
        requires
            old(memory)@.structural(),
            crate::isa::cb_accesses_ok(*old(self), old(memory)@, instruction),
            0xc0 <= instruction <= 0xff,
        ensures
            ({
                let st = cb_step(*old(self), old(memory)@, instruction);
                &&& *final(self) == st.cpu
                &&& final(memory)@ == st.memory
                &&& r@ == st.events
            }),
            final(memory)@.structural(),
            old(memory)@.wf() ==> final(memory)@.wf(),
    {
        let mut memory_write_results: Vec<MemoryWriteResult> = Vec::new();
        match instruction {
            0xc0 => {
                // SET 0, B
                Cpu::set(0, &mut self.b);
            },
            0xc1 => {
                // SET 0, C
                Cpu::set(0, &mut self.c);
            },
            0xc2 => {
                // SET 0, D
                Cpu::set(0, &mut self.d);
            },
            0xc3 => {
                // SET 0, E
                Cpu::set(0, &mut self.e);
            },
            0xc4 => {
                // SET 0, H
                Cpu::set(0, &mut self.h);
            },
            0xc5 => {
                // SET 0, L
                Cpu::set(0, &mut self.l);
            },
            0xc6 => {
                // SET 0, (HL)
                let mut value: u8 = memory.read_from_memory(bit_logic::compose_bytes(self.l, self.h));
                Cpu::set(0, &mut value);
                memory_write_results.append(&mut memory.write_to_memory(bit_logic::compose_bytes(self.l, self.h), value));
            },
            0xc7 => {
                // SET 0, A
                Cpu::set(0, &mut self.a);
            },
            0xc8 => {
                // SET 1, B
                Cpu::set(1, &mut self.b);
            },
            0xc9 => {
                // SET 1, C
                Cpu::set(1, &mut self.c);
            },
            0xca => {
                // SET 1, D
                Cpu::set(1, &mut self.d);
            },
            0xcb => {
                // SET 1, E
                Cpu::set(1, &mut self.e);
            },
            0xcc => {
                // SET 1, H
                Cpu::set(1, &mut self.h);
            },
            0xcd => {
                // SET 1, L
                Cpu::set(1, &mut self.l);
            },
            0xce => {
                // SET 1, (HL)
                let mut value: u8 = memory.read_from_memory(bit_logic::compose_bytes(self.l, self.h));
                Cpu::set(1, &mut value);
                memory_write_results.append(&mut memory.write_to_memory(bit_logic::compose_bytes(self.l, self.h), value));
            },
            0xcf => {
                // SET 1, A
                Cpu::set(1, &mut self.a);
            },
            0xd0 => {
                // SET 2, B
                Cpu::set(2, &mut self.b);
            },
            0xd1 => {
                // SET 2, C
                Cpu::set(2, &mut self.c);
            },
            0xd2 => {
                // SET 2, D
                Cpu::set(2, &mut self.d);
            },
            0xd3 => {
                // SET 2, E
                Cpu::set(2, &mut self.e);
            },
            0xd4 => {
                // SET 2, H
                Cpu::set(2, &mut self.h);
            },
            0xd5 => {
                // SET 2, L
                Cpu::set(2, &mut self.l);
            },
            0xd6 => {
                // SET 2, (HL)
                let mut value: u8 = memory.read_from_memory(bit_logic::compose_bytes(self.l, self.h));
                Cpu::set(2, &mut value);
                memory_write_results.append(&mut memory.write_to_memory(bit_logic::compose_bytes(self.l, self.h), value));
            },
            0xd7 => {
                // SET 2, A
                Cpu::set(2, &mut self.a);
            },
            0xd8 => {
                // SET 3, B
                Cpu::set(3, &mut self.b);
            },
            0xd9 => {
                // SET 3, C
                Cpu::set(3, &mut self.c);
            },
            0xda => {
                // SET 3, D
                Cpu::set(3, &mut self.d);
            },
            0xdb => {
                // SET 3, E
                Cpu::set(3, &mut self.e);
            },
            0xdc => {
                // SET 3, H
                Cpu::set(3, &mut self.h);
            },
            0xdd => {
                // SET 3, L
                Cpu::set(3, &mut self.l);
            },
            0xde => {
                // SET 3, (HL)
                let mut value: u8 = memory.read_from_memory(bit_logic::compose_bytes(self.l, self.h));
                Cpu::set(3, &mut value);
                memory_write_results.append(&mut memory.write_to_memory(bit_logic::compose_bytes(self.l, self.h), value));
            },
            0xdf => {
                // SET 3, A
                Cpu::set(3, &mut self.a);
            },
            0xe0 => {
                // SET 4, B
                Cpu::set(4, &mut self.b);
            },
            0xe1 => {
                // SET 4, C
                Cpu::set(4, &mut self.c);
            },
            0xe2 => {
                // SET 4, D
                Cpu::set(4, &mut self.d);
            },
            0xe3 => {
                // SET 4, E
                Cpu::set(4, &mut self.e);
            },
            0xe4 => {
                // SET 4, H
                Cpu::set(4, &mut self.h);
            },
            0xe5 => {
                // SET 4, L
                Cpu::set(4, &mut self.l);
            },
            0xe6 => {
                // SET 4, (HL)
                let mut value: u8 = memory.read_from_memory(bit_logic::compose_bytes(self.l, self.h));
                Cpu::set(4, &mut value);
                memory_write_results.append(&mut memory.write_to_memory(bit_logic::compose_bytes(self.l, self.h), value));
            },
            0xe7 => {
                // SET 4, A
                Cpu::set(4, &mut self.a);
            },
            0xe8 => {
                // SET 5, B
                Cpu::set(5, &mut self.b);
            },
            0xe9 => {
                // SET 5, C
                Cpu::set(5, &mut self.c);
            },
            0xea => {
                // SET 5, D
                Cpu::set(5, &mut self.d);
            },
            0xeb => {
                // SET 5, E
                Cpu::set(5, &mut self.e);
            },
            0xec => {
                // SET 5, H
                Cpu::set(5, &mut self.h);
            },
            0xed => {
                // SET 5, L
                Cpu::set(5, &mut self.l);
            },
            0xee => {
                // SET 5, (HL)
                let mut value: u8 = memory.read_from_memory(bit_logic::compose_bytes(self.l, self.h));
                Cpu::set(5, &mut value);
                memory_write_results.append(&mut memory.write_to_memory(bit_logic::compose_bytes(self.l, self.h), value));
            },
            0xef => {
                // SET 5, A
                Cpu::set(5, &mut self.a);
            },
            0xf0 => {
                // SET 6, B
                Cpu::set(6, &mut self.b);
            },
            0xf1 => {
                // SET 6, C
                Cpu::set(6, &mut self.c);
            },
            0xf2 => {
                // SET 6, D
                Cpu::set(6, &mut self.d);
            },
            0xf3 => {
                // SET 6, E
                Cpu::set(6, &mut self.e);
            },
            0xf4 => {
                // SET 6, H
                Cpu::set(6, &mut self.h);
            },
            0xf5 => {
                // SET 6, L
                Cpu::set(6, &mut self.l);
            },
            0xf6 => {
                // SET 6, (HL)
                let mut value: u8 = memory.read_from_memory(bit_logic::compose_bytes(self.l, self.h));
                Cpu::set(6, &mut value);
                memory_write_results.append(&mut memory.write_to_memory(bit_logic::compose_bytes(self.l, self.h), value));
            },
            0xf7 => {
                // SET 6, A
                Cpu::set(6, &mut self.a);
            },
            0xf8 => {
                // SET 7, B
                Cpu::set(7, &mut self.b);
            },
            0xf9 => {
                // SET 7, C
                Cpu::set(7, &mut self.c);
            },
            0xfa => {
                // SET 7, D
                Cpu::set(7, &mut self.d);
            },
            0xfb => {
                // SET 7, E
                Cpu::set(7, &mut self.e);
            },
            0xfc => {
                // SET 7, H
                Cpu::set(7, &mut self.h);
            },
            0xfd => {
                // SET 7, L
                Cpu::set(7, &mut self.l);
            },
            0xfe => {
                // SET 7, (HL)
                let mut value: u8 = memory.read_from_memory(bit_logic::compose_bytes(self.l, self.h));
                Cpu::set(7, &mut value);
                memory_write_results.append(&mut memory.write_to_memory(bit_logic::compose_bytes(self.l, self.h), value));
            },
            0xff => {
                // SET 7, A
                Cpu::set(7, &mut self.a);
            },
            _ => {},
        }
        memory_write_results
    }
}

} // verus!
