//! Fetching and dispatching instructions.
use vstd::prelude::*;
use crate::cpu::Cpu;
use crate::isa;
use crate::memory::{Memory, MemoryWriteResult};

verus! {

broadcast use crate::memory::group_loaded_memory;

impl Cpu {
    /// Executes opcode `instruction`, the processor just past it; gives its
    /// cycles and what its writes ask of the other components.
    pub fn execute(&mut self, memory: &mut Memory, instruction: u8) -> (r: (u8, Vec<MemoryWriteResult>))
        requires
            old(memory)@.structural(),
            isa::accesses_ok(*old(self), old(memory)@, instruction),
            isa::step_defined(*old(self), old(memory)@, instruction),
        ensures
            ({
                let st = isa::step(*old(self), old(memory)@, instruction);
                &&& *final(self) == st.cpu
                &&& final(memory)@ == st.memory
                &&& r.0 == st.cycles
                &&& r.1@ == st.events
            }),
            final(memory)@.structural(),
            old(memory)@.wf() ==> final(memory)@.wf(),
    {
        if instruction < 0x40 {
            self.execute_misc(memory, instruction)
        } else if instruction < 0x80 {
            self.execute_loads(memory, instruction)
        } else if instruction < 0xc0 {
            self.execute_arithmetic(memory, instruction)
        } else {
            self.execute_control(memory, instruction)
        }
    }

    /// Fetches and executes one instruction, then advances the delayed
    /// enabling of interrupts.
    pub fn update(&mut self, memory: &mut Memory) -> (r: (u8, Vec<MemoryWriteResult>))
        requires
            old(memory)@.structural(),
            old(memory)@.readable(old(self).pc),
            isa::accesses_ok(old(self).with_pc(old(self).pc.wrapping_add(1)), old(memory)@, old(memory)@.read(old(self).pc)),
            isa::update_defined(*old(self), old(memory)@),
        ensures
            ({
                let st = isa::update_step(*old(self), old(memory)@);
                &&& *final(self) == st.cpu
                &&& final(memory)@ == st.memory
                &&& r.0 == st.cycles
                &&& r.1@ == st.events
            }),
            final(memory)@.structural(),
            old(memory)@.wf() ==> final(memory)@.wf(),
            r.0 <= 6,
    {
        proof {
            isa::lemma_step_cycles(self.with_pc(self.pc.wrapping_add(1)), memory@, memory@.read(self.pc));
        }
        let instruction: u8 = self.fetch(memory);
        let (cycles, memory_write_results) = self.execute(memory, instruction);
        if self.pending_interrupt_enable {
            if self.one_instruction_passed {
                if !self.interrupts_enabled {
                    self.interrupts_enabled = true;
                }
                self.pending_interrupt_enable = false;
                self.one_instruction_passed = false;
            } else {
                self.one_instruction_passed = true;
            }
        }
        (cycles, memory_write_results)
    }
}

} // verus!
