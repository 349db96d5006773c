//! A processor that owns the memory it runs on. Its instruction set is that
//! of [`Cpu`], each opcode doing what its name says: the CB prefix runs the
//! operation named by the byte after it; RETI returns and enables interrupts;
//! JR, ADD SP, e and LD HL, SP + e take the operand as a signed byte; SBC
//! subtracts; ADD and ADC take the zero flag from the byte result; CB 0xfa
//! sets bit 7 of D; EI takes effect after the next instruction. ADD HL, rr
//! takes its half carry from bit 11. The counters that it steps without
//! wrapping (a branch not taken at the end of the address space, INC SP at
//! 0xffff, DEC SP at 0, DAA subtracting past zero) are outside its
//! contracts, and its memory writes report nothing.
use vstd::prelude::*;
use crate::alu::{Flags, lemma_byte_ops, lemma_word_bytes};
use crate::cpu::Cpu;
use crate::isa::{self, Step, cond, only, rp, set_rp, timing};
use crate::memory::{Memory, MemoryModel};

verus! {

/// A processor together with the memory it reads and writes.
pub struct CPU {
    pub a: u8,
    pub b: u8,
    pub c: u8,
    pub d: u8,
    pub e: u8,
    pub h: u8,
    pub l: u8,
    pub sp: u16,
    pub pc: u16,
    pub zero: bool,
    pub subtract: bool,
    pub half_carry: bool,
    pub carry: bool,
    pub halted: bool,
    pub interrupts_enabled: bool,
    pub pending_interrupt_enable: bool,
    pub one_instruction_passed: bool,
    pub memory: Memory,
}

/// The correction that DAA adds or subtracts: 6 for the low digit, 0x60 for the high one.
pub open spec fn daa_correction(s: Cpu) -> int {
    (if s.half_carry || (!s.subtract && s.a % 16 > 9) { 6int } else { 0int })
        + (if s.carry || (!s.subtract && s.a > 0x99) { 0x60int } else { 0int })
}

/// DAA: the correction applied to A, the carry set when the high digit was
/// corrected, the half carry cleared.
pub open spec fn processor_daa(s: Cpu) -> Cpu {
    let c = daa_correction(s);
    let r: u8 = if s.subtract { (s.a - c) as u8 } else { ((s.a + c) % 256) as u8 };
    Cpu { a: r, zero: r == 0, half_carry: false, carry: s.carry || c >= 0x60, ..s }
}

/// Addition of two words: the half carry from bit 11, the carry from bit
/// 15, the zero flag kept.
pub open spec fn wide_add_word_op(x: u16, y: u16, f: Flags) -> (u16, Flags) {
    let r = ((x as int + y as int) % 0x10000) as u16;
    (r, Flags {
        zero: f.zero,
        subtract: false,
        half_carry: x as int % 0x1000 + y as int % 0x1000 > 0xfff,
        carry: x as int + y as int > 0xffff,
    })
}

/// Whether `op` is ADD HL, rr.
pub open spec fn is_add_hl(op: u8) -> bool {
    op == 0x09 || op == 0x19 || op == 0x29 || op == 0x39
}

/// An instruction of this processor, the processor just past the opcode.
pub open spec fn processor_step(s: Cpu, m: MemoryModel, op: u8) -> Step {
    if op == 0x27 {
        only(processor_daa(s), m, timing(op, false))
    } else if is_add_hl(op) {
        let (w, f) = wide_add_word_op(s.hl(), rp(s, op as int / 16), s.flags());
        only(set_rp(s.with_flags(f), 2, w), m, timing(op, false))
    } else {
        isa::step(s, m, op)
    }
}

/// One fetch-and-execute cycle of this processor, with the delayed enabling
/// of interrupts that EI asks for.
pub open spec fn processor_update_step(s: Cpu, m: MemoryModel) -> Step {
    let st = processor_step(s.with_pc(s.pc.wrapping_add(1)), m, m.read(s.pc));
    Step { cpu: isa::interrupt_delay(st.cpu), ..st }
}

/// The inputs on which an instruction of this processor is defined: those of
/// [`Cpu`], less those where a counter would step past its range: a branch
/// not taken at the end of the address space, INC SP at 0xffff, DEC SP at 0,
/// and DAA after a subtraction of less than its correction.
pub open spec fn processor_step_defined(s: Cpu, m: MemoryModel, op: u8) -> bool {
    &&& isa::step_defined(s, m, op)
    &&& (op == 0x20 || op == 0x28 || op == 0x30 || op == 0x38) && !cond(s, op as int / 8 - 4) ==> s.pc < 0xffff
    &&& (op == 0xc2 || op == 0xc4 || op == 0xca || op == 0xcc || op == 0xd2 || op == 0xd4 || op == 0xda || op == 0xdc)
        && !cond(s, (op as int / 8) % 8) ==> s.pc < 0xfffe
    &&& op == 0x33 ==> s.sp < 0xffff
    &&& op == 0x3b ==> s.sp > 0
    &&& op == 0x27 && s.subtract ==> s.a >= daa_correction(s)
}

/// A sum of two words in 32 bits: its low 16 bits, its bytes, its carry out
/// of bit 15 and the low 12 bits of its addends.
proof fn lemma_wide_sum(x: u16, y: u16, r: u32)
    by (bit_vector)
    requires
        r == (x as u32) + (y as u32),
    ensures
        (x & 0xfffu16) == x % 0x1000u16,
        (y & 0xfffu16) == y % 0x1000u16,
        ((r & 0x10000u32) != 0u32) == (r > 0xffffu32),
        r < 0x20000u32,
{
}

/// The low byte of a 32-bit word, by truncation.
proof fn lemma_low_byte(r: u32)
    by (bit_vector)
    ensures
        (r as u8) == ((r % 256u32) as u8),
{
}

/// The second byte of a 32-bit word, by shift and truncation.
proof fn lemma_second_byte(r: u32)
    by (bit_vector)
    ensures
        (r >> 8u32) == r / 256u32,
{
}

/// A truncation to a byte keeps the remainder modulo 256.
proof fn lemma_byte_truncation(q: u32)
    by (bit_vector)
    ensures
        (q as u8) == ((q % 256u32) as u8),
{
}

/// The corrections of DAA as 16-bit masks.
proof fn lemma_correction_bits()
    by (bit_vector)
    ensures
        0u16 | 6u16 == 6u16,
        6u16 | 6u16 == 6u16,
        0x60u16 | 6u16 == 0x66u16,
        0u16 | 0x60u16 == 0x60u16,
        6u16 | 0x60u16 == 0x66u16,
        0x60u16 | 0x60u16 == 0x60u16,
        0x66u16 | 0x60u16 == 0x66u16,
        (0u16 << 2u16) & 0x100u16 == 0u16,
        (6u16 << 2u16) & 0x100u16 == 0u16,
        (0x60u16 << 2u16) & 0x100u16 == 0x100u16,
        (0x66u16 << 2u16) & 0x100u16 == 0x100u16,
{
}

impl CPU {
    /// The registers and the interrupt state, as a [`Cpu`]; the memory is
    /// the field `memory`.
    pub open spec fn registers(self) -> Cpu {
        Cpu {
            a: self.a, b: self.b, c: self.c, d: self.d, e: self.e, h: self.h, l: self.l,
            sp: self.sp, pc: self.pc,
            zero: self.zero, subtract: self.subtract, half_carry: self.half_carry, carry: self.carry,
            halted: self.halted, interrupts_enabled: self.interrupts_enabled,
            pending_interrupt_enable: self.pending_interrupt_enable, one_instruction_passed: self.one_instruction_passed,
        }
    }

    /// The registers as a [`Cpu`].
    fn to_cpu(&self) -> (r: Cpu)
        ensures
            r == self.registers(),
    {
        Cpu {
            a: self.a, b: self.b, c: self.c, d: self.d, e: self.e, h: self.h, l: self.l,
            sp: self.sp, pc: self.pc,
            zero: self.zero, subtract: self.subtract, half_carry: self.half_carry, carry: self.carry,
            halted: self.halted, interrupts_enabled: self.interrupts_enabled,
            pending_interrupt_enable: self.pending_interrupt_enable, one_instruction_passed: self.one_instruction_passed,
        }
    }

    /// Takes the registers of `s`.
    fn load(&mut self, s: &Cpu)
        ensures
            final(self).registers() == *s,
            final(self).memory == old(self).memory,
    {
        self.a = s.a;
        self.b = s.b;
        self.c = s.c;
        self.d = s.d;
        self.e = s.e;
        self.h = s.h;
        self.l = s.l;
        self.sp = s.sp;
        self.pc = s.pc;
        self.zero = s.zero;
        self.subtract = s.subtract;
        self.half_carry = s.half_carry;
        self.carry = s.carry;
        self.halted = s.halted;
        self.interrupts_enabled = s.interrupts_enabled;
        self.pending_interrupt_enable = s.pending_interrupt_enable;
        self.one_instruction_passed = s.one_instruction_passed;
    }

    /// Executes CB-prefixed opcode `instruction`, the program counter just
    /// past it; gives its cycles.
    pub fn execute_cb(&mut self, instruction: u8) -> (r: u8)
        requires
            old(self).memory@.structural(),
            isa::cb_accesses_ok(old(self).registers(), old(self).memory@, instruction),
        ensures
            ({
                let st = isa::cb_step(old(self).registers(), old(self).memory@, instruction);
                &&& final(self).registers() == st.cpu
                &&& final(self).memory@ == st.memory
                &&& r == st.cycles
            }),
            final(self).memory@.structural(),
            old(self).memory@.wf() ==> final(self).memory@.wf(),
    {
        let mut cpu = self.to_cpu();
        let (cycles, _events) = cpu.execute_cb(&mut self.memory, instruction);
        self.load(&cpu);
        cycles
    }

    /// DAA.
    fn decimal_adjust(&mut self) -> (r: u8)
        requires
            old(self).memory@.structural(),
            processor_step_defined(old(self).registers(), old(self).memory@, 0x27),
        ensures
            ({
                let st = processor_step(old(self).registers(), old(self).memory@, 0x27);
                &&& final(self).registers() == st.cpu
                &&& final(self).memory@ == st.memory
                &&& r == st.cycles
            }),
            final(self).memory@.structural(),
            old(self).memory@.wf() ==> final(self).memory@.wf(),
    {
        let mut cpu = self.to_cpu();
        proof { lemma_correction_bits(); lemma_byte_ops(); lemma_word_bytes(); }
        let mut correction: u16 = if cpu.carry { 0x60 } else { 0x00 };
        if cpu.half_carry || (!cpu.subtract && ((cpu.a & 0x0f) > 9)) {
            correction |= 0x06;
        }
        if cpu.carry || (!cpu.subtract && (cpu.a > 0x99)) {
            correction |= 0x60;
        }
        assert(correction == daa_correction(old(self).registers()));
        cpu.a = if cpu.subtract {
            (cpu.a as u16 - correction) as u8
        } else {
            (cpu.a as u16 + correction) as u8
        };
        if ((correction << 2) & 0x100) != 0 {
            cpu.carry = true;
        }
        cpu.zero = cpu.a == 0;
        cpu.half_carry = false;
        self.load(&cpu);
        isa::instruction_timing(0x27, false)
    }

    /// ADD HL, BC (`instruction` 0x09), ADD HL, DE (0x19), ADD HL, HL (0x29)
    /// and ADD HL, SP (0x39).
    #[verifier::rlimit(50)]
    fn add_hl(&mut self, instruction: u8) -> (r: u8)
        requires
            old(self).memory@.structural(),
            is_add_hl(instruction),
        ensures
            ({
                let st = processor_step(old(self).registers(), old(self).memory@, instruction);
                &&& final(self).registers() == st.cpu
                &&& final(self).memory@ == st.memory
                &&& r == st.cycles
            }),
            final(self).memory@.structural(),
            old(self).memory@.wf() ==> final(self).memory@.wf(),
    {
        broadcast use crate::bit_logic::lemma_word_of_bytes;
        let value_word: u16 = crate::bit_logic::compose_bytes(self.l, self.h);
        let addend_word: u16 = if instruction == 0x09 {
            crate::bit_logic::compose_bytes(self.c, self.b)
        } else if instruction == 0x19 {
            crate::bit_logic::compose_bytes(self.e, self.d)
        } else if instruction == 0x29 {
            value_word
        } else {
            self.sp
        };
        let result: u32 = (value_word as u32) + (addend_word as u32);
        proof {
            lemma_wide_sum(value_word, addend_word, result);
            lemma_low_byte(result);
            lemma_second_byte(result);
            lemma_byte_truncation(result >> 8u32);
            let r: int = result as int;
            let w: int = r % 0x10000;
            assert(w % 256 == r % 256) by (nonlinear_arith)
                requires w == r % 0x10000, 0 <= r;
            assert(w / 256 == (r / 256) % 256) by (nonlinear_arith)
                requires w == r % 0x10000, 0 <= r;
        }
        self.subtract = false;
        self.half_carry = (value_word & 0xfff) + (addend_word & 0xfff) > 0xfff;
        self.carry = (result & 0x10000) != 0;
        self.l = result as u8;
        self.h = (result >> 8) as u8;
        isa::instruction_timing(instruction, false)
    }

    /// Executes opcode `instruction`, the program counter just past it; gives
    /// its cycles.
    pub fn execute(&mut self, instruction: u8) -> (r: u8)
        requires
            old(self).memory@.structural(),
            isa::accesses_ok(old(self).registers(), old(self).memory@, instruction),
            processor_step_defined(old(self).registers(), old(self).memory@, instruction),
        ensures
            ({
                let st = processor_step(old(self).registers(), old(self).memory@, instruction);
                &&& final(self).registers() == st.cpu
                &&& final(self).memory@ == st.memory
                &&& r == st.cycles
            }),
            final(self).memory@.structural(),
            old(self).memory@.wf() ==> final(self).memory@.wf(),
    {
        if instruction == 0x27 {
            return self.decimal_adjust();
        }
        if instruction == 0x09 || instruction == 0x19 || instruction == 0x29 || instruction == 0x39 {
            return self.add_hl(instruction);
        }
        let mut cpu = self.to_cpu();
        let (cycles, _events) = cpu.execute(&mut self.memory, instruction);
        self.load(&cpu);
        cycles
    }

    /// Fetches and executes one instruction, then advances the delayed
    /// enabling of interrupts; gives its cycles.
    #[verifier::rlimit(50)]
    pub fn update(&mut self) -> (r: u8)
        requires
            old(self).memory@.structural(),
            old(self).memory@.readable(old(self).pc),
            isa::accesses_ok(old(self).registers().with_pc(old(self).pc.wrapping_add(1)), old(self).memory@, old(self).memory@.read(old(self).pc)),
            processor_step_defined(
                old(self).registers().with_pc(old(self).pc.wrapping_add(1)),
                old(self).memory@,
                old(self).memory@.read(old(self).pc),
            ),
        ensures
            ({
                let st = processor_update_step(old(self).registers(), old(self).memory@);
                &&& final(self).registers() == st.cpu
                &&& final(self).memory@ == st.memory
                &&& r == st.cycles
            }),
            final(self).memory@.structural(),
            old(self).memory@.wf() ==> final(self).memory@.wf(),
    {
        let ghost st = processor_step(
            old(self).registers().with_pc(old(self).pc.wrapping_add(1)),
            old(self).memory@,
            old(self).memory@.read(old(self).pc),
        );
        let instruction: u8 = self.memory.read_from_memory(self.pc);
        self.pc = self.pc.wrapping_add(1);
        let cycles: u8 = self.execute(instruction);
        assert(self.registers() == st.cpu && self.memory@ == st.memory && cycles == st.cycles);
        if self.pending_interrupt_enable {
            if self.one_instruction_passed {
                if !self.interrupts_enabled {
                    self.interrupts_enabled = true;
                }
                self.pending_interrupt_enable = false;
                self.one_instruction_passed = false;
            } else {
                self.one_instruction_passed = true;
            }
        }
        cycles
    }

    /// The processor as the boot ROM leaves it, running on `memory`.
    pub fn new(memory: Memory) -> (r: CPU)
        ensures
            r.a == 0x01 && r.b == 0x00 && r.c == 0x13 && r.d == 0x00,
            r.e == 0xd8 && r.h == 0x01 && r.l == 0x4d,
            r.sp == 0xfffe && r.pc == 0x0100,
            r.zero && !r.subtract && r.half_carry && r.carry,
            !r.halted && !r.interrupts_enabled && !r.pending_interrupt_enable && !r.one_instruction_passed,
            r.memory == memory,
    {
        CPU {
            a: 0x01,
            b: 0x00,
            c: 0x13,
            d: 0x00,
            e: 0xd8,
            h: 0x01,
            l: 0x4d,
            sp: 0xfffe,
            pc: 0x0100,
            zero: true,
            subtract: false,
            half_carry: true,
            carry: true,
            halted: false,
            interrupts_enabled: false,
            pending_interrupt_enable: false,
            one_instruction_passed: false,
            memory: memory,
        }
    }

    /// Whether the processor is halted, waiting for an interrupt.
    pub fn is_halted(&self) -> (r: bool)
        ensures
            r == self.halted,
    {
        self.halted
    }
}

/// HALT halts the processor and changes nothing else but the program
/// counter already past it.
pub proof fn lemma_halt(s: Cpu, m: MemoryModel)
    ensures
        processor_step(s, m, 0x76).cpu == (Cpu { halted: true, ..s }),
        processor_step(s, m, 0x76).memory == m,
{
}

} // verus!
