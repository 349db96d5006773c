use rpgbe::cpu::Cpu;
use rpgbe::memory::Memory;

fn with_program(program: &[u8]) -> (Cpu, Memory) {
    let mut memory = Memory::new();
    let mut cartridge = vec![0u8; 0x8000];
    cartridge[0x100..0x100 + program.len()].copy_from_slice(program);
    memory.load_cartridge(cartridge);
    (Cpu::new(), memory)
}

fn run(cpu: &mut Cpu, memory: &mut Memory, steps: usize) -> u32 {
    let mut cycles: u32 = 0;
    for _ in 0..steps {
        let (taken, _events) = cpu.update(memory);
        cycles += taken as u32;
    }
    cycles
}

#[test]
fn new_cpu_matches_boot_state() {
    let cpu = Cpu::new();
    assert_eq!((cpu.a, cpu.b, cpu.c, cpu.d, cpu.e, cpu.h, cpu.l), (0x01, 0x00, 0x13, 0x00, 0xd8, 0x01, 0x4d));
    assert_eq!(cpu.sp, 0xfffe);
    assert_eq!(cpu.pc, 0x0100);
    assert_eq!(cpu.get_f(), 0xb0);
    assert!(!cpu.halted);
}

#[test]
fn flags_byte_round_trip() {
    let mut cpu = Cpu::new();
    cpu.set_f(0x5f);
    assert_eq!(cpu.get_f(), 0x50);
    assert!(!cpu.zero && cpu.subtract && !cpu.half_carry && cpu.carry);
}

#[test]
fn add_byte_sets_half_carry_and_carry() {
    let mut cpu = Cpu::new();
    assert_eq!(cpu.add_byte(0x0f, 0x01), 0x10);
    assert!(!cpu.zero && !cpu.subtract && cpu.half_carry && !cpu.carry);
    assert_eq!(cpu.add_byte(0xf0, 0x10), 0x00);
    assert!(cpu.zero && !cpu.half_carry && cpu.carry);
}

#[test]
fn adc_and_sbc_use_the_carry() {
    let mut cpu = Cpu::new();
    cpu.carry = true;
    assert_eq!(cpu.adc_byte(0x0e, 0x01), 0x10);
    assert!(cpu.half_carry && !cpu.carry);
    cpu.carry = true;
    assert_eq!(cpu.sbc_byte(0x10, 0x0f), 0x00);
    assert!(cpu.zero && cpu.subtract && cpu.half_carry && !cpu.carry);
}

#[test]
fn sub_and_cp_flags() {
    let mut cpu = Cpu::new();
    assert_eq!(cpu.sub_byte(0x10, 0x20), 0xf0);
    assert!(!cpu.zero && cpu.subtract && !cpu.half_carry && cpu.carry);
    cpu.cp_byte(0x42, 0x42);
    assert!(cpu.zero && cpu.subtract && !cpu.carry);
}

#[test]
fn logic_operations_flags() {
    let mut cpu = Cpu::new();
    assert_eq!(cpu.and_byte(0xf0, 0x0f), 0x00);
    assert!(cpu.zero && cpu.half_carry && !cpu.carry);
    assert_eq!(cpu.or_byte(0xf0, 0x0f), 0xff);
    assert!(!cpu.zero && !cpu.half_carry);
    assert_eq!(cpu.xor_byte(0xaa, 0xaa), 0x00);
    assert!(cpu.zero);
}

#[test]
fn inc_and_dec_byte_flags() {
    let mut cpu = Cpu::new();
    assert_eq!(cpu.inc_byte(0x0f), 0x10);
    assert!(cpu.half_carry && !cpu.subtract);
    assert_eq!(cpu.inc_byte(0xff), 0x00);
    assert!(cpu.zero);
    assert_eq!(cpu.dec_byte(0x10), 0x0f);
    assert!(cpu.half_carry && cpu.subtract);
    assert_eq!(cpu.dec_byte(0x01), 0x00);
    assert!(cpu.zero);
}

#[test]
fn add_word_flags() {
    let mut cpu = Cpu::new();
    assert_eq!(cpu.add_word(0xff, 0x07, 0x01, 0x00), (0x00, 0x08));
    assert!(cpu.half_carry && !cpu.carry && !cpu.subtract);
    assert_eq!(cpu.add_word(0x00, 0xff, 0x00, 0x01), (0x00, 0x00));
    assert!(cpu.carry);
}

#[test]
fn rotations_and_shifts() {
    let mut cpu = Cpu::new();
    assert_eq!(cpu.rlc(0x85), 0x0b);
    assert!(cpu.carry);
    assert_eq!(cpu.rrc(0x0b), 0x85);
    assert!(cpu.carry);
    cpu.carry = false;
    assert_eq!(cpu.rl(0x80), 0x00);
    assert!(cpu.zero && cpu.carry);
    assert_eq!(cpu.rr(0x00), 0x80);
    assert!(!cpu.carry);
    assert_eq!(cpu.sla(0xc1), 0x82);
    assert!(cpu.carry);
    assert_eq!(cpu.sra(0x81), 0xc0);
    assert!(cpu.carry);
    assert_eq!(cpu.srl(0x81), 0x40);
    assert!(cpu.carry);
    assert_eq!(cpu.swap(0xab), 0xba);
    assert!(!cpu.carry);
}

#[test]
fn rotate_left_then_right_restores_every_byte() {
    let mut cpu = Cpu::new();
    for v in 0..=255u8 {
        let left = cpu.rlc(v);
        assert_eq!(cpu.rrc(left), v);
        let swapped = cpu.swap(v);
        assert_eq!(cpu.swap(swapped), v);
    }
}

#[test]
fn bit_set_and_res() {
    let mut cpu = Cpu::new();
    cpu.bit(3, 0x08);
    assert!(!cpu.zero && cpu.half_carry && !cpu.subtract);
    cpu.bit(2, 0x08);
    assert!(cpu.zero);
    let mut reg: u8 = 0;
    Cpu::set(5, &mut reg);
    assert_eq!(reg, 0x20);
    Cpu::res(5, &mut reg);
    assert_eq!(reg, 0x00);
}

#[test]
fn word_increment_and_decrement_wrap() {
    let (mut lower, mut upper) = (0xffu8, 0xffu8);
    Cpu::inc_word(&mut lower, &mut upper);
    assert_eq!((lower, upper), (0x00, 0x00));
    Cpu::dec_word(&mut lower, &mut upper);
    assert_eq!((lower, upper), (0xff, 0xff));
    let (mut lower, mut upper) = (0xffu8, 0x12u8);
    Cpu::inc_word(&mut lower, &mut upper);
    assert_eq!((lower, upper), (0x00, 0x13));
}

#[test]
fn push_then_pop_returns_value() {
    let (mut cpu, mut memory) = with_program(&[]);
    cpu.push(&mut memory, 0x42);
    assert_eq!(cpu.sp, 0xfffd);
    assert_eq!(cpu.pop(&memory), 0x42);
    assert_eq!(cpu.sp, 0xfffe);
}

#[test]
fn load_and_arithmetic_program() {
    // LD A,0x3c; LD B,0x12; ADD A,B; SUB 0x4e
    let (mut cpu, mut memory) = with_program(&[0x3e, 0x3c, 0x06, 0x12, 0x80, 0xd6, 0x4e]);
    let cycles = run(&mut cpu, &mut memory, 3);
    assert_eq!(cpu.a, 0x4e);
    assert_eq!(cycles, 5);
    run(&mut cpu, &mut memory, 1);
    assert_eq!(cpu.a, 0x00);
    assert!(cpu.zero && cpu.subtract);
    assert_eq!(cpu.pc, 0x107);
}

#[test]
fn call_then_return() {
    // CALL 0x0200; at 0x0200: RET
    let (mut cpu, mut memory) = with_program(&[0xcd, 0x00, 0x02]);
    memory.rom[0x200] = 0xc9;
    let cycles = run(&mut cpu, &mut memory, 1);
    assert_eq!(cycles, 6);
    assert_eq!(cpu.pc, 0x0200);
    assert_eq!(cpu.sp, 0xfffc);
    assert_eq!(memory.read_from_memory(0xfffd), 0x01);
    assert_eq!(memory.read_from_memory(0xfffc), 0x03);
    let cycles = run(&mut cpu, &mut memory, 1);
    assert_eq!(cycles, 4);
    assert_eq!(cpu.pc, 0x0103);
    assert_eq!(cpu.sp, 0xfffe);
}

#[test]
fn push_bc_pop_de() {
    // LD BC,0xbeef; PUSH BC; POP DE
    let (mut cpu, mut memory) = with_program(&[0x01, 0xef, 0xbe, 0xc5, 0xd1]);
    run(&mut cpu, &mut memory, 3);
    assert_eq!((cpu.d, cpu.e), (0xbe, 0xef));
    assert_eq!(cpu.sp, 0xfffe);
}

#[test]
fn cb_prefixed_rotation() {
    // LD A,0x85; RLC A; SET 4,A; BIT 4,A
    let (mut cpu, mut memory) = with_program(&[0x3e, 0x85, 0xcb, 0x07, 0xcb, 0xe7, 0xcb, 0x67]);
    run(&mut cpu, &mut memory, 2);
    assert_eq!(cpu.a, 0x0b);
    assert!(cpu.carry);
    run(&mut cpu, &mut memory, 2);
    assert_eq!(cpu.a, 0x1b);
    assert!(!cpu.zero);
}

#[test]
fn relative_jumps_and_conditions() {
    // JR +2; (skipped: LD A,1); XOR A; JR NZ,-2 (not taken); JR Z,+0
    let (mut cpu, mut memory) = with_program(&[0x18, 0x02, 0x3e, 0x01, 0xaf, 0x20, 0xfe, 0x28, 0x00]);
    let cycles = run(&mut cpu, &mut memory, 1);
    assert_eq!(cpu.pc, 0x104);
    assert_eq!(cycles, 3);
    run(&mut cpu, &mut memory, 1);
    assert_eq!(cpu.a, 0);
    assert!(cpu.zero);
    let cycles = run(&mut cpu, &mut memory, 1);
    assert_eq!(cpu.pc, 0x107);
    assert_eq!(cycles, 2);
    let cycles = run(&mut cpu, &mut memory, 1);
    assert_eq!(cpu.pc, 0x109);
    assert_eq!(cycles, 3);
}

#[test]
fn memory_loads_through_hl() {
    // LD HL,0xc000; LD (HL+),A; LD (HL),0x99; LD A,(HL); LD A,(HL-)
    let (mut cpu, mut memory) = with_program(&[0x21, 0x00, 0xc0, 0x22, 0x36, 0x99, 0x7e, 0x3a]);
    run(&mut cpu, &mut memory, 2);
    assert_eq!(memory.read_from_memory(0xc000), 0x01);
    assert_eq!((cpu.h, cpu.l), (0xc0, 0x01));
    run(&mut cpu, &mut memory, 2);
    assert_eq!(cpu.a, 0x99);
    run(&mut cpu, &mut memory, 1);
    assert_eq!(cpu.a, 0x99);
    assert_eq!((cpu.h, cpu.l), (0xc0, 0x00));
}

#[test]
fn decimal_adjust_after_addition() {
    // LD A,0x45; ADD A,0x38; DAA
    let (mut cpu, mut memory) = with_program(&[0x3e, 0x45, 0xc6, 0x38, 0x27]);
    run(&mut cpu, &mut memory, 3);
    assert_eq!(cpu.a, 0x83);
    assert!(!cpu.carry);
}

#[test]
fn halt_and_interrupt_enable_delay() {
    // EI; NOP; HALT
    let (mut cpu, mut memory) = with_program(&[0xfb, 0x00, 0x76]);
    run(&mut cpu, &mut memory, 1);
    assert!(!cpu.interrupts_enabled);
    assert!(cpu.pending_interrupt_enable);
    run(&mut cpu, &mut memory, 1);
    assert!(cpu.interrupts_enabled);
    assert!(!cpu.pending_interrupt_enable);
    run(&mut cpu, &mut memory, 1);
    assert!(cpu.halted);
}

#[test]
fn write_to_divider_through_instruction_reports_event() {
    // LD A,0x55; LDH (0x04),A
    let (mut cpu, mut memory) = with_program(&[0x3e, 0x55, 0xe0, 0x04]);
    run(&mut cpu, &mut memory, 1);
    let (cycles, events) = cpu.update(&mut memory);
    assert_eq!(cycles, 3);
    assert_eq!(events, vec![rpgbe::memory::MemoryWriteResult::ResetDividerCounter]);
    assert_eq!(memory.rom[0xff04], 0);
}

#[test]
fn rotate_through_carry_restores_value_and_carry() {
    let mut cpu = Cpu::new();
    for v in [0x00u8, 0x01, 0x80, 0x81, 0x5a, 0xff] {
        for carry in [false, true] {
            cpu.carry = carry;
            let left = cpu.rl(v);
            assert_eq!(cpu.rr(left), v);
            assert_eq!(cpu.carry, carry);
        }
    }
}

#[test]
fn push_af_then_pop_af_restores_a_and_flags() {
    // PUSH AF; XOR A; POP AF
    let (mut cpu, mut memory) = with_program(&[0xf5, 0xaf, 0xf1]);
    cpu.a = 0x5a;
    cpu.set_f(0x50);
    run(&mut cpu, &mut memory, 2);
    assert_eq!(cpu.a, 0);
    run(&mut cpu, &mut memory, 1);
    assert_eq!(cpu.a, 0x5a);
    assert_eq!(cpu.get_f(), 0x50);
    assert_eq!(cpu.sp, 0xfffe);
}

#[test]
fn relative_jumps_run_without_a_cartridge() {
    let mut cpu = Cpu::new();
    let mut memory = Memory::new();
    let (cycles, events) = cpu.execute(&mut memory, 0x20);
    assert_eq!((cycles, events.len()), (2, 0));
    assert_eq!(cpu.pc, 0x0101);
    let mut cpu = Cpu::new();
    let mut memory = Memory::new();
    let (cycles, events) = cpu.execute(&mut memory, 0x28);
    assert_eq!((cycles, events.len()), (3, 0));
    assert_eq!(cpu.pc, 0x0101);
}

#[test]
fn set_7_d_runs_without_a_cartridge() {
    let mut cpu = Cpu::new();
    let mut memory = Memory::new();
    let (cycles, events) = cpu.execute_cb(&mut memory, 0xfa);
    assert_eq!(cycles, 2);
    assert!(events.is_empty());
    assert_eq!((cpu.d, cpu.e), (0x80, 0xd8));
    assert!(cpu.zero && cpu.half_carry && cpu.carry && !cpu.subtract);
}
