use rpgbe::memory::Memory;
use rpgbe::processor::CPU;

fn processor(program: &[u8]) -> CPU {
    let mut memory = Memory::new();
    let mut cartridge = vec![0u8; 0x8000];
    cartridge[0x100..0x100 + program.len()].copy_from_slice(program);
    memory.load_cartridge(cartridge);
    CPU::new(memory)
}

#[test]
fn processor_runs_loads_and_arithmetic() {
    // LD A,0x45; ADD A,0x38; DAA
    let mut cpu = processor(&[0x3e, 0x45, 0xc6, 0x38, 0x27]);
    assert_eq!(cpu.update(), 2);
    assert_eq!(cpu.update(), 2);
    assert_eq!(cpu.a, 0x7d);
    assert_eq!(cpu.update(), 1);
    assert_eq!(cpu.a, 0x83);
    assert!(!cpu.carry && !cpu.half_carry);
}

#[test]
fn processor_decimal_adjust_after_subtraction() {
    // LD A,0x10; SUB 0x01; DAA
    let mut cpu = processor(&[0x3e, 0x10, 0xd6, 0x01, 0x27]);
    cpu.update();
    cpu.update();
    assert_eq!(cpu.a, 0x0f);
    assert!(cpu.subtract && cpu.half_carry);
    cpu.update();
    assert_eq!(cpu.a, 0x09);
}

#[test]
fn processor_relative_jump_offset_is_signed() {
    // JR -2
    let mut cpu = processor(&[0x18, 0xfe]);
    assert_eq!(cpu.update(), 3);
    assert_eq!(cpu.pc, 0x0100);
}

#[test]
fn processor_conditional_jump_not_taken() {
    // XOR A; JR NZ,5
    let mut cpu = processor(&[0xaf, 0x20, 0x05]);
    cpu.update();
    assert_eq!(cpu.update(), 2);
    assert_eq!(cpu.pc, 0x0103);
}

#[test]
fn processor_cb_prefix_runs_the_next_byte() {
    // RLC B
    let mut cpu = processor(&[0xcb, 0x00]);
    cpu.b = 0x81;
    assert_eq!(cpu.update(), 2);
    assert_eq!(cpu.b, 0x03);
    assert!(cpu.carry);
    assert_eq!(cpu.pc, 0x0102);
}

#[test]
fn processor_cb_fa_sets_bit_seven_of_d() {
    let mut cpu = processor(&[]);
    cpu.d = 0x00;
    cpu.e = 0x01;
    assert_eq!(cpu.execute_cb(0xfa), 2);
    assert_eq!(cpu.d, 0x80);
    assert_eq!(cpu.e, 0x01);
}

#[test]
fn processor_reti_enables_interrupts() {
    // CALL 0x0200; at 0x0200: RETI
    let mut cpu = processor(&[0xcd, 0x00, 0x02]);
    cpu.memory.rom[0x200] = 0xd9;
    cpu.update();
    assert_eq!(cpu.pc, 0x0200);
    assert_eq!(cpu.update(), 4);
    assert_eq!(cpu.pc, 0x0103);
    assert_eq!(cpu.sp, 0xfffe);
    assert!(cpu.interrupts_enabled);
}

#[test]
fn processor_stack_offset_is_signed() {
    // ADD SP,-1; LD HL,SP+2
    let mut cpu = processor(&[0xe8, 0xff, 0xf8, 0x02]);
    assert_eq!(cpu.update(), 4);
    assert_eq!(cpu.sp, 0xfffd);
    assert!(cpu.half_carry && cpu.carry && !cpu.zero && !cpu.subtract);
    assert_eq!(cpu.update(), 3);
    assert_eq!((cpu.h, cpu.l), (0xff, 0xff));
    assert!(!cpu.half_carry && !cpu.carry);
}

#[test]
fn processor_add_hl_half_carry_from_bit_eleven() {
    // LD HL,0x0800; ADD HL,HL; LD HL,0x0400; ADD HL,HL
    let mut cpu = processor(&[0x21, 0x00, 0x08, 0x29, 0x21, 0x00, 0x04, 0x29]);
    cpu.update();
    assert_eq!(cpu.update(), 2);
    assert_eq!((cpu.h, cpu.l), (0x10, 0x00));
    assert!(cpu.half_carry && !cpu.carry && !cpu.subtract);
    cpu.update();
    cpu.update();
    assert_eq!((cpu.h, cpu.l), (0x08, 0x00));
    assert!(!cpu.half_carry);
}

#[test]
fn processor_ei_takes_effect_after_the_next_instruction() {
    // EI; NOP; NOP
    let mut cpu = processor(&[0xfb, 0x00, 0x00]);
    cpu.update();
    assert!(cpu.pending_interrupt_enable && !cpu.interrupts_enabled);
    cpu.update();
    assert!(!cpu.pending_interrupt_enable && cpu.interrupts_enabled);
}
