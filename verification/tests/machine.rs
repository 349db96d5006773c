use rpgbe::gameboy::Gameboy;
use rpgbe::processor::CPU;
use rpgbe::memory::Memory;

fn machine(program: &[u8]) -> Gameboy {
    let mut gameboy = Gameboy::new();
    let mut cartridge = vec![0u8; 0x8000];
    cartridge[0x100..0x100 + program.len()].copy_from_slice(program);
    gameboy.memory.load_cartridge(cartridge);
    gameboy
}

#[test]
fn new_machine_starts_after_boot() {
    let gameboy = Gameboy::new();
    assert_eq!(gameboy.cpu.pc, 0x100);
    assert_eq!(gameboy.cpu.sp, 0xfffe);
    assert_eq!(gameboy.gpu.scanline_counter, 456);
    assert_eq!(gameboy.timer.divider_counter, 0);
    assert_eq!(gameboy.spu.audio_fill_timer, 95);
}

#[test]
fn nop_takes_four_cycles() {
    let mut gameboy = machine(&[0x00, 0x00]);
    assert_eq!(gameboy.update(), 4);
    assert_eq!(gameboy.cpu.pc, 0x101);
    assert_eq!(gameboy.timer.divider_counter, 4);
    assert_eq!(gameboy.gpu.scanline_counter, 452);
}

#[test]
fn halted_machine_idles_four_cycles() {
    let mut gameboy = machine(&[0x76]);
    assert_eq!(gameboy.update(), 4);
    assert!(gameboy.cpu.halted);
    assert_eq!(gameboy.update(), 4);
    assert_eq!(gameboy.cpu.pc, 0x101);
}

#[test]
fn writing_tac_reloads_the_timer() {
    // LD A,0x05; LDH (0x07),A
    let mut gameboy = machine(&[0x3e, 0x05, 0xe0, 0x07]);
    gameboy.update();
    let cycles = gameboy.update();
    assert_eq!(cycles, 12);
    assert_eq!(gameboy.read_from_address(0xff07), 0x05);
    assert_eq!(gameboy.timer.timer_counter, 16 - 12);
}

#[test]
fn writing_the_divider_resets_its_counter() {
    let mut gameboy = machine(&[]);
    gameboy.timer.divider_counter = 100;
    gameboy.write_to_address(0xff04, 0x12);
    assert_eq!(gameboy.timer.divider_counter, 0);
    assert_eq!(gameboy.read_from_address(0xff04), 0);
}

#[test]
fn triggering_a_channel_through_memory() {
    let mut gameboy = machine(&[]);
    gameboy.write_to_address(0xff11, 0x3f);
    gameboy.write_to_address(0xff14, 0x80);
    assert!(gameboy.spu.sound_channel_1.enabled);
    assert_eq!(gameboy.spu.sound_channel_1.length, 1);
}

#[test]
fn interrupt_is_taken_after_an_instruction() {
    let mut gameboy = machine(&[0x00]);
    gameboy.cpu.interrupts_enabled = true;
    gameboy.write_to_address(0xffff, 0x01);
    gameboy.write_to_address(0xff0f, 0x01);
    assert_eq!(gameboy.update(), 24);
    assert_eq!(gameboy.cpu.pc, 0x40);
    assert!(!gameboy.cpu.interrupts_enabled);
    assert_eq!(gameboy.read_from_address(0xff0f) & 0x01, 0);
    assert_eq!(gameboy.read_from_address(0xfffc), 0x01);
    assert_eq!(gameboy.read_from_address(0xfffd), 0x01);
}

#[test]
fn keys_through_the_machine() {
    let mut gameboy = machine(&[]);
    gameboy.key_pressed(0);
    assert_eq!(gameboy.memory.gamepad_state, 0xfe);
    assert_eq!(gameboy.read_from_address(0xff0f) & 0x10, 0x10);
    gameboy.key_released(0);
    assert_eq!(gameboy.memory.gamepad_state, 0xff);
}

#[test]
fn raw_rom_access_bypasses_the_memory_map() {
    let mut gameboy = machine(&[]);
    gameboy.raw_write_to_rom(0xff04, 0x42);
    assert_eq!(gameboy.raw_read_from_rom(0xff04), 0x42);
    assert_eq!(gameboy.read_from_address(0xff04), 0x42);
}

#[test]
fn audio_is_sampled_while_running() {
    let mut gameboy = machine(&[]);
    let mut samples = 0;
    let mut cycles: u32 = 0;
    for _ in 0..48 {
        let (taken, taken_samples) = gameboy.update_with_audio();
        cycles += taken as u32;
        samples += taken_samples.len();
    }
    assert_eq!(cycles, 192);
    assert_eq!(samples, 2);
}

#[test]
fn store_of_sp_at_the_last_address_is_refused() {
    let mut gameboy = machine(&[0x08, 0xff, 0xff]);
    assert!(gameboy.try_update_with_audio().is_none());
    let mut gameboy = machine(&[0x08, 0x00, 0xc0]);
    assert!(gameboy.try_update_with_audio().is_some());
    assert_eq!(gameboy.read_from_address(0xc000), 0xfe);
    assert_eq!(gameboy.read_from_address(0xc001), 0xff);
}

#[test]
fn machine_runs_without_a_cartridge() {
    // no cartridge: the program in work RAM never reads 0x4000..=0x7fff
    let mut gameboy = Gameboy::new();
    gameboy.cpu.pc = 0xc000;
    gameboy.write_to_address(0xc000, 0x3e); // LD A,0x42
    gameboy.write_to_address(0xc001, 0x42);
    let (cycles, _) = gameboy.try_update_with_audio().unwrap();
    assert_eq!(cycles, 8);
    assert_eq!(gameboy.cpu.a, 0x42);
    assert_eq!(gameboy.update(), 4);
}

#[test]
fn reading_past_a_short_cartridge_is_refused() {
    // LD A,(0x4000) with no cartridge loaded
    let mut gameboy = Gameboy::new();
    gameboy.cpu.pc = 0xc000;
    gameboy.write_to_address(0xc000, 0xfa);
    gameboy.write_to_address(0xc001, 0x00);
    gameboy.write_to_address(0xc002, 0x40);
    assert!(gameboy.try_update_with_audio().is_none());
}

#[test]
fn small_cartridge_with_a_bank_controller_runs() {
    let mut gameboy = Gameboy::new();
    let mut cartridge = vec![0u8; 0x8000];
    cartridge[0x147] = 1;
    cartridge[0x100] = 0xfa; // LD A,(0x4000)
    cartridge[0x101] = 0x00;
    cartridge[0x102] = 0x40;
    cartridge[0x4000] = 0x99;
    gameboy.memory.load_cartridge(cartridge);
    assert!(gameboy.memory.mbc1);
    let (cycles, _) = gameboy.try_update_with_audio().unwrap();
    assert_eq!(cycles, 16);
    assert_eq!(gameboy.cpu.a, 0x99);
}

#[test]
fn standalone_processor_owns_its_memory() {
    let cpu = CPU::new(Memory::new());
    assert!(!cpu.is_halted());
    assert_eq!(cpu.pc, 0x100);
    assert_eq!(cpu.sp, 0xfffe);
    assert_eq!(cpu.memory.rom[0xff40], 0x91);
}
