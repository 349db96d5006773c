use rpgbe::memory::{Memory, MemoryWriteResult, TAC};

fn loaded_memory() -> Memory {
    let mut memory = Memory::new();
    let mut cartridge = vec![0u8; 0x8000];
    cartridge[0x0000] = 0x11;
    cartridge[0x4000] = 0x22;
    memory.load_cartridge(cartridge);
    memory
}

#[test]
fn new_memory_has_boot_register_values() {
    let memory = Memory::new();
    assert_eq!(memory.rom.len(), 0x10000);
    assert_eq!(memory.rom[0xff40], 0x91);
    assert_eq!(memory.rom[0xff47], 0xfc);
    assert_eq!(memory.rom[0xff26], 0xf1);
    assert_eq!(memory.rom[0xc000], 0x00);
    assert_eq!(memory.gamepad_state, 0xff);
    assert_eq!(memory.current_rom_bank, 1);
}

#[test]
fn load_cartridge_maps_first_32k() {
    let memory = loaded_memory();
    assert_eq!(memory.rom[0x0000], 0x11);
    assert_eq!(memory.rom[0x4000], 0x22);
    assert_eq!(memory.read_from_memory(0x4000), 0x22);
    assert!(!memory.mbc1);
    assert!(!memory.mbc2);
}

#[test]
fn load_cartridge_detects_bank_controller() {
    let mut memory = Memory::new();
    let mut cartridge = vec![0u8; 0x10000];
    cartridge[0x147] = 1;
    memory.load_cartridge(cartridge);
    assert!(memory.mbc1);
    assert!(!memory.mbc2);

    let mut memory = Memory::new();
    let mut cartridge = vec![0u8; 0x10000];
    cartridge[0x147] = 5;
    memory.load_cartridge(cartridge);
    assert!(memory.mbc2);
}

#[test]
fn work_ram_reads_back_and_is_echoed() {
    let mut memory = loaded_memory();
    memory.write_to_memory(0xc123, 0x5a);
    assert_eq!(memory.read_from_memory(0xc123), 0x5a);
    assert_eq!(memory.read_from_memory(0xe123), 0x5a);
    memory.write_to_memory(0xe200, 0xa5);
    assert_eq!(memory.read_from_memory(0xc200), 0xa5);
    assert_eq!(memory.read_from_memory(0xe200), 0xa5);
}

#[test]
fn top_of_work_ram_has_no_echo() {
    let mut memory = loaded_memory();
    memory.write_to_memory(0xdf00, 0x42);
    assert_eq!(memory.read_from_memory(0xdf00), 0x42);
    assert_eq!(memory.rom[0xff00], 0x00);
}

#[test]
fn unusable_region_reads_ff_and_ignores_writes() {
    let mut memory = loaded_memory();
    let before = memory.rom.clone();
    let events = memory.write_to_memory(0xfea5, 0x12);
    assert_eq!(memory.rom, before);
    assert_eq!(memory.read_from_memory(0xfea5), 0xff);
    assert_eq!(events, vec![MemoryWriteResult::Nothing]);
}

#[test]
fn cartridge_writes_do_not_change_rom() {
    let mut memory = loaded_memory();
    let before = memory.rom.clone();
    memory.write_to_memory(0x2000, 0x05);
    assert_eq!(memory.rom, before);
    assert_eq!(memory.current_rom_bank, 1);
}

#[test]
fn mbc1_bank_switching_never_selects_bank_zero() {
    let mut memory = Memory::new();
    let mut cartridge = vec![0u8; 0x20000];
    cartridge[0x147] = 1;
    cartridge[2 * 0x4000] = 0x77;
    memory.load_cartridge(cartridge);
    memory.write_to_memory(0x2000, 0x02);
    assert_eq!(memory.current_rom_bank, 2);
    assert_eq!(memory.read_from_memory(0x4000), 0x77);
    memory.write_to_memory(0x2000, 0x00);
    assert_eq!(memory.current_rom_bank, 1);
}

#[test]
fn mbc1_ram_enable_and_ram_bank() {
    let mut memory = Memory::new();
    let mut cartridge = vec![0u8; 0x10000];
    cartridge[0x147] = 3;
    memory.load_cartridge(cartridge);
    memory.write_to_memory(0xa000, 0x99);
    assert_eq!(memory.read_from_memory(0xa000), 0x00);
    memory.write_to_memory(0x0000, 0x0a);
    assert!(memory.enable_ram);
    memory.write_to_memory(0xa000, 0x99);
    assert_eq!(memory.read_from_memory(0xa000), 0x99);
    memory.write_to_memory(0x0000, 0x00);
    assert!(!memory.enable_ram);
}

#[test]
fn divider_and_scanline_writes_reset_to_zero() {
    let mut memory = loaded_memory();
    memory.rom[0xff04] = 0x33;
    let events = memory.write_to_memory(0xff04, 0x99);
    assert_eq!(memory.rom[0xff04], 0);
    assert_eq!(events, vec![MemoryWriteResult::ResetDividerCounter]);
    memory.rom[0xff44] = 0x33;
    let events = memory.write_to_memory(0xff44, 0x99);
    assert_eq!(memory.rom[0xff44], 0);
    assert_eq!(events, vec![MemoryWriteResult::Nothing]);
}

#[test]
fn tac_write_reports_frequency_change() {
    let mut memory = loaded_memory();
    let events = memory.write_to_memory(TAC, 0x05);
    assert_eq!(events, vec![MemoryWriteResult::SetTimerCounter]);
    let events = memory.write_to_memory(TAC, 0x01);
    assert_eq!(events, vec![MemoryWriteResult::Nothing]);
    assert_eq!(memory.read_from_memory(TAC), 0x01);
}

#[test]
fn sound_trigger_writes_report_channel_and_length() {
    let mut memory = loaded_memory();
    memory.write_to_memory(0xff11, 0xc5);
    let events = memory.write_to_memory(0xff14, 0x80);
    assert_eq!(events, vec![MemoryWriteResult::ResetChannel(0, 0x05)]);
    let events = memory.write_to_memory(0xff14, 0x00);
    assert_eq!(events, vec![MemoryWriteResult::Nothing]);
    memory.write_to_memory(0xff1b, 0xc8);
    let events = memory.write_to_memory(0xff1e, 0x80);
    assert_eq!(events, vec![MemoryWriteResult::ResetChannel(2, 0xc8)]);
}

#[test]
fn dma_copies_sprite_table() {
    let mut memory = loaded_memory();
    for i in 0..0xa0u16 {
        memory.write_to_memory(0xc000 + i, i as u8);
    }
    let events = memory.write_to_memory(0xff46, 0xc0);
    assert_eq!(events.len(), 0xa0);
    for i in 0..0xa0u16 {
        assert_eq!(memory.read_from_memory(0xfe00 + i), i as u8);
    }
}

#[test]
fn joypad_reflects_selected_group() {
    let mut memory = loaded_memory();
    memory.gamepad_state = 0b1110_1110;
    memory.rom[0xff00] = 0x20;
    assert_eq!(memory.read_from_memory(0xff00) & 0x0f, 0x0e);
    memory.rom[0xff00] = 0x10;
    assert_eq!(memory.read_from_memory(0xff00) & 0x0f, 0x0e);
}

#[test]
fn request_interrupt_sets_flag_bit() {
    let mut memory = loaded_memory();
    memory.request_interrupt(2);
    assert_eq!(memory.read_from_memory(0xff0f) & 0x04, 0x04);
    memory.request_interrupt(0);
    assert_eq!(memory.read_from_memory(0xff0f) & 0x05, 0x05);
}

#[test]
fn writes_leave_other_addresses_alone() {
    let mut memory = loaded_memory();
    memory.write_to_memory(0xff80, 0x11);
    memory.write_to_memory(0x8000, 0x22);
    memory.write_to_memory(0xc000, 0x33);
    assert_eq!(memory.read_from_memory(0xff80), 0x11);
    assert_eq!(memory.read_from_memory(0x8000), 0x22);
    assert_eq!(memory.read_from_memory(0xc001), 0x00);
    assert_eq!(memory.read_from_memory(0xff0f), 0x00);
}
