use rpgbe::cpu::Cpu;
use rpgbe::gpu::{Color, Gpu};
use rpgbe::interrupts::{do_interrupts, key_pressed, key_released, service_interrupt};
use rpgbe::memory::{Memory, MemoryWriteResult, TAC};
use rpgbe::spu::{SoundChannel1, Spu};
use rpgbe::timer::{Timer, TIMA, TMA};
use rpgbe::SCREEN_DATA_SIZE;

fn component_memory() -> Memory {
    let mut memory = Memory::new();
    memory.load_cartridge(vec![0u8; 0x8000]);
    memory
}

#[test]
fn divider_ticks_after_255_cycles() {
    let mut memory = component_memory();
    let mut timer = Timer::new();
    assert_eq!((timer.timer_counter, timer.divider_counter), (0, 0));
    timer.update_timer(&mut memory, 200);
    assert_eq!(timer.divider_counter, 200);
    assert_eq!(memory.rom[0xff04], 0);
    timer.update_timer(&mut memory, 60);
    assert_eq!(timer.divider_counter, 0);
    assert_eq!(memory.rom[0xff04], 1);
}

#[test]
fn timer_frequency_selection() {
    let mut memory = component_memory();
    let mut timer = Timer::new();
    for (select, period) in [(0u8, 1024), (1, 16), (2, 64), (3, 256)] {
        memory.write_to_memory(TAC, 0x04 | select);
        assert_eq!(timer.get_clock_freq(&memory), select);
        assert!(timer.is_clock_enabled(&memory));
        timer.set_clock_freq(&memory);
        assert_eq!(timer.timer_counter, period);
    }
}

#[test]
fn timer_counts_and_overflows_into_interrupt() {
    let mut memory = component_memory();
    let mut timer = Timer::new();
    memory.write_to_memory(TAC, 0x05);
    timer.set_clock_freq(&memory);
    let events = timer.update_timer(&mut memory, 16);
    assert_eq!(memory.read_from_memory(TIMA), 1);
    assert_eq!(timer.timer_counter, 16);
    assert_eq!(events, vec![MemoryWriteResult::Nothing]);

    memory.write_to_memory(TMA, 0xab);
    memory.write_to_memory(TIMA, 0xff);
    timer.update_timer(&mut memory, 16);
    assert_eq!(memory.read_from_memory(TIMA), 0xab);
    assert_eq!(memory.read_from_memory(0xff0f) & 0x04, 0x04);
}

#[test]
fn disabled_timer_does_not_count() {
    let mut memory = component_memory();
    let mut timer = Timer::new();
    let events = timer.update_timer(&mut memory, 100);
    assert!(events.is_empty());
    assert_eq!(memory.read_from_memory(TIMA), 0);
}

#[test]
fn new_gpu_is_black_and_counting() {
    let gpu = Gpu::new();
    assert_eq!(gpu.screen_data.len(), SCREEN_DATA_SIZE as usize);
    assert!(gpu.screen_data.iter().all(|&b| b == 0));
    assert_eq!(gpu.scanline_bg.len(), 160);
    assert_eq!(gpu.scanline_counter, 456);
}

#[test]
fn palette_colors() {
    let mut memory = component_memory();
    memory.write_to_memory(0xff47, 0xe4);
    assert_eq!(Gpu::get_color(&memory, 0xff47, 0), Color::White);
    assert_eq!(Gpu::get_color(&memory, 0xff47, 1), Color::LightGray);
    assert_eq!(Gpu::get_color(&memory, 0xff47, 2), Color::DarkGray);
    assert_eq!(Gpu::get_color(&memory, 0xff47, 3), Color::Black);
    memory.write_to_memory(0xff47, 0xfc);
    assert_eq!(Gpu::get_color(&memory, 0xff47, 0), Color::White);
    assert_eq!(Gpu::get_color(&memory, 0xff47, 1), Color::Black);
}

#[test]
fn scanline_advances_every_456_cycles() {
    let mut memory = component_memory();
    let mut gpu = Gpu::new();
    assert!(gpu.is_lcd_enabled(&memory));
    gpu.update_graphics(&mut memory, 228);
    assert_eq!(gpu.scanline_counter, 228);
    assert_eq!(memory.rom[0xff44], 0);
    gpu.update_graphics(&mut memory, 228);
    assert_eq!(gpu.scanline_counter, 456);
    assert_eq!(memory.rom[0xff44], 1);
}

#[test]
fn vertical_blank_requests_interrupt() {
    let mut memory = component_memory();
    let mut gpu = Gpu::new();
    memory.rom[0xff44] = 143;
    gpu.scanline_counter = 4;
    gpu.update_graphics(&mut memory, 4);
    assert_eq!(memory.rom[0xff44], 144);
    assert_eq!(memory.read_from_memory(0xff0f) & 0x01, 0x01);
}

#[test]
fn lcd_off_resets_line_and_mode() {
    let mut memory = component_memory();
    let mut gpu = Gpu::new();
    memory.rom[0xff40] = 0x11;
    memory.rom[0xff44] = 77;
    gpu.scanline_counter = 100;
    gpu.update_graphics(&mut memory, 8);
    assert!(!gpu.is_lcd_enabled(&memory));
    assert_eq!(gpu.scanline_counter, 456);
    assert_eq!(memory.rom[0xff44], 0);
    assert_eq!(memory.rom[0xff41] & 0x03, 0x01);
}

#[test]
fn background_row_is_drawn_with_palette() {
    let mut memory = component_memory();
    memory.write_to_memory(0xff47, 0xe4);
    // tile 0, row 0: low plane all set, high plane clear: colour 1 everywhere
    memory.write_to_memory(0x8000, 0xff);
    memory.write_to_memory(0x8001, 0x00);
    let mut gpu = Gpu::new();
    gpu.draw_scanline(&memory);
    assert_eq!(&gpu.screen_data[0..3], &[0xcc, 0xcc, 0xcc]);
    assert_eq!(&gpu.screen_data[159 * 3..160 * 3], &[0xcc, 0xcc, 0xcc]);
    assert_eq!(gpu.screen_data[160 * 3], 0);
}

#[test]
fn sound_channel_trigger_loads_registers() {
    let memory = component_memory();
    let mut channel = SoundChannel1::new();
    channel.reset(&memory, 0x3f);
    assert!(channel.enabled);
    assert_eq!(channel.length, 1);
    assert_eq!(channel.amplitude, 15);
    assert_eq!(channel.envelope_sweeps, 3);
    assert_eq!(channel.frequency_timer, 8192);
    assert_eq!(channel.sweep_shadow, 0x700);
}

#[test]
fn audio_sample_every_96_cycles() {
    let mut memory = component_memory();
    let mut spu = Spu::new();
    assert_eq!(spu.audio_fill_timer, 95);
    let samples = spu.update_audio(&mut memory, 95);
    assert!(samples.is_empty());
    let samples = spu.update_audio(&mut memory, 1);
    assert_eq!(samples.len(), 1);
    assert_eq!(samples[0].routing, 0xf3);
    assert_eq!(samples[0].left_volume, 7);
    assert_eq!(samples[0].right_volume, 7);
    assert_eq!(samples[0].channel_1, 0);
    let samples = spu.update_audio(&mut memory, 192);
    assert_eq!(samples.len(), 2);
}

#[test]
fn pressing_a_button_requests_joypad_interrupt() {
    let mut memory = component_memory();
    key_pressed(&mut memory, 5);
    assert_eq!(memory.gamepad_state, 0xdf);
    assert_eq!(memory.read_from_memory(0xff0f) & 0x10, 0x10);
    memory.write_to_memory(0xff0f, 0x00);
    key_pressed(&mut memory, 5);
    assert_eq!(memory.read_from_memory(0xff0f) & 0x10, 0x00);
    key_released(&mut memory, 5);
    assert_eq!(memory.gamepad_state, 0xff);
}

#[test]
fn unselected_group_does_not_interrupt() {
    let mut memory = component_memory();
    memory.rom[0xff00] = 0x10;
    key_pressed(&mut memory, 2);
    assert_eq!(memory.gamepad_state, 0xfb);
    assert_eq!(memory.read_from_memory(0xff0f) & 0x10, 0x00);
}

#[test]
fn interrupt_is_serviced_by_priority() {
    let mut memory = component_memory();
    let mut cpu = Cpu::new();
    cpu.interrupts_enabled = true;
    cpu.halted = true;
    memory.write_to_memory(0xffff, 0x06);
    memory.write_to_memory(0xff0f, 0x07);
    let (_events, cycles) = do_interrupts(&mut cpu, &mut memory);
    assert_eq!(cycles, 20);
    assert_eq!(cpu.pc, 0x48);
    assert!(!cpu.interrupts_enabled);
    assert!(!cpu.halted);
    assert_eq!(cpu.sp, 0xfffc);
    assert_eq!(memory.read_from_memory(0xfffd), 0x01);
    assert_eq!(memory.read_from_memory(0xfffc), 0x00);
    assert_eq!(memory.read_from_memory(0xff0f), 0x05);
}

#[test]
fn disabled_interrupts_only_wake_the_cpu() {
    let mut memory = component_memory();
    let mut cpu = Cpu::new();
    cpu.halted = true;
    memory.write_to_memory(0xffff, 0x01);
    memory.write_to_memory(0xff0f, 0x01);
    let (_events, cycles) = do_interrupts(&mut cpu, &mut memory);
    assert_eq!(cycles, 0);
    assert!(!cpu.halted);
    assert_eq!(cpu.pc, 0x100);
    assert_eq!(memory.read_from_memory(0xff0f), 0x01);
}

#[test]
fn nothing_pending_changes_nothing() {
    let mut memory = component_memory();
    let mut cpu = Cpu::new();
    cpu.interrupts_enabled = true;
    cpu.halted = true;
    memory.write_to_memory(0xff0f, 0x01);
    let (events, cycles) = do_interrupts(&mut cpu, &mut memory);
    assert_eq!(cycles, 0);
    assert!(events.is_empty());
    assert!(cpu.halted);
}

#[test]
fn service_interrupt_jumps_to_each_vector() {
    for (id, vector) in [(0u8, 0x40u16), (1, 0x48), (2, 0x50), (3, 0x58), (4, 0x60)] {
        let mut memory = component_memory();
        let mut cpu = Cpu::new();
        memory.write_to_memory(0xff0f, 0x1f);
        service_interrupt(&mut cpu, &mut memory, id);
        assert_eq!(cpu.pc, vector);
        assert_eq!(memory.read_from_memory(0xff0f), 0x1f & !(1u8 << id));
    }
}
