//! A Game Boy emulator core: CPU, memory map, picture, sound and timer logic.
use vstd::prelude::*;

pub mod access;
pub mod alu;
pub mod bit_logic;
pub mod cpu;
pub mod cb_ops;
pub mod execute;
pub mod gameboy;
pub mod gpu;
pub mod interrupts;
pub mod isa;
pub mod memory;
pub mod op_arith;
pub mod op_control;
pub mod op_loads;
pub mod op_misc;
pub mod processor;
pub mod shading;
pub mod spu;
pub mod timer;

verus! {

/// Width of the screen in pixels.
pub const WIDTH: u16 = 160;
/// Height of the screen in pixels.
pub const HEIGHT: u16 = 144;
/// Bytes of the RGB screen buffer: WIDTH * HEIGHT * 3.
pub const SCREEN_DATA_SIZE: u32 = 69120;
/// Clock cycles per second.
pub const CYCLES_PER_SECOND: u32 = 4_194_304;
/// Audio samples per second.
pub const SAMPLE_RATE: u16 = 44_100;
/// Cycles between two audio samples: CYCLES_PER_SECOND / SAMPLE_RATE, rounded down.
pub const TIME_BETWEEN_AUDIO_SAMPLING: u8 = 95;

} // verus!
