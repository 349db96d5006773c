//! The divider and the programmable timer.
use vstd::prelude::*;
use crate::bit_logic::{self, bit_of};
use crate::memory::{Memory, MemoryModel, MemoryWriteResult, TAC};

verus! {

broadcast use crate::memory::group_loaded_memory;

/// The timer counter register.
pub const TIMA: u16 = 0xff05;
/// The timer modulo register.
pub const TMA: u16 = 0xff06;

/// Cycles per tick at 4096 Hz.
pub const FREQUENCY_4096: u16 = 1024;
/// Cycles per tick at 262144 Hz.
pub const FREQUENCY_262144: u16 = 16;
/// Cycles per tick at 65536 Hz.
pub const FREQUENCY_65536: u16 = 64;
/// Cycles per tick at 16384 Hz.
pub const FREQUENCY_16384: u16 = 256;

/// The counters of the divider and of the timer, in cycles.
pub struct Timer {
    pub timer_counter: i32,
    pub divider_counter: i32,
}

/// Cycles per timer tick for the clock select bits of TAC.
pub open spec fn clock_period(select: u8) -> i32 {
    if select == 0 { FREQUENCY_4096 as i32 }
    else if select == 1 { FREQUENCY_262144 as i32 }
    else if select == 2 { FREQUENCY_65536 as i32 }
    else { FREQUENCY_16384 as i32 }
}

/// The timer and memory after `cycles` cycles of the divider.
pub open spec fn divided(t: Timer, m: MemoryModel, cycles: u8) -> (Timer, MemoryModel) {
    let d = t.divider_counter + cycles;
    if d >= 255 {
        (Timer { divider_counter: 0, ..t }, m.with_rom(0xff04, ((m.rom[0xff04] + 1) % 256) as u8))
    } else {
        (Timer { divider_counter: d as i32, ..t }, m)
    }
}

/// The timer, the memory and the events after `cycles` cycles.
pub open spec fn timer_step(t: Timer, m: MemoryModel, cycles: u8) -> (Timer, MemoryModel, Seq<MemoryWriteResult>) {
    let (t1, m1) = divided(t, m, cycles);
    if bit_of(m1.read(TAC), 2) {
        let tc = t1.timer_counter - cycles;
        if tc <= 0 {
            let t2 = Timer { timer_counter: clock_period(m1.read(TAC) & 3u8), ..t1 };
            let tima = m1.read(TIMA);
            let tma = m1.read(TMA);
            if tima == 255 {
                (t2, m1.written(TIMA, tma).interrupt_requested(2), m1.write_events(TIMA, tma))
            } else {
                (t2, m1.written(TIMA, (tima + 1) as u8), m1.write_events(TIMA, (tima + 1) as u8))
            }
        } else {
            (Timer { timer_counter: tc as i32, ..t1 }, m1, seq![])
        }
    } else {
        (t1, m1, seq![])
    }
}

impl Timer {
    /// The counters within the bounds that updates keep them in.
    pub open spec fn wf(self) -> bool {
        &&& 0 <= self.divider_counter < 255
        &&& -256 < self.timer_counter <= 1024
    }

    /// A timer with both counters at zero.
    pub fn new() -> (r: Timer)
        ensures
            r == (Timer { timer_counter: 0, divider_counter: 0 }),
    {
        Timer { timer_counter: 0, divider_counter: 0 }
    }

    /// Whether the timer runs (bit 2 of TAC).
    pub fn is_clock_enabled(&self, memory: &Memory) -> (r: bool)
        requires
            memory@.structural(),
        ensures
            r == bit_of(memory@.read(TAC), 2),
    {
        bit_logic::check_bit(memory.read_from_memory(TAC), 2)
    }

    /// The clock select bits of TAC.
    pub fn get_clock_freq(&self, memory: &Memory) -> (r: u8)
        requires
            memory@.structural(),
        ensures
            r == memory@.read(TAC) & 3u8,
    {
        memory.read_from_memory(TAC) & 0x3
    }

    /// Restarts the timer counter with the period that TAC selects.
    pub fn set_clock_freq(&mut self, memory: &Memory)
        requires
            memory@.structural(),
        ensures
            *final(self) == (Timer { timer_counter: clock_period(memory@.read(TAC) & 3u8), ..*old(self) }),
    {
        let select: u8 = self.get_clock_freq(memory);
        let ghost tac: u8 = memory@.read(TAC);
        assert(select < 4) by (bit_vector)
            requires select == tac & 3u8;
        if select == 0 {
            self.timer_counter = FREQUENCY_4096 as i32;
        } else if select == 1 {
            self.timer_counter = FREQUENCY_262144 as i32;
        } else if select == 2 {
            self.timer_counter = FREQUENCY_65536 as i32;
        } else if select == 3 {
            self.timer_counter = FREQUENCY_16384 as i32;
        }
    }

    /// Advances the divider and the timer by `cycles` cycles; on overflow of
    /// TIMA, reloads it from TMA and requests the timer interrupt.
    pub fn update_timer(&mut self, memory: &mut Memory, cycles: u8) -> (r: Vec<MemoryWriteResult>)
        requires
            old(memory)@.structural(),
            old(self).divider_counter + cycles <= i32::MAX,
            old(self).timer_counter - cycles >= i32::MIN,
        ensures
            (*final(self), final(memory)@, r@) == timer_step(*old(self), old(memory)@, cycles),
            final(memory)@.structural(),
    {
        let mut result: Vec<MemoryWriteResult> = Vec::new();

        self.divider_counter += cycles as i32;
        if self.divider_counter >= 255 {
            self.divider_counter = 0;
            let divider: u8 = memory.rom[0xff04];
            memory.rom.set(0xff04, divider.wrapping_add(1));
        }

        if self.is_clock_enabled(memory) {
            self.timer_counter -= cycles as i32;
            if self.timer_counter <= 0 {
                self.set_clock_freq(memory);
                let (tima, tma): (u8, u8) = (memory.read_from_memory(TIMA), memory.read_from_memory(TMA));
                if tima == 255 {
                    result = memory.write_to_memory(TIMA, tma);
                    memory.request_interrupt(2);
                } else {
                    result = memory.write_to_memory(TIMA, tima.wrapping_add(1));
                }
            }
        }
        result
    }
}

/// Updates keep the counters of a timer within their bounds, so that a timer
/// that starts within them never overflows.
pub proof fn lemma_timer_step_keeps_wf(t: Timer, m: MemoryModel, cycles: u8)
    requires
        t.wf(),
    ensures
        timer_step(t, m, cycles).0.wf(),
{
}

} // verus!
