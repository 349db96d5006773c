//! The sound processor: the state machines of the four channels, and the
//! integer levels from which each audio sample is mixed.
use vstd::prelude::*;
use crate::bit_logic::{self, bit_of};
use crate::memory::{Memory, MemoryModel};
use crate::TIME_BETWEEN_AUDIO_SAMPLING;

verus! {

broadcast use crate::memory::group_loaded_memory;

/// The duty cycles of the square channels, eight steps each.
pub const WAVE_FORM: [[u8; 8]; 4] = [
    [0, 0, 0, 0, 0, 0, 0, 1],
    [1, 0, 0, 0, 0, 0, 0, 1],
    [1, 0, 0, 0, 0, 1, 1, 1],
    [0, 1, 1, 1, 1, 1, 1, 0],
];

/// The divisors of the noise channel's clock.
pub const SOUND_CHANNEL_4_DIVISOR: [u8; 8] = [8, 16, 32, 48, 64, 80, 96, 112];

/// Square wave with frequency sweep.
pub struct SoundChannel1 {
    pub enabled: bool,
    pub amplitude: i16,
    pub frequency: i16,
    pub frequency_timer: u16,
    pub frame_sequence: u8,
    pub frame_sequence_timer: u16,
    pub wave_duty_position: u8,
    pub envelope_enabled: bool,
    pub envelope_sweeps: u8,
    pub length: u8,
    pub sweep_enabled: bool,
    pub sweep_period: u8,
    pub sweep_shadow: i16,
}

/// Square wave.
pub struct SoundChannel2 {
    pub enabled: bool,
    pub amplitude: i16,
    pub frequency_timer: u16,
    pub frame_sequence: u8,
    pub frame_sequence_timer: u16,
    pub wave_duty_position: u8,
    pub envelope_enabled: bool,
    pub envelope_sweeps: u8,
    pub length: u8,
}

/// Programmable wave.
pub struct SoundChannel3 {
    pub enabled: bool,
    pub frequency_timer: u16,
    pub frame_sequence: u8,
    pub frame_sequence_timer: u16,
    pub wave_index: u8,
    pub length: u16,
}

/// Noise.
pub struct SoundChannel4 {
    pub enabled: bool,
    pub amplitude: i16,
    pub frequency_timer: u16,
    pub frame_sequence: u8,
    pub frame_sequence_timer: u16,
    pub envelope_enabled: bool,
    pub envelope_sweeps: u8,
    pub length: u8,
    pub lfsr: u16,
}

/// The inputs of one stereo audio sample: the level of each channel (a
/// hundredth of full scale each), the routing byte NR51 and the two master
/// volumes (0 to 7).
#[derive(Clone, Copy, Debug, PartialEq, Eq, Structural)]
pub struct AudioSample {
    pub channel_1: i16,
    pub channel_2: i16,
    pub channel_3: i16,
    pub channel_4: i16,
    pub routing: u8,
    pub left_volume: u8,
    pub right_volume: u8,
}

/// The sound processor.
pub struct Spu {
    pub audio_fill_timer: u8,
    pub sound_channel_1: SoundChannel1,
    pub sound_channel_2: SoundChannel2,
    pub sound_channel_3: SoundChannel3,
    pub sound_channel_4: SoundChannel4,
}

/// The step of the duty cycle `duty` at `position`.
pub open spec fn wave_step(duty: u8, position: u8) -> u8 {
    WAVE_FORM[duty as int][position as int]
}

/// The 11-bit frequency from the low and high frequency registers.
pub open spec fn frequency_of(low: u8, high: u8) -> u16 {
    (((high as u16) & 0b111u16) << 8u16) | (low as u16)
}

/// The frame sequencer step that every channel shares: the sequence timer
/// counts down from 8192, and the length counter runs down when enabled.
pub open spec fn frame_tick(timer: u16, sequence: u8) -> (u16, u8, bool) {
    let t = timer.wrapping_sub(1);
    if t == 0 { (8192, ((sequence + 1) as u8) & 8u8, true) } else { (t, sequence, false) }
}

/// The length counter after a frame step that may clock it.
pub open spec fn length_after(length: u8, sequence: u8, ticked: bool, control: u8) -> u8 {
    if ticked && sequence % 2 == 0 && bit_of(control, 6) && length != 0 { length.wrapping_sub(1) } else { length }
}

/// Facts on the registers that the channels decode.
proof fn lemma_sound_registers()
    by (bit_vector)
    ensures
        forall|low: u8, high: u8| #[trigger] frequency_of(low, high) <= 2047u16,
        forall|low: u8, high: u8| #[trigger] (((high as u16) & (0b111u16 << 8u16)) | (low as u16)) == (low as u16),
        forall|x: u8| #[trigger] (x >> 6u8) < 4u8,
        forall|x: u8| #[trigger] (x & 0b111u8) < 8u8,
        forall|x: u8| #[trigger] ((x >> 5u8) & 0b11u8) < 4u8,
        forall|x: u8| #[trigger] (x & 0xfu8) < 16u8,
        forall|x: u8| #[trigger] (x >> 4u8) < 16u8,
        forall|x: u8| #[trigger] ((x >> 4u8) & 0b111u8) < 8u8,
        forall|x: u8| #[trigger] (x & 8u8) == 0u8 || (x & 8u8) == 8u8,
{
}

/// The shift of the noise channel's clock.
proof fn lemma_noise_shift()
    by (bit_vector)
    ensures
        forall|x: u8| #[trigger] ((x as u16) >> 4u16) < 16u16,
{
}

/// The divisor index of the noise channel's clock.
proof fn lemma_noise_divisor()
    by (bit_vector)
    ensures
        forall|x: u8| #[trigger] ((x as usize) & 0b111usize) < 8usize,
{
}

/// The volume nibble of NR42 as a signed word.
proof fn lemma_noise_volume()
    by (bit_vector)
    ensures
        forall|x: u8| #[trigger] ((x as i16) >> 4i32) == ((x >> 4u8) as i16),
{
}

/// The sweep shadow register that a trigger of channel 1 loads.
proof fn lemma_sweep_shadow()
    by (bit_vector)
    ensures
        forall|low: u8, high: u8| 0i16 <= #[trigger] ((((high as i16) & 0b111i16) << 8i16) | (low as i16)) <= 2047i16,
{
}

/// A right shift of a small non-negative number by at most 7.
proof fn lemma_small_shift()
    by (bit_vector)
    ensures
        forall|x: i32, s: u8| 0i32 <= x <= 2047i32 && s < 8u8 ==> 0i32 <= #[trigger] (x >> s) <= x,
{
}

impl SoundChannel1 {
    /// The states that triggers and updates keep the channel in.
    pub open spec fn wf(self) -> bool {
        &&& (self.frame_sequence == 0 || self.frame_sequence == 8)
        &&& self.wave_duty_position < 8
        &&& 0 <= self.amplitude <= 15
    }

    /// The channel after a trigger with length `length`.
    pub open spec fn triggered(self, m: MemoryModel, length: u8) -> SoundChannel1 {
        let nr10 = m.read(0xff10);
        let nr12 = m.read(0xff12);
        let nr13 = m.read(0xff13);
        let nr14 = m.read(0xff14);
        let shift = nr10 & 0b111u8;
        let period = (nr10 >> 4u8) & 0b111u8;
        let shadow: i16 = (((nr14 as i16) & 0b111i16) << 8i16) | (nr13 as i16);
        let negate: i32 = if bit_of(nr10, 3) { -1i32 } else { 1i32 };
        let overflow = shift != 0 && (shadow as i32) + ((shadow as i32) >> shift) * negate > 2047;
        SoundChannel1 {
            length: if self.length == 0 { (64 - length) as u8 } else { self.length },
            enabled: !overflow && nr12 >> 3u8 != 0,
            amplitude: (nr12 >> 4u8) as i16,
            envelope_sweeps: nr12 & 0b111u8,
            envelope_enabled: true,
            frequency_timer: ((2048 - nr13 as int) * 4) as u16,
            sweep_period: period,
            sweep_enabled: period != 0 && shift != 0 && !overflow,
            sweep_shadow: shadow,
            ..self
        }
    }

    /// The channel after one cycle: the frequency timer counts down by one,
    /// and at zero it reloads from the frequency and the duty position moves on.
    pub open spec fn stepped(self, m: MemoryModel) -> SoundChannel1 {
        let nr13 = m.read(0xff13);
        let nr14 = m.read(0xff14);
        let (fst, fs, ticked) = frame_tick(self.frame_sequence_timer, self.frame_sequence);
        let length = length_after(self.length, fs, ticked, nr14);
        let enabled = self.enabled && !(ticked && length != self.length && length == 0);
        let (timer, position) = if self.frequency_timer == 0 {
            (((2048 - frequency_of(nr13, nr14)) * 4) as u16, ((self.wave_duty_position + 1) % 8) as u8)
        } else {
            ((self.frequency_timer - 1) as u16, self.wave_duty_position)
        };
        let duty = m.read(0xff11) >> 6u8;
        SoundChannel1 {
            frame_sequence_timer: fst,
            frame_sequence: fs,
            length,
            enabled,
            frequency_timer: timer,
            wave_duty_position: position,
            frequency: if wave_step(duty, position) == 1 { self.amplitude } else { 0 },
            ..self
        }
    }

    /// The channel at power-on.
    pub open spec fn initial() -> SoundChannel1 {
        SoundChannel1 {
                enabled: false, amplitude: 0, frequency: 0, frequency_timer: 0, frame_sequence: 0,
                frame_sequence_timer: 8192, wave_duty_position: 0, envelope_enabled: false,
                envelope_sweeps: 0, length: 0, sweep_enabled: false, sweep_period: 0, sweep_shadow: 0,
            }
    }

    /// A silent channel.
    pub fn new() -> (r: SoundChannel1)
        ensures
            r == Self::initial(),
            r.wf(),
    {
        SoundChannel1 {
            enabled: false,
            amplitude: 0,
            frequency: 0,
            frequency_timer: 0,
            frame_sequence: 0,
            frame_sequence_timer: 8192,
            wave_duty_position: 0,
            envelope_enabled: false,
            envelope_sweeps: 0,
            length: 0,
            sweep_enabled: false,
            sweep_period: 0,
            sweep_shadow: 0,
        }
    }

    /// Triggers the channel: loads length, volume, envelope, frequency and sweep.
    pub fn reset(&mut self, memory: &Memory, length: u8)
        requires
            memory@.structural(),
            length <= 64,
        ensures
            *final(self) == old(self).triggered(memory@, length),
            old(self).wf() ==> final(self).wf(),
    {
        proof { lemma_sound_registers(); lemma_sweep_shadow(); lemma_small_shift(); }
        let nr10: u8 = memory.read_from_memory(0xff10);
        let nr12: u8 = memory.read_from_memory(0xff12);
        let nr13: u8 = memory.read_from_memory(0xff13);
        let nr14: u8 = memory.read_from_memory(0xff14);
        if self.length == 0 { self.length = 64 - length; }
        self.enabled = true;
        self.amplitude = (nr12 >> 4) as i16;
        self.envelope_sweeps = nr12 & 0b111;
        self.envelope_enabled = true;

        let new_frequency_timer: u16 = (nr14 as u16) & 0b111 << 8 | (nr13 as u16);
        self.frequency_timer = (2048 - new_frequency_timer) * 4;

        self.sweep_period = (nr10 >> 4) & 0b111;
        let sweep_shift: u8 = nr10 & 0b111;
        let sweep_negate: i32 = if bit_logic::check_bit(nr10, 3) { -1 } else { 1 };
        self.sweep_enabled = self.sweep_period != 0 && sweep_shift != 0;
        self.sweep_shadow = ((nr14 as i16) & 0b111) << 8 | (nr13 as i16);
        if sweep_shift != 0 {
            if (self.sweep_shadow as i32) + ((self.sweep_shadow as i32) >> sweep_shift) * sweep_negate > 2047 {
                self.sweep_enabled = false;
                self.enabled = false;
            }
        }
        if nr12 >> 3 == 0 { self.enabled = false; }
    }

    /// Advances the channel by one cycle: the frame sequencer, the length
    /// counter, the frequency timer (which counts down by one) and the duty
    /// position.
    pub fn update(&mut self, memory: &mut Memory)
        requires
            old(memory)@.structural(),
            old(self).wf(),
        ensures
            *final(self) == old(self).stepped(old(memory)@),
            final(memory)@ == old(memory)@,
            final(self).wf(),
    {
        proof { lemma_sound_registers(); }
        let nr10: u8 = memory.read_from_memory(0xff10);
        let nr12: u8 = memory.read_from_memory(0xff12);
        let nr13: u8 = memory.read_from_memory(0xff13);
        let nr14: u8 = memory.read_from_memory(0xff14);

        self.frame_sequence_timer = self.frame_sequence_timer.wrapping_sub(1);
        if self.frame_sequence_timer == 0 {
            self.frame_sequence_timer = 8192;
            self.frame_sequence += 1;
            self.frame_sequence &= 8;

            if self.frame_sequence % 2 == 0 && bit_logic::check_bit(nr14, 6) && self.length != 0 {
                self.length = self.length.wrapping_sub(1);
                if self.length == 0 { self.enabled = false; }
            }
        }

        if (self.frame_sequence == 2 || self.frame_sequence == 6) && self.frame_sequence_timer == 8192 && ((nr10 >> 4) & 7) != 0 && (nr10 & 7) != 0 {
            self.sweep_period -= 1;
            if self.sweep_period <= 0 {
                self.sweep_period = (nr10 >> 4) & 7;
                if self.sweep_period == 0 {
                    self.sweep_period = 8;
                }
                if ((nr10 >> 4) & 7) != 0 && self.sweep_enabled && (nr10 & 7) != 0 {
                    let sweep_shift: u8 = nr10 & 7;
                    let sweep_negate: i16 = if bit_logic::check_bit(nr10, 3) { -1 } else { 1 };
                    let new_frequency: i16 = self.sweep_shadow + (self.sweep_shadow >> sweep_shift) * sweep_negate;
                    if new_frequency < 2048 && sweep_shift != 0 {
                        self.sweep_shadow = new_frequency;
                        let _ = memory.write_to_memory(0xff13, (self.sweep_shadow & 0xff) as u8);
                        let _ = memory.write_to_memory(0xff14, ((self.sweep_shadow >> 8) & 7) as u8);
                        if self.sweep_shadow + (self.sweep_shadow >> sweep_shift) * sweep_negate > 2047 {
                            self.enabled = false;
                            self.sweep_enabled = false;
                        }
                    }
                    if new_frequency > 2047 {
                        self.enabled = false;
                        self.sweep_enabled = false;
                    }
                    if self.sweep_shadow + (self.sweep_shadow >> sweep_shift) * sweep_negate > 2047 {
                        self.enabled = false;
                        self.sweep_enabled = false;
                    }
                }
            }
        }

        if self.frequency_timer == 0 {
            let new_frequency_timer: u16 = (((nr14 as u16) & 0b111) << 8) | (nr13 as u16);
            assert(new_frequency_timer == frequency_of(nr13, nr14));
            self.frequency_timer = (2048 - new_frequency_timer) * 4;
            self.wave_duty_position += 1;
            self.wave_duty_position %= 8;
        } else {
            self.frequency_timer -= 1;
        }

        let duty: u8 = memory.read_from_memory(0xff11) >> 6;
        if WAVE_FORM[duty as usize][self.wave_duty_position as usize] == 1 {
            self.frequency = self.amplitude;
        } else {
            self.frequency = 0;
        }

        if self.frame_sequence == 7 && self.frame_sequence_timer == 8192 && self.envelope_enabled && (nr12 & 7) != 0 {
            self.envelope_sweeps = self.envelope_sweeps.wrapping_sub(1);
            if self.envelope_sweeps == 0 {
                self.envelope_sweeps = nr12 & 7;
                let new_amplitude: i16 = self.amplitude + if bit_logic::check_bit(nr12, 3) { 1 } else { -1 };
                if new_amplitude >= 0 && new_amplitude <= 15 {
                    self.amplitude = new_amplitude;
                    self.frequency = self.amplitude;
                } else {
                    self.envelope_enabled = false;
                }
            }
        }
    }

    /// The level of the channel, in hundredths of full scale.
    pub fn level(&self) -> (r: i16)
        ensures
            r == (if self.enabled { self.frequency } else { 0 }),
    {
        if self.enabled { self.frequency } else { 0 }
    }
}

impl SoundChannel2 {
    /// The states that triggers and updates keep the channel in.
    pub open spec fn wf(self) -> bool {
        &&& (self.frame_sequence == 0 || self.frame_sequence == 8)
        &&& self.wave_duty_position < 8
    }

    /// The channel after a trigger with length `length`.
    pub open spec fn triggered(self, m: MemoryModel, length: u8) -> SoundChannel2 {
        let nr22 = m.read(0xff17);
        SoundChannel2 {
            length: if self.length == 0 { (64 - length) as u8 } else { self.length },
            enabled: nr22 >> 3u8 != 0,
            amplitude: (nr22 >> 4u8) as i16,
            envelope_sweeps: nr22 & 0b111u8,
            envelope_enabled: true,
            ..self
        }
    }

    /// The channel after one cycle: the frequency timer counts down by one,
    /// and at zero it reloads from the frequency and the duty position moves on.
    pub open spec fn stepped(self, m: MemoryModel) -> SoundChannel2 {
        let nr23 = m.read(0xff18);
        let nr24 = m.read(0xff19);
        let (timer, position) = if self.frequency_timer == 0 {
            (((2048 - frequency_of(nr23, nr24)) * 4) as u16, ((self.wave_duty_position + 1) % 8) as u8)
        } else {
            ((self.frequency_timer - 1) as u16, self.wave_duty_position)
        };
        let (fst, fs, ticked) = frame_tick(self.frame_sequence_timer, self.frame_sequence);
        let length = length_after(self.length, fs, ticked, nr24);
        SoundChannel2 {
            frequency_timer: timer,
            wave_duty_position: position,
            frame_sequence_timer: fst,
            frame_sequence: fs,
            length,
            enabled: self.enabled && !(ticked && length != self.length && length == 0),
            ..self
        }
    }

    /// The level of the channel, in hundredths of full scale.
    pub open spec fn level_of(self, m: MemoryModel) -> i16 {
        if self.enabled && wave_step(m.read(0xff16) >> 6u8, self.wave_duty_position) == 1 { self.amplitude } else { 0 }
    }

    /// The channel at power-on.
    pub open spec fn initial() -> SoundChannel2 {
        SoundChannel2 {
                enabled: false, amplitude: 0, frequency_timer: 0, frame_sequence: 8, frame_sequence_timer: 8192,
                wave_duty_position: 0, envelope_enabled: false, envelope_sweeps: 0, length: 0,
            }
    }

    /// A silent channel.
    pub fn new() -> (r: SoundChannel2)
        ensures
            r == Self::initial(),
            r.wf(),
    {
        SoundChannel2 {
            enabled: false,
            amplitude: 0,
            frequency_timer: 0,
            frame_sequence: 8,
            frame_sequence_timer: 8192,
            wave_duty_position: 0,
            envelope_enabled: false,
            envelope_sweeps: 0,
            length: 0,
        }
    }

    /// Triggers the channel: loads length, volume and envelope.
    pub fn reset(&mut self, memory: &Memory, length: u8)
        requires
            memory@.structural(),
            length <= 64,
        ensures
            *final(self) == old(self).triggered(memory@, length),
            old(self).wf() ==> final(self).wf(),
    {
        let nr22: u8 = memory.read_from_memory(0xff17);
        if self.length == 0 { self.length = 64 - length; }
        self.enabled = true;
        self.amplitude = (nr22 >> 4) as i16;
        self.envelope_sweeps = nr22 & 0b111;
        self.envelope_enabled = true;
        if nr22 >> 3 == 0 { self.enabled = false; }
    }

    /// Advances the channel by one cycle: the frequency timer counts down by
    /// one, and at zero it reloads and moves the duty position on.
    pub fn update(&mut self, memory: &mut Memory)
        requires
            old(memory)@.structural(),
            old(self).wf(),
        ensures
            *final(self) == old(self).stepped(old(memory)@),
            final(memory)@ == old(memory)@,
            final(self).wf(),
    {
        proof { lemma_sound_registers(); }
        let nr22: u8 = memory.read_from_memory(0xff17);
        let nr23: u8 = memory.read_from_memory(0xff18);
        let nr24: u8 = memory.read_from_memory(0xff19);
        if self.frequency_timer == 0 {
            let new_frequency_timer: u16 = (((nr24 as u16) & 0b111) << 8) | (nr23 as u16);
            assert(new_frequency_timer == frequency_of(nr23, nr24));
            self.frequency_timer = (2048 - new_frequency_timer) * 4;
            self.wave_duty_position += 1;
            self.wave_duty_position %= 8;
        } else {
            self.frequency_timer -= 1;
        }

        self.frame_sequence_timer = self.frame_sequence_timer.wrapping_sub(1);
        if self.frame_sequence_timer == 0 {
            self.frame_sequence_timer = 8192;
            self.frame_sequence += 1;
            self.frame_sequence &= 8;

            if self.frame_sequence % 2 == 0 && bit_logic::check_bit(nr24, 6) && self.length != 0 {
                self.length = self.length.wrapping_sub(1);
                if self.length == 0 { self.enabled = false; }
            }

            if self.frame_sequence == 7 && self.envelope_enabled && (nr22 & 7) != 0 {
                self.envelope_sweeps = self.envelope_sweeps.wrapping_sub(1);
                if self.envelope_sweeps == 0 {
                    self.envelope_sweeps = nr22 & 7;
                    let new_amplitude: i16 = self.amplitude + if bit_logic::check_bit(nr22, 3) { 1 } else { -1 };
                    if new_amplitude >= 0 && new_amplitude <= 15 {
                        self.amplitude = new_amplitude;
                    } else {
                        self.envelope_enabled = false;
                    }
                }
            }
        }
    }

    /// The level of the channel: its volume while the duty cycle is high.
    pub fn level(&self, memory: &Memory) -> (r: i16)
        requires
            memory@.structural(),
            self.wf(),
        ensures
            r == self.level_of(memory@),
    {
        proof { lemma_sound_registers(); }
        if self.enabled {
            let duty: u8 = memory.read_from_memory(0xff16) >> 6;
            if WAVE_FORM[duty as usize][self.wave_duty_position as usize] == 1 { self.amplitude } else { 0 }
        } else {
            0
        }
    }
}

impl SoundChannel3 {
    /// The states that triggers and updates keep the channel in.
    pub open spec fn wf(self) -> bool {
        &&& (self.frame_sequence == 0 || self.frame_sequence == 8)
        &&& self.frame_sequence_timer >= 1
        &&& self.wave_index < 32
    }

    /// The channel after a trigger with length `length`.
    pub open spec fn triggered(self, m: MemoryModel, length: u8) -> SoundChannel3 {
        SoundChannel3 {
            frequency_timer: ((2048 - frequency_of(m.read(0xff1d), m.read(0xff1e))) * 2) as u16,
            length: if self.length == 0 { (256 - length) as u16 } else { self.length },
            enabled: m.read(0xff1a) >> 6u8 != 0,
            wave_index: 0,
            ..self
        }
    }

    /// The channel after one cycle.
    pub open spec fn stepped(self, m: MemoryModel) -> SoundChannel3 {
        let nr33 = m.read(0xff1d);
        let nr34 = m.read(0xff1e);
        let (timer, index) = if self.frequency_timer == 0 {
            (((2048 - frequency_of(nr33, nr34)) * 2) as u16, ((self.wave_index + 1) % 32) as u8)
        } else {
            ((self.frequency_timer - 1) as u16, self.wave_index)
        };
        let fst = (self.frame_sequence_timer - 1) as u16;
        let ticked = fst == 0;
        let fs = if ticked { ((self.frame_sequence + 1) as u8) & 8u8 } else { self.frame_sequence };
        let clocked = ticked && fs % 2 == 0 && bit_of(nr34, 6) && self.length != 0;
        let length = if clocked { (self.length - 1) as u16 } else { self.length };
        SoundChannel3 {
            frequency_timer: timer,
            wave_index: index,
            frame_sequence_timer: if ticked { 8192 } else { fst },
            frame_sequence: fs,
            length,
            enabled: self.enabled && !(clocked && length == 0),
        }
    }

    /// The level of the channel: the current sample of the wave table, shifted by the volume.
    pub open spec fn level_of(self, m: MemoryModel) -> i16 {
        if self.enabled {
            let byte = m.read((0xff30 + self.wave_index / 2) as u16);
            let nibble = if self.wave_index % 2 != 0 { byte & 0xfu8 } else { byte >> 4u8 };
            let volume = (m.read(0xff1c) >> 5u8) & 0b11u8;
            let wave = nibble >> (if volume != 0 { (volume - 1) as u8 } else { 4u8 });
            if m.read(0xff1a) >> 7u8 != 0 { wave as i16 } else { 0 }
        } else {
            0
        }
    }

    /// The channel at power-on.
    pub open spec fn initial() -> SoundChannel3 {
        SoundChannel3 {
                enabled: false, frequency_timer: 0, frame_sequence: 8, frame_sequence_timer: 8192, wave_index: 0, length: 0,
            }
    }

    /// A silent channel.
    pub fn new() -> (r: SoundChannel3)
        ensures
            r == Self::initial(),
            r.wf(),
    {
        SoundChannel3 {
            enabled: false,
            frequency_timer: 0,
            frame_sequence: 8,
            frame_sequence_timer: 8192,
            wave_index: 0,
            length: 0,
        }
    }

    /// Triggers the channel: loads frequency and length and restarts the wave.
    pub fn reset(&mut self, memory: &Memory, length: u8)
        requires
            memory@.structural(),
        ensures
            *final(self) == old(self).triggered(memory@, length),
            old(self).wf() ==> final(self).wf(),
    {
        proof { lemma_sound_registers(); }
        let nr33: u8 = memory.read_from_memory(0xff1d);
        let nr34: u8 = memory.read_from_memory(0xff1e);
        let new_frequency: u16 = ((nr34 as u16) & 0b111) << 8 | (nr33 as u16);
        assert(new_frequency == frequency_of(nr33, nr34));
        self.frequency_timer = (2048 - new_frequency) * 2;
        if self.length == 0 { self.length = 256 - (length as u16); }
        self.enabled = true;
        self.wave_index = 0;
        if memory.read_from_memory(0xff1a) >> 6 == 0 { self.enabled = false; }
    }

    /// Advances the channel by one cycle.
    pub fn update(&mut self, memory: &Memory)
        requires
            memory@.structural(),
            old(self).wf(),
        ensures
            *final(self) == old(self).stepped(memory@),
            final(self).wf(),
    {
        proof { lemma_sound_registers(); }
        let nr33: u8 = memory.read_from_memory(0xff1d);
        let nr34: u8 = memory.read_from_memory(0xff1e);
        if self.frequency_timer == 0 {
            let new_frequency_timer: u16 = (((nr34 as u16) & 0b111) << 8) | (nr33 as u16);
            assert(new_frequency_timer == frequency_of(nr33, nr34));
            self.frequency_timer = (2048 - new_frequency_timer) * 2;
            self.wave_index = (self.wave_index + 1) % 32;
        } else {
            self.frequency_timer -= 1;
        }

        self.frame_sequence_timer -= 1;
        if self.frame_sequence_timer == 0 {
            self.frame_sequence_timer = 8192;
            self.frame_sequence = (self.frame_sequence + 1) & 8;

            if self.frame_sequence % 2 == 0 && bit_logic::check_bit(nr34, 6) && self.length != 0 {
                self.length -= 1;
                if self.length == 0 { self.enabled = false; }
            }
        }
    }

    /// The level of the channel, in hundredths of full scale.
    pub fn level(&self, memory: &Memory) -> (r: i16)
        requires
            memory@.structural(),
            self.wf(),
        ensures
            r == self.level_of(memory@),
    {
        proof { lemma_sound_registers(); }
        if self.enabled {
            let mut wave: u8 = memory.read_from_memory(0xff30 + ((self.wave_index as u16) / 2));
            wave = if self.wave_index % 2 != 0 {
                wave & 0xf
            } else {
                wave >> 4
            };
            let volume: u8 = (memory.read_from_memory(0xff1c) >> 5) & 0b11;
            wave >>= if volume != 0 {
                volume - 1
            } else {
                4
            };
            if memory.read_from_memory(0xff1a) >> 7 != 0 {
                wave as i16
            } else {
                0
            }
        } else {
            0
        }
    }
}

impl SoundChannel4 {
    /// The states that triggers and updates keep the channel in.
    pub open spec fn wf(self) -> bool {
        &&& (self.frame_sequence == 0 || self.frame_sequence == 8 || self.frame_sequence == 7)
        &&& self.frame_sequence_timer >= 1
    }

    /// The reload value of the noise clock, from NR43.
    pub open spec fn noise_period(nr43: u8) -> u16 {
        (SOUND_CHANNEL_4_DIVISOR[((nr43 as usize) & 0b111usize) as int] as u16) << ((nr43 as u16) >> 4u16)
    }

    /// The channel after a trigger with length `length`.
    pub open spec fn triggered(self, m: MemoryModel, length: u8) -> SoundChannel4 {
        let nr42 = m.read(0xff21);
        let nr43 = m.read(0xff22);
        SoundChannel4 {
            length: if self.length == 0 { (64 - length) as u8 } else { self.length },
            enabled: nr42 >> 3u8 != 0,
            frequency_timer: Self::noise_period(nr43),
            lfsr: 0x7fff,
            amplitude: (nr42 >> 4u8) as i16,
            envelope_sweeps: nr42 & 0b111u8,
            envelope_enabled: true,
            ..self
        }
    }

    /// The shift register after one clock of the noise: the xor of its two
    /// low bits enters at bit 14, and also at bit 6 in 7-bit mode, which
    /// keeps only the low seven bits.
    pub open spec fn shifted(lfsr: u16, nr43: u8) -> u16 {
        let xor_rs = (lfsr & 1u16) ^ ((lfsr & 0b10u16) >> 1u16);
        let wide = (lfsr >> 1u16) | (xor_rs << 14u16);
        if bit_of(nr43, 3) { (wide | (xor_rs << 6u16)) & 0x7fu16 } else { wide }
    }

    /// The channel after one cycle.
    pub open spec fn stepped(self, m: MemoryModel) -> SoundChannel4 {
        let nr43 = m.read(0xff22);
        let nr44 = m.read(0xff23);
        let fst = (self.frame_sequence_timer - 1) as u16;
        let ticked = fst == 0;
        let fs = if ticked { ((self.frame_sequence + 1) as u8) & 8u8 } else { self.frame_sequence };
        let clocked = ticked && fs % 2 == 0 && bit_of(nr44, 6) && self.length != 0;
        let length = if clocked { (self.length - 1) as u8 } else { self.length };
        let (timer, lfsr) = if self.frequency_timer == 0 {
            (Self::noise_period(nr43), Self::shifted(self.lfsr, nr43))
        } else {
            ((self.frequency_timer - 1) as u16, self.lfsr)
        };
        SoundChannel4 {
            frame_sequence_timer: if ticked { 8192 } else { fst },
            frame_sequence: fs,
            length,
            enabled: self.enabled && !(clocked && length == 0),
            frequency_timer: timer,
            lfsr,
            ..self
        }
    }

    /// The channel at power-on.
    pub open spec fn initial() -> SoundChannel4 {
        SoundChannel4 {
                enabled: false, amplitude: 0, frequency_timer: 0, frame_sequence: 7, frame_sequence_timer: 8192,
                envelope_enabled: false, envelope_sweeps: 0, length: 0, lfsr: 0,
            }
    }

    /// A silent channel.
    pub fn new() -> (r: SoundChannel4)
        ensures
            r == Self::initial(),
            r.wf(),
    {
        SoundChannel4 {
            enabled: false,
            amplitude: 0,
            frequency_timer: 0,
            frame_sequence: 7,
            frame_sequence_timer: 8192,
            envelope_enabled: false,
            envelope_sweeps: 0,
            length: 0,
            lfsr: 0,
        }
    }

    /// Triggers the channel: loads length, clock, volume and envelope and fills the shift register.
    pub fn reset(&mut self, memory: &Memory, length: u8)
        requires
            memory@.structural(),
            length <= 64,
        ensures
            *final(self) == old(self).triggered(memory@, length),
            old(self).wf() ==> final(self).wf(),
    {
        proof { lemma_sound_registers(); lemma_noise_shift(); lemma_noise_divisor(); lemma_noise_volume(); }
        let nr42: u8 = memory.read_from_memory(0xff21);
        let nr43: u8 = memory.read_from_memory(0xff22);
        if self.length == 0 { self.length = 64 - length; }
        self.enabled = true;
        self.frequency_timer = (SOUND_CHANNEL_4_DIVISOR[(nr43 as usize) & 0b111] as u16) << ((nr43 as u16) >> 4);
        self.lfsr = 0x7fff;
        self.amplitude = nr42 as i16 >> 4;
        self.envelope_sweeps = nr42 & 0b111;
        self.envelope_enabled = true;
        if nr42 >> 3 == 0 { self.enabled = false; }
    }

    /// Advances the channel by one cycle: the frame sequencer, the length
    /// counter and the noise shift register.
    pub fn update(&mut self, memory: &Memory)
        requires
            memory@.structural(),
            old(self).wf(),
        ensures
            *final(self) == old(self).stepped(memory@),
            final(self).wf(),
    {
        proof { lemma_sound_registers(); lemma_noise_shift(); lemma_noise_divisor(); lemma_noise_volume(); }
        let nr42: u8 = memory.read_from_memory(0xff21);
        let nr43: u8 = memory.read_from_memory(0xff22);
        let nr44: u8 = memory.read_from_memory(0xff23);
        self.frame_sequence_timer -= 1;
        if self.frame_sequence_timer == 0 {
            self.frame_sequence_timer = 8192;
            self.frame_sequence = (self.frame_sequence + 1) & 8;

            if self.frame_sequence % 2 == 0 && bit_logic::check_bit(nr44, 6) && self.length != 0 {
                self.length -= 1;
                if self.length == 0 { self.enabled = false; }
            }

            if self.frame_sequence == 7 && self.envelope_enabled && (nr42 & 0b111) != 0 {
                self.envelope_sweeps -= 1;
                if self.envelope_sweeps == 0 {
                    self.envelope_sweeps = nr42 & 0b111;
                    if self.envelope_sweeps != 0 {
                        let new_amplitude: i16 = self.amplitude + if bit_logic::check_bit(nr42, 3) { 1 } else { -1 };
                        if new_amplitude > 0 && new_amplitude <= 15 {
                            self.amplitude = new_amplitude;
                        } else {
                            self.envelope_enabled = false;
                        }
                    }
                }
            }
        }

        if self.frequency_timer == 0 {
            self.frequency_timer = (SOUND_CHANNEL_4_DIVISOR[(nr43 as usize) & 0b111] as u16) << ((nr43 as u16) >> 4);
            let xor_rs: u16 = (self.lfsr & 1) ^ ((self.lfsr & 0b10) >> 1);
            self.lfsr = (self.lfsr >> 1) | (xor_rs << 14);
            if bit_logic::check_bit(nr43, 3) {
                self.lfsr = (self.lfsr | (xor_rs << 6)) & 0x7f;
            }
        } else {
            self.frequency_timer -= 1;
        }
    }

    /// The level of the channel: silent while bit 0 of the shift register is set.
    pub fn level(&self) -> (r: i16)
        ensures
            r == (if self.enabled && self.lfsr & 1u16 == 0 { self.amplitude } else { 0 }),
    {
        if self.enabled {
            if (self.lfsr & 1) != 0 {
                0
            } else {
                self.amplitude
            }
        } else {
            0
        }
    }
}

impl Spu {
    /// Every channel in the states that updates keep it in.
    pub open spec fn wf(self) -> bool {
        &&& self.sound_channel_1.wf()
        &&& self.sound_channel_2.wf()
        &&& self.sound_channel_3.wf()
        &&& self.sound_channel_4.wf()
    }

    /// The sound processor with every channel advanced by one cycle.
    pub open spec fn channels_stepped(self, m: MemoryModel) -> Spu {
        Spu {
            sound_channel_1: self.sound_channel_1.stepped(m),
            sound_channel_2: self.sound_channel_2.stepped(m),
            sound_channel_3: self.sound_channel_3.stepped(m),
            sound_channel_4: self.sound_channel_4.stepped(m),
            ..self
        }
    }

    /// The inputs of the sample taken now.
    pub open spec fn sample_of(self, m: MemoryModel) -> AudioSample {
        let nr50 = m.read(0xff24);
        AudioSample {
            channel_1: if self.sound_channel_1.enabled { self.sound_channel_1.frequency } else { 0 },
            channel_2: self.sound_channel_2.level_of(m),
            channel_3: self.sound_channel_3.level_of(m),
            channel_4: if self.sound_channel_4.enabled && self.sound_channel_4.lfsr & 1u16 == 0 { self.sound_channel_4.amplitude } else { 0 },
            routing: m.read(0xff25),
            left_volume: (nr50 & 0x70u8) >> 4u8,
            right_volume: nr50 & 0x7u8,
        }
    }

    /// The sound processor and the samples taken after `k` cycles: every
    /// cycle advances the channels, and every 96th takes a sample.
    pub open spec fn run(self, m: MemoryModel, k: nat) -> (Spu, Seq<AudioSample>)
        decreases k,
    {
        if k == 0 {
            (self, seq![])
        } else {
            let (s, out) = self.run(m, (k - 1) as nat);
            let s1 = s.channels_stepped(m);
            if s1.audio_fill_timer == 0 {
                (Spu { audio_fill_timer: TIME_BETWEEN_AUDIO_SAMPLING, ..s1 }, out.push(s1.sample_of(m)))
            } else {
                (Spu { audio_fill_timer: (s1.audio_fill_timer - 1) as u8, ..s1 }, out)
            }
        }
    }

    /// The sound processor at power-on: silent, its sampling timer full.
    pub open spec fn initial() -> Spu {
        Spu {
            audio_fill_timer: TIME_BETWEEN_AUDIO_SAMPLING,
            sound_channel_1: SoundChannel1::initial(),
            sound_channel_2: SoundChannel2::initial(),
            sound_channel_3: SoundChannel3::initial(),
            sound_channel_4: SoundChannel4::initial(),
        }
    }

    /// A silent sound processor, its sampling timer full.
    pub fn new() -> (r: Spu)
        ensures
            r == Spu::initial(),
            r.wf(),
    {
        Spu {
            audio_fill_timer: TIME_BETWEEN_AUDIO_SAMPLING,
            sound_channel_1: SoundChannel1::new(),
            sound_channel_2: SoundChannel2::new(),
            sound_channel_3: SoundChannel3::new(),
            sound_channel_4: SoundChannel4::new(),
        }
    }

    /// Advances the sound by `cycles` cycles and gives the samples taken.
    pub fn update_audio(&mut self, memory: &mut Memory, cycles: u8) -> (r: Vec<AudioSample>)
        requires
            old(memory)@.structural(),
            old(self).wf(),
        ensures
            (*final(self), r@) == old(self).run(old(memory)@, cycles as nat),
            final(memory)@ == old(memory)@,
            final(self).wf(),
    {
        let mut samples: Vec<AudioSample> = Vec::new();
        let mut i: u8 = 0;
        while i < cycles
            invariant
                i <= cycles,
                memory@ == old(memory)@,
                memory@.structural(),
                self.wf(),
                (*self, samples@) == old(self).run(old(memory)@, i as nat),
            decreases cycles - i,
        {
            self.sound_channel_1.update(memory);
            self.sound_channel_2.update(memory);
            self.sound_channel_3.update(memory);
            self.sound_channel_4.update(memory);

            if self.audio_fill_timer == 0 {
                self.audio_fill_timer = TIME_BETWEEN_AUDIO_SAMPLING;
                let nr50: u8 = memory.read_from_memory(0xff24);
                let sample = AudioSample {
                    channel_1: self.sound_channel_1.level(),
                    channel_2: self.sound_channel_2.level(memory),
                    channel_3: self.sound_channel_3.level(memory),
                    channel_4: self.sound_channel_4.level(),
                    routing: memory.read_from_memory(0xff25),
                    left_volume: (nr50 & 0x70) >> 4,
                    right_volume: nr50 & 0x7,
                };
                samples.push(sample);
            } else {
                self.audio_fill_timer -= 1;
            }
            i += 1;
        }
        samples
    }
}

/// One sample every 96 cycles: after `k` cycles the sampling timer has
/// counted down by `k` modulo 96, and a sample was taken each time it
/// passed zero, the first one after `audio_fill_timer + 1` cycles.
pub proof fn lemma_sample_rate(s: Spu, m: MemoryModel, k: nat)
    requires
        s.audio_fill_timer <= TIME_BETWEEN_AUDIO_SAMPLING,
    ensures
        s.run(m, k).0.audio_fill_timer == (s.audio_fill_timer - k) % 96,
        s.run(m, k).1.len() == (k + 95 - s.audio_fill_timer) / 96,
    decreases k,
{
    if k > 0 {
        lemma_sample_rate(s, m, (k - 1) as nat);
    }
}

/// The volume and envelope fields of a sound register byte.
proof fn lemma_volume_fields()
    by (bit_vector)
    ensures
        forall|x: u8| #[trigger] (x >> 4u8) == x / 16u8,
        forall|x: u8| #[trigger] (x >> 3u8) == x / 8u8,
        forall|x: u8| #[trigger] (x & 0b111u8) == x % 8u8,
{
}

/// A trigger loads the initial volume from the upper four bits of the
/// channel's volume register (NR12, NR22, NR42) and the envelope period from
/// its lower three bits; a register whose upper five bits are all clear
/// leaves the square channel 2 and the noise channel silent.
pub proof fn lemma_trigger_volume(
    c1: SoundChannel1,
    c2: SoundChannel2,
    c4: SoundChannel4,
    m: MemoryModel,
    length: u8,
)
    ensures
        c1.triggered(m, length).amplitude as int == m.read(0xff12) as int / 16,
        c1.triggered(m, length).envelope_sweeps as int == m.read(0xff12) as int % 8,
        c2.triggered(m, length).amplitude as int == m.read(0xff17) as int / 16,
        c2.triggered(m, length).envelope_sweeps as int == m.read(0xff17) as int % 8,
        c2.triggered(m, length).enabled == (m.read(0xff17) as int / 8 != 0),
        c4.triggered(m, length).amplitude as int == m.read(0xff21) as int / 16,
        c4.triggered(m, length).envelope_sweeps as int == m.read(0xff21) as int % 8,
        c4.triggered(m, length).enabled == (m.read(0xff21) as int / 8 != 0),
{
    lemma_volume_fields();
    let x1 = m.read(0xff12);
    let x2 = m.read(0xff17);
    let x4 = m.read(0xff21);
    assert(x1 >> 4u8 == x1 / 16u8 && x1 & 0b111u8 == x1 % 8u8);
    assert(x2 >> 4u8 == x2 / 16u8 && x2 & 0b111u8 == x2 % 8u8 && x2 >> 3u8 == x2 / 8u8);
    assert(x4 >> 4u8 == x4 / 16u8 && x4 & 0b111u8 == x4 % 8u8 && x4 >> 3u8 == x4 / 8u8);
}

} // verus!
