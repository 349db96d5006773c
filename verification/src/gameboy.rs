//! The whole machine: the processor, the memory, the picture, the sound and
//! the timer, and how the effects of memory writes reach them.
use vstd::prelude::*;
use crate::alu::lemma_word_bytes;
use crate::bit_logic::{self, bit_mask, high_byte, low_byte};
use crate::cpu::Cpu;
use crate::gpu::{graphics_step, Gpu, GpuModel};
use crate::interrupts::{self, first_interrupt, interrupt_vector, key_down, key_up};
use crate::isa::{self, pushed};
use crate::memory::{plain_address, Memory, MemoryModel, MemoryWriteResult, TAC};
use crate::spu::{AudioSample, Spu};
use crate::timer::{clock_period, timer_step, Timer};

verus! {

broadcast use crate::memory::group_loaded_memory;

/// The machine.
pub struct Gameboy {
    pub cpu: Cpu,
    pub gpu: Gpu,
    pub memory: Memory,
    pub spu: Spu,
    pub timer: Timer,
}

/// The mathematical value of a [`Gameboy`].
pub struct GameboyModel {
    pub cpu: Cpu,
    pub gpu: GpuModel,
    pub memory: MemoryModel,
    pub spu: Spu,
    pub timer: Timer,
}

impl View for Gameboy {
    type V = GameboyModel;

    open spec fn view(&self) -> GameboyModel {
        GameboyModel { cpu: self.cpu, gpu: self.gpu@, memory: self.memory@, spu: self.spu, timer: self.timer }
    }
}

/// Whether an event can be acted on: a sound channel other than the wave
/// channel is triggered with a length of at most 64.
pub open spec fn event_ok(e: MemoryWriteResult) -> bool {
    match e {
        MemoryWriteResult::ResetChannel(id, length) => id != 2 ==> length <= 64,
        _ => true,
    }
}

/// Every event of a sequence can be acted on.
pub open spec fn events_ok(events: Seq<MemoryWriteResult>) -> bool {
    forall|i: int| 0 <= i < events.len() ==> #[trigger] event_ok(events[i])
}

/// The events of a memory write can be acted on.
pub broadcast proof fn lemma_write_events_ok(m: MemoryModel, address: u16, value: u8)
    ensures
        #[trigger] events_ok(m.write_events(address, value)),
{
    reveal(MemoryModel::write_events);
    assert(forall|x: u8| #[trigger] (x & 0x3fu8) <= 63u8) by (bit_vector);
}

/// The events of two writes in a row can be acted on.
pub broadcast proof fn lemma_events_ok_concat(a: Seq<MemoryWriteResult>, b: Seq<MemoryWriteResult>)
    requires
        events_ok(a),
        events_ok(b),
    ensures
        #[trigger] events_ok(a + b),
{
    assert forall|i: int| 0 <= i < (a + b).len() implies #[trigger] event_ok((a + b)[i]) by {
        if i < a.len() {
            assert((a + b)[i] == a[i]);
        } else {
            assert((a + b)[i] == b[i - a.len()]);
        }
    }
}

/// The events of an instruction of 0x00..=0x3f can be acted on.
proof fn lemma_block0_events_ok(s: Cpu, m: MemoryModel, op: u8)
    requires
        op < 0x40,
    ensures
        events_ok(isa::block0_step(s, m, op).events),
{
    broadcast use lemma_write_events_ok, lemma_events_ok_concat;
    assert(events_ok(Seq::<MemoryWriteResult>::empty()));
    assert(events_ok(seq![]));
}

/// The events of an instruction of 0x40..=0x7f can be acted on.
proof fn lemma_block1_events_ok(s: Cpu, m: MemoryModel, op: u8)
    ensures
        events_ok(isa::block1_step(s, m, op).events),
{
    broadcast use lemma_write_events_ok, lemma_events_ok_concat;
    assert(events_ok(Seq::<MemoryWriteResult>::empty()));
    assert(events_ok(seq![]));
}

/// The events of an instruction of 0x80..=0xbf can be acted on.
proof fn lemma_block2_events_ok(s: Cpu, m: MemoryModel, op: u8)
    ensures
        events_ok(isa::block2_step(s, m, op).events),
{
    broadcast use lemma_write_events_ok, lemma_events_ok_concat;
    assert(events_ok(Seq::<MemoryWriteResult>::empty()));
    assert(events_ok(seq![]));
}

/// The events of a CB-prefixed instruction can be acted on.
proof fn lemma_cb_events_ok(s: Cpu, m: MemoryModel, op: u8)
    ensures
        events_ok(isa::cb_step(s, m, op).events),
{
    broadcast use lemma_write_events_ok, lemma_events_ok_concat;
    assert(events_ok(Seq::<MemoryWriteResult>::empty()));
    assert(events_ok(seq![]));
}

/// The events of an instruction of 0xc0..=0xff can be acted on.
proof fn lemma_block3_events_ok(s: Cpu, m: MemoryModel, op: u8)
    requires
        op >= 0xc0,
    ensures
        events_ok(isa::block3_step(s, m, op).events),
{
    broadcast use lemma_write_events_ok, lemma_events_ok_concat;
    lemma_cb_events_ok(s.with_pc(s.pc.wrapping_add(1)), m, m.read(s.pc));
    assert(events_ok(Seq::<MemoryWriteResult>::empty()));
    assert(events_ok(seq![]));
}

/// The events of an instruction can be acted on.
pub proof fn lemma_step_events_ok(s: Cpu, m: MemoryModel)
    ensures
        events_ok(isa::update_step(s, m).events),
{
    let op = m.read(s.pc);
    let s1 = s.with_pc(s.pc.wrapping_add(1));
    if op < 0x40 {
        lemma_block0_events_ok(s1, m, op);
    } else if op < 0x80 {
        lemma_block1_events_ok(s1, m, op);
    } else if op < 0xc0 {
        lemma_block2_events_ok(s1, m, op);
    } else {
        lemma_block3_events_ok(s1, m, op);
    }
}

/// The events of a timer step can be acted on.
pub proof fn lemma_timer_events_ok(t: Timer, m: MemoryModel, cycles: u8)
    ensures
        events_ok(timer_step(t, m, cycles).2),
{
    broadcast use lemma_write_events_ok;
    let empty = Seq::<MemoryWriteResult>::empty();
    assert(events_ok(empty));
    assert(events_ok(seq![]));
}

/// A timer step keeps the sizes of the memory's regions, and a loaded
/// memory loaded.
pub proof fn lemma_timer_keeps_memory_wf(t: Timer, m: MemoryModel, cycles: u8)
    requires
        m.structural(),
    ensures
        timer_step(t, m, cycles).1.structural(),
        m.wf() ==> timer_step(t, m, cycles).1.wf(),
{
}

/// A picture step keeps the sizes of the memory's regions, a loaded memory
/// loaded, and the scanline counter within its bounds.
pub proof fn lemma_graphics_keeps_wf(g: GpuModel, m: MemoryModel, cycles: u8)
    requires
        m.structural(),
        0 < g.scanline_counter <= 456,
    ensures
        graphics_step(g, m, cycles).1.structural(),
        m.wf() ==> graphics_step(g, m, cycles).1.wf(),
        0 < graphics_step(g, m, cycles).0.scanline_counter <= 456,
{
    let (g1, m1) = crate::gpu::lcd_status(g, m);
    let m2 = m1.with_rom(0xff44, ((m1.rom[0xff44] + 1) % 256) as u8);
    assert(m.with_rom(0xff44, 0).structural());
    assert(m1.structural());
    assert(m2.structural());
    assert(m2.interrupt_requested(0).structural());
    assert(m2.with_rom(0xff44, 0).structural());
    if m.wf() {
        assert(m.with_rom(0xff44, 0).wf());
        assert(m1.wf());
        assert(m2.wf());
        assert(m2.interrupt_requested(0).wf());
        assert(m2.with_rom(0xff44, 0).wf());
    }
}

/// The timer and sound after acting on one event, with the memory as it is then.
pub open spec fn event_applied(t: Timer, s: Spu, m: MemoryModel, e: MemoryWriteResult) -> (Timer, Spu) {
    match e {
        MemoryWriteResult::ResetDividerCounter => (Timer { divider_counter: 0, ..t }, s),
        MemoryWriteResult::SetTimerCounter => (Timer { timer_counter: clock_period(m.read(TAC) & 3u8), ..t }, s),
        MemoryWriteResult::ResetChannel(id, length) => (t,
            if id == 0 {
                Spu { sound_channel_1: s.sound_channel_1.triggered(m, length), ..s }
            } else if id == 1 {
                Spu { sound_channel_2: s.sound_channel_2.triggered(m, length), ..s }
            } else if id == 2 {
                Spu { sound_channel_3: s.sound_channel_3.triggered(m, length), ..s }
            } else if id == 3 {
                Spu { sound_channel_4: s.sound_channel_4.triggered(m, length), ..s }
            } else {
                s
            }),
        MemoryWriteResult::Nothing => (t, s),
    }
}

/// The timer and sound after acting on a sequence of events in order.
pub open spec fn events_applied(t: Timer, s: Spu, m: MemoryModel, events: Seq<MemoryWriteResult>) -> (Timer, Spu)
    decreases events.len(),
{
    if events.len() == 0 {
        (t, s)
    } else {
        let (t1, s1) = events_applied(t, s, m, events.drop_last());
        event_applied(t1, s1, m, events.last())
    }
}

/// The machine after a write through the memory map, with its events acted on.
pub open spec fn address_written(g: GameboyModel, address: u16, value: u8) -> GameboyModel {
    let m = g.memory.written(address, value);
    let (t, s) = events_applied(g.timer, g.spu, m, g.memory.write_events(address, value));
    GameboyModel { memory: m, timer: t, spu: s, ..g }
}

/// The machine after servicing interrupt `id`: interrupts are disabled, the
/// request is cleared, the program counter is pushed and the handler's
/// address is loaded.
pub open spec fn gameboy_serviced(g: GameboyModel, id: u8) -> GameboyModel {
    let g1 = address_written(
        GameboyModel { cpu: Cpu { interrupts_enabled: false, ..g.cpu }, ..g },
        0xff0f,
        g.memory.read(0xff0f) & !bit_mask(id),
    );
    let (c2, m2, _pushes) = pushed(g1.cpu, g1.memory, high_byte(g1.cpu.pc), low_byte(g1.cpu.pc));
    let c3 = if id < 5 { c2.with_pc(interrupt_vector(id)) } else { c2 };
    GameboyModel { cpu: c3, memory: m2, ..g1 }
}

/// The machine and the cycles after checking for interrupts.
pub open spec fn gameboy_interrupts(g: GameboyModel) -> (GameboyModel, u8) {
    let requested = g.memory.read(0xff0f);
    let enabled = g.memory.read(0xffff);
    if requested & enabled == 0 {
        (g, 0)
    } else if g.cpu.interrupts_enabled && first_interrupt(requested, enabled) is Some {
        (gameboy_serviced(GameboyModel { cpu: Cpu { halted: false, ..g.cpu }, ..g }, first_interrupt(requested, enabled)->0), 20)
    } else {
        (GameboyModel { cpu: Cpu { halted: false, ..g.cpu }, ..g }, 0)
    }
}

/// The machine and the cycles after the instruction part of a step: an
/// instruction and its events unless halted, 4 idle cycles otherwise.
pub open spec fn gameboy_instruction(g: GameboyModel) -> (GameboyModel, u8) {
    if !g.cpu.halted {
        let st = isa::update_step(g.cpu, g.memory);
        let (t, s) = events_applied(g.timer, g.spu, st.memory, st.events);
        (GameboyModel { cpu: st.cpu, memory: st.memory, timer: t, spu: s, ..g }, (st.cycles * 4) as u8)
    } else {
        (g, 4u8)
    }
}

/// The machine after the timer, with its events, and the picture have run
/// for `cycles` cycles.
pub open spec fn gameboy_clocked(g: GameboyModel, cycles: u8) -> GameboyModel {
    let (t2, m2, ev) = timer_step(g.timer, g.memory, cycles);
    let (t3, s3) = events_applied(t2, g.spu, m2, ev);
    let (gpu4, m4) = graphics_step(g.gpu, m2, cycles);
    GameboyModel { timer: t3, spu: s3, gpu: gpu4, memory: m4, ..g }
}

/// The machine and the cycles after one step: an instruction unless halted
/// (4 cycles then), the timer, the picture, and the interrupts.
pub open spec fn gameboy_step(g: GameboyModel) -> (GameboyModel, u8) {
    let (g1, cycles) = gameboy_instruction(g);
    let (g5, extra) = gameboy_interrupts(gameboy_clocked(g1, cycles));
    (g5, (cycles + extra) as u8)
}

/// The machine, the cycles and the audio samples after one step in which
/// the sound also runs: the sound runs after the picture and before the
/// interrupts are checked.
pub open spec fn gameboy_step_with_audio(g: GameboyModel) -> (GameboyModel, u8, Seq<AudioSample>) {
    let (g1, cycles) = gameboy_instruction(g);
    let g2 = gameboy_clocked(g1, cycles);
    let (spu3, samples) = g2.spu.run(g2.memory, cycles as nat);
    let (g4, extra) = gameboy_interrupts(GameboyModel { spu: spu3, ..g2 });
    (g4, (cycles + extra) as u8, samples)
}

/// How interrupts are dispatched: with nothing both requested and enabled
/// the machine is left alone; otherwise the processor wakes up from a halt,
/// and when interrupts are enabled the first requested and enabled one is
/// serviced in 20 cycles: interrupts are disabled, its request is cleared and
/// its handler is entered.
pub proof fn lemma_interrupt_dispatch(g: GameboyModel)
    requires
        g.wf(),
    ensures
        ({
            let requested = g.memory.read(0xff0f);
            let enabled = g.memory.read(0xffff);
            let (r, cycles) = gameboy_interrupts(g);
            let first = first_interrupt(requested, enabled);
            &&& requested & enabled == 0 ==> r == g && cycles == 0
            &&& requested & enabled != 0 ==> !r.cpu.halted
            &&& (requested & enabled != 0 && g.cpu.interrupts_enabled && first is Some) ==> {
                &&& cycles == 20
                &&& !r.cpu.interrupts_enabled
                &&& r.cpu.pc == interrupt_vector(first->0)
                &&& (plain_address(g.cpu.sp.wrapping_sub(1)) && plain_address(g.cpu.sp.wrapping_sub(2)))
                    ==> !bit_logic::bit_of(r.memory.read(0xff0f), first->0)
            }
        }),
{
    let requested = g.memory.read(0xff0f);
    let enabled = g.memory.read(0xffff);
    if requested & enabled != 0 && g.cpu.interrupts_enabled && first_interrupt(requested, enabled) is Some {
        let id = first_interrupt(requested, enabled)->0;
        let g0 = GameboyModel { cpu: Cpu { halted: false, ..g.cpu }, ..g };
        let cleared = g0.memory.read(0xff0f) & !bit_mask(id);
        let g1 = address_written(
            GameboyModel { cpu: Cpu { interrupts_enabled: false, ..g0.cpu }, ..g0 },
            0xff0f,
            cleared,
        );
        assert(g1.memory.read(0xff0f) == cleared) by {
            reveal(MemoryModel::written);
            reveal(MemoryModel::read);
        }
        bit_logic::lemma_set_reset_check(requested, id, id);
        assert(!bit_logic::bit_of(g1.memory.read(0xff0f), id));
        let sp1 = g1.cpu.sp.wrapping_sub(1);
        let sp2 = sp1.wrapping_sub(1);
        let m1 = g1.memory.written(sp1, high_byte(g1.cpu.pc));
        if plain_address(g.cpu.sp.wrapping_sub(1)) && plain_address(g.cpu.sp.wrapping_sub(2)) {
            assert(sp2 == g.cpu.sp.wrapping_sub(2));
            crate::memory::lemma_write_elsewhere(g1.memory, sp1, high_byte(g1.cpu.pc), 0xff0f);
            crate::memory::lemma_write_elsewhere(m1, sp2, low_byte(g1.cpu.pc), 0xff0f);
        }
    }
}

/// The instruction part of a step makes only defined accesses: unless the
/// processor is halted, the opcode can be read, every access of the
/// instruction is defined, and it is not LD (0xffff), SP.
pub open spec fn instruction_ok(g: GameboyModel) -> bool {
    g.cpu.halted || {
        &&& g.memory.readable(g.cpu.pc)
        &&& isa::accesses_ok(g.cpu.with_pc(g.cpu.pc.wrapping_add(1)), g.memory, g.memory.read(g.cpu.pc))
        &&& isa::update_defined(g.cpu, g.memory)
    }
}

/// Every access of a step is defined: those of the instruction, and the
/// pushes of an interrupt serviced after the timer and the picture ran.
pub open spec fn step_ok(g: GameboyModel) -> bool {
    let (g1, cycles) = gameboy_instruction(g);
    let g2 = gameboy_clocked(g1, cycles);
    instruction_ok(g) && interrupts::dispatch_ok(g2.cpu, g2.memory)
}

/// An instruction of 0x00..=0x3f keeps a loaded memory loaded.
proof fn lemma_block0_keeps_wf(s: Cpu, m: MemoryModel, op: u8)
    requires
        m.wf(),
        op < 0x40,
    ensures
        isa::block0_step(s, m, op).memory.wf(),
{
}

/// An instruction of 0x40..=0x7f keeps a loaded memory loaded.
proof fn lemma_block1_keeps_wf(s: Cpu, m: MemoryModel, op: u8)
    requires
        m.wf(),
    ensures
        isa::block1_step(s, m, op).memory.wf(),
{
}

/// An instruction of 0xc0..=0xff keeps a loaded memory loaded.
proof fn lemma_block3_keeps_wf(s: Cpu, m: MemoryModel, op: u8)
    requires
        m.wf(),
        op >= 0xc0,
    ensures
        isa::block3_step(s, m, op).memory.wf(),
{
    let s1 = s.with_pc(isa::pc_on(s, 1));
    assert(isa::cb_step(s1, m, isa::imm8(s, m)).memory.wf());
}

/// On a loaded memory, every access of a step is defined.
pub proof fn lemma_loaded_step_ok(g: GameboyModel)
    requires
        g.wf(),
        g.memory.wf(),
        g.cpu.halted || isa::update_defined(g.cpu, g.memory),
    ensures
        step_ok(g),
{
    if !g.cpu.halted {
        let s1 = g.cpu.with_pc(g.cpu.pc.wrapping_add(1));
        let op = g.memory.read(g.cpu.pc);
        isa::lemma_loaded_accesses_ok(s1, g.memory, op);
        if op < 0x40 {
            lemma_block0_keeps_wf(s1, g.memory, op);
        } else if op < 0x80 {
            lemma_block1_keeps_wf(s1, g.memory, op);
        } else if op >= 0xc0 {
            lemma_block3_keeps_wf(s1, g.memory, op);
        }
    }
    let (g1, cycles) = gameboy_instruction(g);
    assert(g1.memory.wf());
    let (t2, m2, ev) = timer_step(g1.timer, g1.memory, cycles);
    lemma_timer_keeps_memory_wf(g1.timer, g1.memory, cycles);
    lemma_graphics_keeps_wf(g1.gpu, m2, cycles);
}

impl GameboyModel {
    /// A machine whose components are within the bounds that steps keep them
    /// in; its memory has the sizes of its regions, with or without a cartridge.
    pub open spec fn wf(self) -> bool {
        &&& self.memory.structural()
        &&& self.gpu.wf()
        &&& 0 < self.gpu.scanline_counter <= 456
        &&& self.timer.wf()
        &&& self.spu.wf()
    }
}

impl Gameboy {
    /// A machine as after the boot ROM, with no cartridge.
    pub fn new() -> (r: Gameboy)
        ensures
            r@ == (GameboyModel {
                cpu: Cpu::after_boot(),
                gpu: GpuModel::fresh(),
                memory: MemoryModel::fresh(),
                spu: Spu::initial(),
                timer: Timer { timer_counter: 0, divider_counter: 0 },
            }),
            r.memory@.structural(),
            r.gpu@.wf(),
            r.timer.wf(),
            r.spu.wf(),
    {
        Gameboy {
            cpu: Cpu::new(),
            gpu: Gpu::new(),
            memory: Memory::new(),
            spu: Spu::new(),
            timer: Timer::new(),
        }
    }

    /// Presses button `key`.
    pub fn key_pressed(&mut self, key: u8)
        requires
            old(self).memory@.structural(),
            key < 8,
        ensures
            final(self)@ == (GameboyModel { memory: key_down(old(self)@.memory, key), ..old(self)@ }),
    {
        interrupts::key_pressed(&mut self.memory, key);
    }

    /// Releases button `key`.
    pub fn key_released(&mut self, key: u8)
        requires
            key < 8,
        ensures
            final(self)@ == (GameboyModel { memory: key_up(old(self)@.memory, key), ..old(self)@ }),
    {
        interrupts::key_released(&mut self.memory, key);
    }

    /// The byte at `address`.
    pub fn read_from_address(&self, address: u16) -> (r: u8)
        requires
            self.memory@.readable(address),
        ensures
            r == self.memory@.read(address),
    {
        self.memory.read_from_memory(address)
    }

    /// Acts on the events of memory writes: resets the divider, restarts the
    /// timer, or triggers a sound channel.
    fn handle_events(&mut self, memory_write_results: Vec<MemoryWriteResult>)
        requires
            old(self).memory@.structural(),
            old(self).timer.wf(),
            old(self).spu.wf(),
            events_ok(memory_write_results@),
        ensures
            (final(self).timer, final(self).spu) == events_applied(old(self).timer, old(self).spu, old(self).memory@, memory_write_results@),
            final(self).timer.wf(),
            final(self).spu.wf(),
            final(self).cpu == old(self).cpu,
            final(self).gpu@ == old(self).gpu@,
            final(self).memory@ == old(self).memory@,
    {
        let mut i: usize = 0;
        while i < memory_write_results.len()
            invariant
                i <= memory_write_results@.len(),
                self.memory@ == old(self).memory@,
                self.memory@.structural(),
                self.cpu == old(self).cpu,
                self.gpu@ == old(self).gpu@,
                self.timer.wf(),
                self.spu.wf(),
                events_ok(memory_write_results@),
                (self.timer, self.spu) == events_applied(old(self).timer, old(self).spu, old(self).memory@, memory_write_results@.subrange(0, i as int)),
            decreases memory_write_results@.len() - i,
        {
            proof {
                assert(memory_write_results@.subrange(0, i as int + 1).drop_last() == memory_write_results@.subrange(0, i as int));
                assert(event_ok(memory_write_results@[i as int]));
            }
            match &memory_write_results[i] {
                MemoryWriteResult::ResetDividerCounter => {
                    self.timer.divider_counter = 0
                },
                MemoryWriteResult::SetTimerCounter => {
                    self.timer.set_clock_freq(&self.memory)
                },
                MemoryWriteResult::ResetChannel(id, length) => {
                    match *id {
                        0 => { self.spu.sound_channel_1.reset(&self.memory, *length) },
                        1 => { self.spu.sound_channel_2.reset(&self.memory, *length) },
                        2 => { self.spu.sound_channel_3.reset(&self.memory, *length) },
                        3 => { self.spu.sound_channel_4.reset(&self.memory, *length) },
                        _ => { },
                    }
                },
                _ => { },
            }
            i += 1;
        }
        assert(memory_write_results@.subrange(0, i as int) == memory_write_results@);
    }

    /// Writes `value` to `address` and acts on what the write asks of the
    /// other components.
    pub fn write_to_address(&mut self, address: u16, value: u8)
        requires
            old(self)@.wf(),
            old(self).memory@.writable(address, value),
        ensures
            final(self)@ == address_written(old(self)@, address, value),
            final(self)@.wf(),
            old(self).memory@.wf() ==> final(self).memory@.wf(),
    {
        let results = self.memory.write_to_memory(address, value);
        proof { lemma_write_events_ok(old(self)@.memory, address, value); }
        self.handle_events(results);
    }

    /// The byte at `address` of the address space, past the memory map.
    pub fn raw_read_from_rom(&self, address: u16) -> (r: u8)
        requires
            self.memory@.structural(),
        ensures
            r == self.memory@.rom[address as int],
    {
        self.memory.rom[address as usize]
    }

    /// Writes the byte at `address` of the address space, past the memory map.
    pub fn raw_write_to_rom(&mut self, address: u16, value: u8)
        requires
            old(self).memory@.structural(),
        ensures
            final(self)@ == (GameboyModel { memory: old(self)@.memory.with_rom(address as int, value), ..old(self)@ }),
    {
        self.memory.rom.set(address as usize, value);
    }

    /// Services interrupt `interrupt_id`.
    #[verifier::rlimit(50)]
    fn service_interrupt(&mut self, interrupt_id: u8)
        requires
            old(self)@.wf(),
            isa::push_ok(old(self).cpu, old(self).memory@, high_byte(old(self).cpu.pc), low_byte(old(self).cpu.pc)),
            interrupt_id < 8,
        ensures
            final(self)@ == gameboy_serviced(old(self)@, interrupt_id),
            final(self)@.wf(),
            old(self).memory@.wf() ==> final(self).memory@.wf(),
    {
        proof { lemma_word_bytes(); }
        self.cpu.interrupts_enabled = false;
        let cleared: u8 = bit_logic::reset_bit(self.read_from_address(0xff0f), interrupt_id);
        self.write_to_address(0xff0f, cleared);

        let pc: u16 = self.cpu.pc;
        let _ = self.cpu.push(&mut self.memory, (pc >> 8) as u8);
        let _ = self.cpu.push(&mut self.memory, pc as u8);

        match interrupt_id {
            0 => { self.cpu.pc = 0x40 },
            1 => { self.cpu.pc = 0x48 },
            2 => { self.cpu.pc = 0x50 },
            3 => { self.cpu.pc = 0x58 },
            4 => { self.cpu.pc = 0x60 },
            _ => {},
        }
    }

    /// Checks for interrupts and services the first one that is requested and
    /// enabled; gives the cycles it took.
    fn do_interrupts(&mut self) -> (r: u8)
        requires
            old(self)@.wf(),
            interrupts::dispatch_ok(old(self).cpu, old(self).memory@),
        ensures
            (final(self)@, r) == gameboy_interrupts(old(self)@),
            final(self)@.wf(),
            old(self).memory@.wf() ==> final(self).memory@.wf(),
            r <= 20,
    {
        let (req, enabled): (u8, u8) = (self.read_from_address(0xff0f), self.read_from_address(0xffff));
        let potential_for_interrupts: u8 = req & enabled;
        if potential_for_interrupts == 0 {
            return 0;
        }
        if self.cpu.interrupts_enabled {
            self.cpu.halted = false;
            for i in 0..5u8
                invariant
                    self@ == (GameboyModel { cpu: Cpu { halted: false, ..old(self)@.cpu }, ..old(self)@ }),
                    self@.wf(),
                    interrupts::dispatch_ok(old(self).cpu, old(self).memory@),
                    req == self@.memory.read(0xff0f),
                    enabled == self@.memory.read(0xffff),
                    old(self).cpu.interrupts_enabled,
                    req & enabled != 0,
                    forall|j: u8| j < i ==> !(#[trigger] crate::bit_logic::bit_of(req, j) && crate::bit_logic::bit_of(enabled, j)),
            {
                if bit_logic::check_bit(req, i) && bit_logic::check_bit(enabled, i) {
                    self.service_interrupt(i);
                    return 20;
                }
            }
            assert(first_interrupt(req, enabled) is None);
        }
        self.cpu.halted = false;
        0
    }

    /// The instruction part of a step: runs an instruction unless halted and
    /// acts on its events; gives the cycles it took.
    fn run_instruction(&mut self) -> (r: u8)
        requires
            old(self)@.wf(),
            instruction_ok(old(self)@),
        ensures
            (final(self)@, r) == gameboy_instruction(old(self)@),
            final(self)@.wf(),
            old(self).memory@.wf() ==> final(self).memory@.wf(),
            r <= 24,
    {
        let mut cycles: u8 = 4;
        if !self.cpu.halted {
            let (new_cycles, memory_write_results) = self.cpu.update(&mut self.memory);
            cycles = new_cycles.wrapping_mul(4);
            proof {
                lemma_step_events_ok(old(self).cpu, old(self).memory@);
                isa::lemma_step_cycles(
                    old(self).cpu.with_pc(old(self).cpu.pc.wrapping_add(1)),
                    old(self).memory@,
                    old(self).memory@.read(old(self).cpu.pc),
                );
            }
            self.handle_events(memory_write_results);
        }
        cycles
    }

    /// Runs the timer, with its events, and the picture for `cycles` cycles.
    fn run_clocked(&mut self, cycles: u8)
        requires
            old(self)@.wf(),
        ensures
            final(self)@ == gameboy_clocked(old(self)@, cycles),
            final(self)@.wf(),
            old(self).memory@.wf() ==> final(self).memory@.wf(),
    {
        let timer_results = self.timer.update_timer(&mut self.memory, cycles);
        proof {
            crate::timer::lemma_timer_step_keeps_wf(old(self).timer, old(self).memory@, cycles);
            lemma_timer_events_ok(old(self).timer, old(self).memory@, cycles);
            lemma_timer_keeps_memory_wf(old(self).timer, old(self).memory@, cycles);
            lemma_graphics_keeps_wf(self.gpu@, self.memory@, cycles);
        }
        self.handle_events(timer_results);
        self.gpu.update_graphics(&mut self.memory, cycles);
    }

    /// One step of the machine: an instruction (unless halted), the timer, the
    /// picture and the interrupts; gives the clock cycles it took.
    pub fn update(&mut self) -> (r: u8)
        requires
            old(self)@.wf(),
            step_ok(old(self)@),
        ensures
            (final(self)@, r) == gameboy_step(old(self)@),
            final(self)@.wf(),
            old(self).memory@.wf() ==> final(self).memory@.wf(),
    {
        let cycles: u8 = self.run_instruction();
        self.run_clocked(cycles);
        let extra: u8 = self.do_interrupts();
        cycles + extra
    }

    /// One step of the machine in which the sound runs too, after the
    /// picture; gives the clock cycles it took and the audio samples taken.
    pub fn update_with_audio(&mut self) -> (r: (u8, Vec<AudioSample>))
        requires
            old(self)@.wf(),
            step_ok(old(self)@),
        ensures
            (final(self)@, r.0, r.1@) == gameboy_step_with_audio(old(self)@),
            final(self)@.wf(),
            old(self).memory@.wf() ==> final(self).memory@.wf(),
    {
        let cycles: u8 = self.run_instruction();
        self.run_clocked(cycles);
        let samples = self.spu.update_audio(&mut self.memory, cycles);
        let extra: u8 = self.do_interrupts();
        (cycles + extra, samples)
    }

    /// One step of the machine with the sound, as `update_with_audio`, when
    /// every access it makes is defined; `None` where an access is not, the
    /// machine then left part way through the step.
    pub fn try_update_with_audio(&mut self) -> (r: Option<(u8, Vec<AudioSample>)>)
        requires
            old(self)@.wf(),
        ensures
            final(self)@.wf(),
            r is Some <==> step_ok(old(self)@),
            match r {
                Some((cycles, samples)) => (final(self)@, cycles, samples@) == gameboy_step_with_audio(old(self)@),
                None => true,
            },
    {
        if !self.cpu.halted && !self.cpu.next_instruction_defined(&self.memory) {
            return None;
        }
        let cycles: u8 = self.run_instruction();
        self.run_clocked(cycles);
        let samples = self.spu.update_audio(&mut self.memory, cycles);
        if !interrupts::dispatch_defined(&self.cpu, &self.memory) {
            return None;
        }
        let extra: u8 = self.do_interrupts();
        Some((cycles + extra, samples))
    }
}

} // verus!
