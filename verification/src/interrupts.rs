//! The joypad and the dispatch of interrupts.
use vstd::prelude::*;
use crate::alu::lemma_word_bytes;
use crate::bit_logic::{self, bit_mask, bit_of, high_byte, low_byte};
use crate::cpu::Cpu;
use crate::isa::pushed;
use crate::memory::{Memory, MemoryModel, MemoryWriteResult};

verus! {

broadcast use crate::memory::group_loaded_memory;

/// The memory after button `key` (0 to 7: right, left, up, down, A, B,
/// select, start) goes down: its bit of the button state is cleared, and
/// the joypad interrupt is requested when the button was up and its group
/// (directions for 0 to 3, buttons for 4 to 7) is selected in 0xff00.
pub open spec fn key_down(m: MemoryModel, key: u8) -> MemoryModel {
    let was_up = bit_of(m.gamepad_state, key);
    let m1 = MemoryModel { gamepad_state: m.gamepad_state & !bit_mask(key), ..m };
    let select = m.rom[0xff00];
    let selected = if key > 3 { !bit_of(select, 5) } else { !bit_of(select, 4) };
    if selected && was_up { m1.interrupt_requested(4) } else { m1 }
}

/// The memory after button `key` goes up: its bit of the button state is set.
pub open spec fn key_up(m: MemoryModel, key: u8) -> MemoryModel {
    MemoryModel { gamepad_state: m.gamepad_state | bit_mask(key), ..m }
}

/// The address that interrupt `id` (0 to 4) jumps to.
pub open spec fn interrupt_vector(id: u8) -> u16 {
    if id == 0 { 0x40 } else if id == 1 { 0x48 } else if id == 2 { 0x50 } else if id == 3 { 0x58 } else { 0x60 }
}

/// The highest-priority interrupt (the lowest bit, among bits 0 to 4) that is
/// both requested and enabled, if any.
pub open spec fn first_interrupt(requested: u8, enabled: u8) -> Option<u8> {
    if bit_of(requested, 0) && bit_of(enabled, 0) { Some(0u8) }
    else if bit_of(requested, 1) && bit_of(enabled, 1) { Some(1u8) }
    else if bit_of(requested, 2) && bit_of(enabled, 2) { Some(2u8) }
    else if bit_of(requested, 3) && bit_of(enabled, 3) { Some(3u8) }
    else if bit_of(requested, 4) && bit_of(enabled, 4) { Some(4u8) }
    else { None }
}

/// Servicing interrupt `id`: interrupts are disabled, the program counter is
/// pushed, the handler's address is loaded, and the request is cleared; the
/// events are those of clearing the request.
pub open spec fn interrupt_serviced(s: Cpu, m: MemoryModel, id: u8) -> (Cpu, MemoryModel, Seq<MemoryWriteResult>) {
    let (s1, m1, _pushes) = pushed(Cpu { interrupts_enabled: false, ..s }, m, high_byte(s.pc), low_byte(s.pc));
    let s2 = if id < 5 { s1.with_pc(interrupt_vector(id)) } else { s1 };
    let cleared = m1.read(0xff0f) & !bit_mask(id);
    (s2, m1.written(0xff0f, cleared), m1.write_events(0xff0f, cleared))
}

/// The processor, memory, events and cycles after checking for interrupts:
/// when one is both requested and enabled, the processor wakes up, and when
/// interrupts are enabled the first such one is serviced in 20 cycles.
pub open spec fn interrupts_checked(s: Cpu, m: MemoryModel) -> (Cpu, MemoryModel, Seq<MemoryWriteResult>, u8) {
    let requested = m.read(0xff0f);
    let enabled = m.read(0xffff);
    if requested & enabled == 0 {
        (s, m, seq![], 0)
    } else if s.interrupts_enabled && first_interrupt(requested, enabled) is Some {
        let (s1, m1, ev) = interrupt_serviced(Cpu { halted: false, ..s }, m, first_interrupt(requested, enabled)->0);
        (s1, m1, ev, 20)
    } else {
        (Cpu { halted: false, ..s }, m, seq![], 0)
    }
}

/// A button that goes down reads as pressed, and pressing and then releasing
/// a button that was up leaves the button state as it was.
pub proof fn lemma_press_release(m: MemoryModel, key: u8)
    requires
        key < 8,
        bit_of(m.gamepad_state, key),
    ensures
        !bit_of(key_down(m, key).gamepad_state, key),
        key_up(key_down(m, key), key).gamepad_state == m.gamepad_state,
{
    reveal(MemoryModel::written);
    bit_logic::lemma_set_reset_check(m.gamepad_state, key, key);
    bit_logic::lemma_set_reset_idempotent(m.gamepad_state, key);
    bit_logic::lemma_set_bit_to_own_bit(m.gamepad_state, key);
}

/// Pressing a button clears its bit of the button state and keeps the
/// others. It requests the joypad interrupt (bit 4 of 0xff0f) exactly when the
/// button was up and its group is selected in 0xff00: the directions (keys 0
/// to 3) by a clear bit 4, the buttons (keys 4 to 7) by a clear bit 5;
/// otherwise the address space is left as it was.
pub proof fn lemma_press_interrupt(m: MemoryModel, key: u8, other: u8)
    requires
        m.structural(),
        key < 8,
        other < 8,
    ensures
        ({
            let r = key_down(m, key);
            let selected = if key >= 4 { !bit_of(m.rom[0xff00], 5) } else { !bit_of(m.rom[0xff00], 4) };
            let requests = selected && bit_of(m.gamepad_state, key);
            &&& !bit_of(r.gamepad_state, key)
            &&& other != key ==> bit_of(r.gamepad_state, other) == bit_of(m.gamepad_state, other)
            &&& requests ==> bit_of(r.read(0xff0f), 4)
            &&& requests ==> (forall|b: u8| b < 8 && b != 4 ==> bit_of(r.read(0xff0f), b) == bit_of(m.read(0xff0f), b))
            &&& !requests ==> r.rom == m.rom
        }),
{
    reveal(MemoryModel::written);
    reveal(MemoryModel::read);
    bit_logic::lemma_set_reset_check(m.gamepad_state, key, other);
    let f = m.read(0xff0f);
    assert forall|b: u8| b < 8 implies #[trigger] bit_of(f | bit_mask(4), b) == (b == 4 || bit_of(f, b)) by {
        bit_logic::lemma_set_reset_check(f, 4, b);
    }
}

/// Presses button `key`.
pub fn key_pressed(memory: &mut Memory, key: u8)
    requires
        old(memory)@.structural(),
        key < 8,
    ensures
        final(memory)@ == key_down(old(memory)@, key),
{
    let previously_unset: bool = !bit_logic::check_bit(memory.gamepad_state, key);

    memory.gamepad_state = bit_logic::reset_bit(memory.gamepad_state, key);

    let button: bool = key > 3;

    let key_req: u8 = memory.rom[0xff00];
    let should_request_interrupt: bool = (button && !bit_logic::check_bit(key_req, 5)) || (!button && !bit_logic::check_bit(key_req, 4));

    if should_request_interrupt && !previously_unset {
        memory.request_interrupt(4);
    }
}

/// Releases button `key`.
pub fn key_released(memory: &mut Memory, key: u8)
    requires
        key < 8,
    ensures
        final(memory)@ == key_up(old(memory)@, key),
{
    memory.gamepad_state = bit_logic::set_bit(memory.gamepad_state, key);
}

/// The accesses of an interrupt check are defined: when it services an
/// interrupt, the two bytes of the program counter can be pushed.
pub open spec fn dispatch_ok(s: Cpu, m: MemoryModel) -> bool {
    let requested = m.read(0xff0f);
    let enabled = m.read(0xffff);
    (requested & enabled != 0 && s.interrupts_enabled && first_interrupt(requested, enabled) is Some)
        ==> crate::isa::push_ok(s, m, high_byte(s.pc), low_byte(s.pc))
}

/// Whether the accesses of an interrupt check are defined.
pub fn dispatch_defined(cpu: &Cpu, memory: &Memory) -> (r: bool)
    requires
        memory@.structural(),
    ensures
        r == dispatch_ok(*cpu, memory@),
{
    proof { lemma_word_bytes(); }
    let req: u8 = memory.read_from_memory(0xff0f);
    let enabled: u8 = memory.read_from_memory(0xffff);
    let any: bool = (bit_logic::check_bit(req, 0) && bit_logic::check_bit(enabled, 0))
        || (bit_logic::check_bit(req, 1) && bit_logic::check_bit(enabled, 1))
        || (bit_logic::check_bit(req, 2) && bit_logic::check_bit(enabled, 2))
        || (bit_logic::check_bit(req, 3) && bit_logic::check_bit(enabled, 3))
        || (bit_logic::check_bit(req, 4) && bit_logic::check_bit(enabled, 4));
    if req & enabled != 0 && cpu.interrupts_enabled && any {
        cpu.push_defined(memory, (cpu.pc >> 8) as u8, cpu.pc as u8)
    } else {
        true
    }
}

/// Services interrupt `interrupt_id`; gives what clearing its request asks of
/// the other components.
pub fn service_interrupt(cpu: &mut Cpu, memory: &mut Memory, interrupt_id: u8) -> (r: Vec<MemoryWriteResult>)
    requires
        old(memory)@.structural(),
        crate::isa::push_ok(*old(cpu), old(memory)@, high_byte(old(cpu).pc), low_byte(old(cpu).pc)),
        interrupt_id < 8,
    ensures
        (*final(cpu), final(memory)@, r@) == interrupt_serviced(*old(cpu), old(memory)@, interrupt_id),
        final(memory)@.structural(),
        old(memory)@.wf() ==> final(memory)@.wf(),
{
    proof { lemma_word_bytes(); }
    cpu.interrupts_enabled = false;

    let pc: u16 = cpu.pc;
    let _ = cpu.push(memory, (pc >> 8) as u8);
    let _ = cpu.push(memory, pc as u8);

    match interrupt_id {
        0 => { cpu.pc = 0x40 },
        1 => { cpu.pc = 0x48 },
        2 => { cpu.pc = 0x50 },
        3 => { cpu.pc = 0x58 },
        4 => { cpu.pc = 0x60 },
        _ => {},
    }
    let cleared: u8 = bit_logic::reset_bit(memory.read_from_memory(0xff0f), interrupt_id);
    memory.write_to_memory(0xff0f, cleared)
}

/// Checks for interrupts and services the first one that is requested and
/// enabled; gives its events and the cycles it took.
pub fn do_interrupts(cpu: &mut Cpu, memory: &mut Memory) -> (r: (Vec<MemoryWriteResult>, u8))
    requires
        old(memory)@.structural(),
        dispatch_ok(*old(cpu), old(memory)@),
    ensures
        (*final(cpu), final(memory)@, r.0@, r.1) == interrupts_checked(*old(cpu), old(memory)@),
        final(memory)@.structural(),
        old(memory)@.wf() ==> final(memory)@.wf(),
{
    let result: Vec<MemoryWriteResult> = Vec::new();
    let (req, enabled): (u8, u8) = (memory.read_from_memory(0xff0f), memory.read_from_memory(0xffff));
    let potential_for_interrupts: u8 = req & enabled;
    if potential_for_interrupts == 0 {
        return (result, 0);
    }
    if cpu.interrupts_enabled {
        cpu.halted = false;
        for i in 0..5u8
            invariant
                cpu.halted == false,
                *cpu == (Cpu { halted: false, ..*old(cpu) }),
                memory@ == old(memory)@,
                memory@.structural(),
                dispatch_ok(*old(cpu), old(memory)@),
                req == memory@.read(0xff0f),
                enabled == memory@.read(0xffff),
                old(cpu).interrupts_enabled,
                req & enabled != 0,
                forall|j: u8| j < i ==> !(#[trigger] bit_of(req, j) && bit_of(enabled, j)),
        {
            if bit_logic::check_bit(req, i) && bit_logic::check_bit(enabled, i) {
                return (service_interrupt(cpu, memory, i), 20);
            }
        }
        assert(first_interrupt(req, enabled) is None);
    }
    cpu.halted = false;
    (result, 0)
}

} // verus!
