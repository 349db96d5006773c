//! The memory map: cartridge banks, external RAM, work RAM and its echo,
//! I/O registers, the joypad register and OAM DMA.
use vstd::prelude::*;
use crate::bit_logic::{self, bit_of};

verus! {

/// The timer control register.
pub const TAC: u16 = 0xff07;

/// What a write to memory asks of the other components.
#[derive(Clone, Copy, Debug, PartialEq, Eq, Structural)]
pub enum MemoryWriteResult {
    Nothing,
    ResetDividerCounter,
    SetTimerCounter,
    /// A sound channel (its number) was triggered, with the given length.
    ResetChannel(u8, u8),
}

/// The memory of the machine.
pub struct Memory {
    /// Joypad buttons, one bit each, a cleared bit meaning pressed.
    pub gamepad_state: u8,
    pub rom_banking: bool,
    pub enable_ram: bool,
    pub mbc1: bool,
    pub mbc2: bool,
    pub current_rom_bank: u8,
    pub current_ram_bank: u8,
    pub ram_banks: Vec<u8>,
    pub cartridge: Vec<u8>,
    /// The whole 64 KiB address space, as plain bytes.
    pub rom: Vec<u8>,
}

/// The mathematical value of a [`Memory`].
pub struct MemoryModel {
    pub gamepad_state: u8,
    pub rom_banking: bool,
    pub enable_ram: bool,
    pub mbc1: bool,
    pub mbc2: bool,
    pub current_rom_bank: u8,
    pub current_ram_bank: u8,
    pub ram_banks: Seq<u8>,
    pub cartridge: Seq<u8>,
    pub rom: Seq<u8>,
}

impl View for Memory {
    type V = MemoryModel;

    open spec fn view(&self) -> MemoryModel {
        MemoryModel {
            gamepad_state: self.gamepad_state,
            rom_banking: self.rom_banking,
            enable_ram: self.enable_ram,
            mbc1: self.mbc1,
            mbc2: self.mbc2,
            current_rom_bank: self.current_rom_bank,
            current_ram_bank: self.current_ram_bank,
            ram_banks: self.ram_banks@,
            cartridge: self.cartridge@,
            rom: self.rom@,
        }
    }
}

/// The byte that a fresh memory holds at `index` of its address space.
pub open spec fn initial_byte(index: int) -> u8 {
    if index == 0xff10 { 0x80 }
    else if index == 0xff11 { 0xbf }
    else if index == 0xff12 { 0xf3 }
    else if index == 0xff14 { 0xbf }
    else if index == 0xff16 { 0x3f }
    else if index == 0xff19 { 0xbf }
    else if index == 0xff1a { 0x7f }
    else if index == 0xff1b { 0xff }
    else if index == 0xff1c { 0x9f }
    else if index == 0xff1e { 0xbf }
    else if index == 0xff20 { 0xff }
    else if index == 0xff23 { 0xbf }
    else if index == 0xff24 { 0x77 }
    else if index == 0xff25 { 0xf3 }
    else if index == 0xff26 { 0xf1 }
    else if index == 0xff40 { 0x91 }
    else if index == 0xff47 { 0xfc }
    else if index == 0xff48 { 0xff }
    else if index == 0xff49 { 0xff }
    else { 0 }
}

/// The index into the cartridge that `address` (in 0x4000..=0x7fff) reads
/// with ROM bank `bank` selected; the sum wraps at 16 bits.
pub open spec fn cartridge_index(address: u16, bank: u8) -> int {
    ((address - 0x4000) + (bank as int * 0x4000) % 0x10000) % 0x10000
}

/// The index into the RAM banks that `address` (in 0xa000..=0xbfff) reads
/// with RAM bank `bank` selected; the sum wraps at 16 bits.
pub open spec fn ram_index(address: u16, bank: u8) -> int {
    ((address - 0xa000) + (bank as int * 0x2000) % 0x10000) % 0x10000
}

/// The joypad register as a program reads it, from the select bits written to
/// 0xff00 and the button state.
pub open spec fn joypad_value(select: u8, buttons: u8) -> u8 {
    let res = select ^ 0xffu8;
    if !bit_of(res, 4) {
        res & ((buttons >> 4u8) | 0xf0u8)
    } else if !bit_of(res, 5) {
        res & ((buttons & 0xfu8) | 0xf0u8)
    } else {
        res
    }
}

impl MemoryModel {
    /// A memory with the registers set as after the boot ROM, and no cartridge.
    pub open spec fn fresh() -> MemoryModel {
        MemoryModel {
            gamepad_state: 0xff,
            rom_banking: false,
            enable_ram: false,
            mbc1: false,
            mbc2: false,
            current_rom_bank: 1,
            current_ram_bank: 0,
            ram_banks: Seq::new(0x8000, |i: int| 0u8),
            cartridge: Seq::<u8>::empty(),
            rom: Seq::new(0x10000, |i: int| initial_byte(i)),
        }
    }

    /// The sizes of the regions, and a RAM bank within them.
    pub open spec fn structural(self) -> bool {
        &&& self.rom.len() == 0x10000
        &&& self.ram_banks.len() == 0x8000
        &&& self.current_ram_bank < 4
    }

    /// Every read of the switchable ROM region stays in the cartridge, now
    /// and after any write.
    pub open spec fn cartridge_ok(self) -> bool {
        ||| self.cartridge.len() >= 0x10000
        ||| (self.cartridge.len() >= 0x8000 && !self.mbc1 && !self.mbc2 && self.current_rom_bank == 1)
    }

    /// A memory with a cartridge loaded, on which every read and write is defined.
    pub open spec fn wf(self) -> bool {
        self.structural() && self.cartridge_ok()
    }

    /// Reading `address` is defined.
    pub open spec fn readable(self, address: u16) -> bool {
        &&& self.structural()
        &&& (0x4000 <= address <= 0x7fff ==> cartridge_index(address, self.current_rom_bank) < self.cartridge.len())
    }

    /// Writing `value` to `address` is defined.
    pub open spec fn writable(self, address: u16, value: u8) -> bool {
        &&& self.structural()
        &&& (address == 0xff46 ==> forall|i: int| 0 <= i < 0xa0 ==> #[trigger] self.readable((value as int * 256 + i) as u16))
    }

    /// The byte that a read of `address` gives.
    #[verifier::opaque]
    pub open spec fn read(self, address: u16) -> u8 {
        if 0x4000 <= address <= 0x7fff {
            self.cartridge[cartridge_index(address, self.current_rom_bank)]
        } else if 0xa000 <= address <= 0xbfff {
            self.ram_banks[ram_index(address, self.current_ram_bank)]
        } else if 0xfea0 <= address <= 0xfeff {
            0xff
        } else if address == 0xff00 {
            joypad_value(self.rom[0xff00], self.gamepad_state)
        } else {
            self.rom[address as int]
        }
    }

    /// The address space with one byte replaced.
    pub open spec fn with_rom(self, index: int, value: u8) -> MemoryModel {
        MemoryModel { rom: self.rom.update(index, value), ..self }
    }

    /// The effect of a write to the memory bank controller (0x0000..=0x7fff).
    pub open spec fn banked(self, address: u16, value: u8) -> MemoryModel {
        if address <= 0x1fff {
            if (self.mbc1 || self.mbc2) && !(self.mbc2 && bit_of(address as u8, 4)) {
                if value & 0xfu8 == 0xau8 {
                    MemoryModel { enable_ram: true, ..self }
                } else if value & 0xfu8 == 0u8 {
                    MemoryModel { enable_ram: false, ..self }
                } else {
                    self
                }
            } else {
                self
            }
        } else if address <= 0x3fff {
            if self.mbc2 {
                let bank = value & 0xfu8;
                MemoryModel { current_rom_bank: if bank == 0 { 1 } else { bank }, ..self }
            } else if self.mbc1 {
                let bank = (self.current_rom_bank & 224u8) | (value & 31u8);
                MemoryModel { current_rom_bank: if bank == 0 { 1 } else { bank }, ..self }
            } else {
                self
            }
        } else if address <= 0x5fff {
            if self.mbc1 {
                if self.rom_banking {
                    let bank = (self.current_rom_bank & 31u8) | (value & 224u8);
                    MemoryModel { current_rom_bank: if bank == 0 { 1 } else { bank }, ..self }
                } else {
                    MemoryModel { current_ram_bank: value & 0x3u8, ..self }
                }
            } else {
                self
            }
        } else {
            if self.mbc1 {
                let rom_banking = value & 0x1u8 == 0;
                MemoryModel {
                    rom_banking,
                    current_ram_bank: if rom_banking { 0 } else { self.current_ram_bank },
                    ..self
                }
            } else {
                self
            }
        }
    }

    /// The effect of an OAM DMA transfer from page `value`: 0xa0 bytes copied to 0xfe00.
    pub open spec fn dma(self, value: u8) -> MemoryModel {
        MemoryModel {
            rom: Seq::new(self.rom.len(), |j: int|
                if 0xfe00 <= j < 0xfea0 {
                    self.read((value as int * 256 + (j - 0xfe00)) as u16)
                } else {
                    self.rom[j]
                }),
            ..self
        }
    }

    /// The memory after writing `value` to `address`.
    #[verifier::opaque]
    pub open spec fn written(self, address: u16, value: u8) -> MemoryModel {
        if address <= 0x7fff {
            self.banked(address, value)
        } else if 0xa000 <= address <= 0xbfff {
            if self.enable_ram {
                MemoryModel {
                    ram_banks: self.ram_banks.update(
                        (address - 0xa000) + self.current_ram_bank as int * 0x2000,
                        value,
                    ),
                    ..self
                }
            } else {
                self
            }
        } else if 0xc000 <= address <= 0xdfff {
            if address + 0x2000 <= 0xfdff {
                self.with_rom(address as int, value).with_rom(address + 0x2000, value)
            } else {
                self.with_rom(address as int, value)
            }
        } else if 0xe000 <= address <= 0xfdff {
            self.with_rom(address as int, value).with_rom(address - 0x2000, value)
        } else if 0xfea0 <= address <= 0xfeff {
            self
        } else if address == 0xff04 || address == 0xff44 {
            self.with_rom(address as int, 0)
        } else if address == 0xff46 {
            self.dma(value)
        } else {
            self.with_rom(address as int, value)
        }
    }

    /// What a write of `value` to `address` asks of the other components.
    #[verifier::opaque]
    pub open spec fn write_events(self, address: u16, value: u8) -> Seq<MemoryWriteResult> {
        if address == TAC {
            if self.read(TAC) & 3u8 != value & 3u8 {
                seq![MemoryWriteResult::SetTimerCounter]
            } else {
                seq![MemoryWriteResult::Nothing]
            }
        } else if address == 0xff04 {
            seq![MemoryWriteResult::ResetDividerCounter]
        } else if address == 0xff46 {
            Seq::new(0xa0, |i: int| MemoryWriteResult::Nothing)
        } else if address == 0xff14 && value >> 7u8 == 1u8 {
            seq![MemoryWriteResult::ResetChannel(0, self.read(0xff11) & 0x3fu8)]
        } else if address == 0xff19 && value >> 7u8 == 1u8 {
            seq![MemoryWriteResult::ResetChannel(1, self.read(0xff16) & 0x3fu8)]
        } else if address == 0xff1e && value >> 7u8 == 1u8 {
            seq![MemoryWriteResult::ResetChannel(2, self.read(0xff1b))]
        } else if address == 0xff23 && value >> 7u8 == 1u8 {
            seq![MemoryWriteResult::ResetChannel(3, self.read(0xff20) & 0x3fu8)]
        } else {
            seq![MemoryWriteResult::Nothing]
        }
    }

    /// The memory after an interrupt is requested: bit `id` of 0xff0f set.
    pub open spec fn interrupt_requested(self, id: u8) -> MemoryModel {
        self.written(0xff0f, self.read(0xff0f) | bit_logic::bit_mask(id))
    }
}

/// A loaded memory can read every address.
pub broadcast proof fn lemma_wf_readable(m: MemoryModel, address: u16)
    requires
        m.wf(),
    ensures
        #[trigger] m.readable(address),
{
}

/// A loaded memory can take every write.
pub broadcast proof fn lemma_wf_writable(m: MemoryModel, address: u16, value: u8)
    requires
        m.wf(),
    ensures
        #[trigger] m.writable(address, value),
{
    assert forall|i: int| 0 <= i < 0xa0 implies #[trigger] m.readable((value as int * 256 + i) as u16) by {}
}

/// A write keeps a loaded memory loaded.
pub broadcast proof fn lemma_write_keeps_wf(m: MemoryModel, address: u16, value: u8)
    requires
        m.wf(),
    ensures
        #[trigger] m.written(address, value).wf(),
{
    reveal(MemoryModel::written);
    assert(value & 0x3u8 < 4) by (bit_vector);
}

/// A write keeps the sizes of the regions.
pub broadcast proof fn lemma_write_keeps_structural(m: MemoryModel, address: u16, value: u8)
    requires
        m.structural(),
    ensures
        #[trigger] m.written(address, value).structural(),
{
    reveal(MemoryModel::written);
    assert(value & 0x3u8 < 4) by (bit_vector);
}

/// An address that holds a plain byte: video RAM, work RAM and its echo,
/// sprite attributes, high RAM and the interrupt enable register.
pub open spec fn plain_address(address: u16) -> bool {
    ||| 0x8000 <= address <= 0x9fff
    ||| 0xc000 <= address <= 0xfdff
    ||| 0xfe00 <= address <= 0xfe9f
    ||| 0xff80 <= address
}

/// The address that mirrors `address` in work RAM or its echo, if any.
pub open spec fn mirror_of(address: u16) -> Option<u16> {
    if 0xc000 <= address <= 0xddff {
        Some((address + 0x2000) as u16)
    } else if 0xe000 <= address <= 0xfdff {
        Some((address - 0x2000) as u16)
    } else {
        None
    }
}

/// A byte written to a plain address is read back from it, and from its
/// mirror in work RAM or the echo.
pub proof fn lemma_read_back(m: MemoryModel, address: u16, value: u8)
    requires
        m.structural(),
        plain_address(address),
    ensures
        m.written(address, value).read(address) == value,
        mirror_of(address) matches Some(b) ==> m.written(address, value).read(b) == value,
{
    reveal(MemoryModel::written);
    reveal(MemoryModel::read);
}

/// A write to a plain address leaves every other address, but its mirror,
/// reading as it did.
pub proof fn lemma_write_elsewhere(m: MemoryModel, address: u16, value: u8, other: u16)
    requires
        m.structural(),
        plain_address(address),
        other != address,
        mirror_of(address) != Some(other),
    ensures
        m.written(address, value).read(other) == m.read(other),
{
    reveal(MemoryModel::written);
    reveal(MemoryModel::read);
}

/// The unusable region 0xfea0..=0xfeff reads as 0xff, and writes to it
/// change nothing.
pub proof fn lemma_unusable_region(m: MemoryModel, address: u16, value: u8)
    requires
        0xfea0 <= address <= 0xfeff,
    ensures
        m.read(address) == 0xff,
        m.written(address, value) == m,
{
    reveal(MemoryModel::written);
    reveal(MemoryModel::read);
}

/// A write to the cartridge region only talks to the bank controller: the
/// address space, the cartridge and the external RAM stay as they were, and
/// without a bank controller nothing changes.
pub proof fn lemma_cartridge_write(m: MemoryModel, address: u16, value: u8)
    requires
        address <= 0x7fff,
    ensures
        m.written(address, value).rom == m.rom,
        m.written(address, value).cartridge == m.cartridge,
        m.written(address, value).ram_banks == m.ram_banks,
        !m.mbc1 && !m.mbc2 ==> m.written(address, value) == m,
{
    reveal(MemoryModel::written);
}

/// No write ever selects ROM bank 0 once another bank is selected.
pub proof fn lemma_rom_bank_never_zero(m: MemoryModel, address: u16, value: u8)
    requires
        m.current_rom_bank != 0,
    ensures
        m.written(address, value).current_rom_bank != 0,
{
    reveal(MemoryModel::written);
}

/// A write outside the cartridge region, or a later write to any address
/// but the DMA register, stays as writable as it was.
pub broadcast proof fn lemma_write_keeps_writable(m: MemoryModel, first: u16, v1: u8, second: u16, v2: u8)
    requires
        m.writable(second, v2),
        first > 0x7fff || second != 0xff46,
    ensures
        #[trigger] m.written(first, v1).writable(second, v2),
{
    reveal(MemoryModel::written);
    assert(v1 & 0x3u8 < 4) by (bit_vector);
    if second == 0xff46 {
        let m1 = m.written(first, v1);
        assert(m1.cartridge == m.cartridge && m1.current_rom_bank == m.current_rom_bank);
        assert forall|i: int| 0 <= i < 0xa0 implies #[trigger] m1.readable((v2 as int * 256 + i) as u16) by {
            assert(m.readable((v2 as int * 256 + i) as u16));
        }
    }
}

/// The bank fields of a bank-controller write.
proof fn lemma_bank_fields(bank: u8, value: u8)
    by (bit_vector)
    ensures
        (bank & 224u8) | (value & 31u8) == (bank / 32u8) * 32u8 + value % 32u8,
        (bank & 31u8) | (value & 224u8) == bank % 32u8 + (value / 32u8) * 32u8,
        value & 0xfu8 == value % 16u8,
        value & 0x3u8 == value % 4u8,
        value & 0x1u8 == value % 2u8,
{
}

/// What a write to 0x2000..=0x5fff selects. With MBC2, a write to
/// 0x2000..=0x3fff selects ROM bank `value % 16` (1 for 0). With MBC1, such a
/// write replaces the low five bits of the ROM bank by `value % 32`; a write to
/// 0x4000..=0x5fff replaces its high three bits by those of `value` in ROM
/// banking mode, and selects RAM bank `value % 4` otherwise; a bank that would
/// be 0 becomes 1. Without a controller nothing changes.
pub proof fn lemma_bank_select(m: MemoryModel, address: u16, value: u8)
    requires
        0x2000 <= address <= 0x5fff,
    ensures
        ({
            let r = m.written(address, value);
            let low = (m.current_rom_bank as int / 32) * 32 + value as int % 32;
            let high = m.current_rom_bank as int % 32 + (value as int / 32) * 32;
            &&& (address <= 0x3fff && m.mbc2) ==>
                r.current_rom_bank as int == (if value as int % 16 == 0 { 1 } else { value as int % 16 })
            &&& (address <= 0x3fff && m.mbc1 && !m.mbc2) ==>
                r.current_rom_bank as int == (if low == 0 { 1 } else { low })
            &&& (address >= 0x4000 && m.mbc1 && m.rom_banking) ==>
                r.current_rom_bank as int == (if high == 0 { 1 } else { high })
            &&& (address >= 0x4000 && m.mbc1 && !m.rom_banking) ==>
                r.current_ram_bank as int == value as int % 4 && r.current_rom_bank == m.current_rom_bank
            &&& (!m.mbc1 && !m.mbc2) ==> r == m
        }),
{
    reveal(MemoryModel::written);
    lemma_bank_fields(m.current_rom_bank, value);
}

/// The facts that let a loaded memory be read and written without further proof.
pub broadcast group group_loaded_memory {
    lemma_wf_readable,
    lemma_wf_writable,
    lemma_write_keeps_wf,
    lemma_write_keeps_structural,
    lemma_write_keeps_writable,
}

impl Memory {
    /// A memory with the registers set as after the boot ROM, and no cartridge.
    pub fn new() -> (r: Memory)
        ensures
            r@ == MemoryModel::fresh(),
            r@.structural(),
    {
        let mut rom_vec: Vec<u8> = Vec::new();
        let mut i: usize = 0;
        while i < 0x10000
            invariant
                i <= 0x10000,
                rom_vec@.len() == i,
                forall|j: int| 0 <= j < i ==> rom_vec@[j] == 0u8,
            decreases 0x10000 - i,
        {
            rom_vec.push(0);
            i += 1;
        }
        rom_vec.set(0xff05, 0x00);
        rom_vec.set(0xff06, 0x00);
        rom_vec.set(0xff07, 0x00);
        rom_vec.set(0xff10, 0x80);
        rom_vec.set(0xff11, 0xbf);
        rom_vec.set(0xff12, 0xf3);
        rom_vec.set(0xff14, 0xbf);
        rom_vec.set(0xff16, 0x3f);
        rom_vec.set(0xff17, 0x00);
        rom_vec.set(0xff19, 0xbf);
        rom_vec.set(0xff1a, 0x7f);
        rom_vec.set(0xff1b, 0xff);
        rom_vec.set(0xff1c, 0x9f);
        rom_vec.set(0xff1e, 0xbf);
        rom_vec.set(0xff20, 0xff);
        rom_vec.set(0xff21, 0x00);
        rom_vec.set(0xff22, 0x00);
        rom_vec.set(0xff23, 0xbf);
        rom_vec.set(0xff24, 0x77);
        rom_vec.set(0xff25, 0xf3);
        rom_vec.set(0xff26, 0xf1);
        rom_vec.set(0xff40, 0x91);
        rom_vec.set(0xff42, 0x00);
        rom_vec.set(0xff43, 0x00);
        rom_vec.set(0xff45, 0x00);
        rom_vec.set(0xff47, 0xfc);
        rom_vec.set(0xff48, 0xff);
        rom_vec.set(0xff49, 0xff);
        rom_vec.set(0xff4a, 0x00);
        rom_vec.set(0xff4b, 0x00);
        rom_vec.set(0xffff, 0x00);
        assert(rom_vec@ =~= Seq::new(0x10000, |i: int| initial_byte(i)));

        let mut ram: Vec<u8> = Vec::new();
        let mut k: usize = 0;
        while k < 0x8000
            invariant
                k <= 0x8000,
                ram@.len() == k,
                forall|j: int| 0 <= j < k ==> ram@[j] == 0u8,
            decreases 0x8000 - k,
        {
            ram.push(0);
            k += 1;
        }
        assert(ram@ =~= Seq::new(0x8000, |i: int| 0u8));

        Memory {
            gamepad_state: 0xff,
            rom_banking: false,
            enable_ram: false,
            mbc1: false,
            mbc2: false,
            current_rom_bank: 1,
            current_ram_bank: 0,
            ram_banks: ram,
            cartridge: Vec::new(),
            rom: rom_vec,
        }
    }

    /// Whether a read of `address` is defined: outside the switchable ROM
    /// region always, inside it when the selected bank holds the byte.
    pub fn can_read(&self, address: u16) -> (r: bool)
        requires
            self@.structural(),
        ensures
            r == self@.readable(address),
    {
        if 0x4000 <= address && address <= 0x7fff {
            let new_address: u16 = address - 0x4000;
            let index: u16 = new_address.wrapping_add((self.current_rom_bank as u16).wrapping_mul(0x4000));
            (index as usize) < self.cartridge.len()
        } else {
            true
        }
    }

    /// Whether a write of `value` to `address` is defined: always, but for a
    /// DMA transfer from a page that cannot be read in full.
    pub fn can_write(&self, address: u16, value: u8) -> (r: bool)
        requires
            self@.structural(),
        ensures
            r == self@.writable(address, value),
    {
        if address != 0xff46 {
            return true;
        }
        let base: u16 = (value as u16) * 256;
        let mut i: u16 = 0;
        while i < 0xa0
            invariant
                i <= 0xa0,
                address == 0xff46,
                base == value as int * 256,
                self@.structural(),
                forall|j: int| 0 <= j < i ==> #[trigger] self@.readable((value as int * 256 + j) as u16),
            decreases 0xa0 - i,
        {
            if !self.can_read(base + i) {
                assert(!self@.readable((value as int * 256 + i as int) as u16));
                return false;
            }
            i += 1;
        }
        true
    }

    /// Appends the bytes of a cartridge image, maps its first 32 KiB at
    /// 0x0000 and selects the bank controller that its header names.
    pub fn load_cartridge(&mut self, data: Vec<u8>)
        requires
            old(self)@.structural(),
            old(self)@.cartridge.len() + data@.len() >= 0x8000,
        ensures
            final(self)@.structural(),
            final(self)@.cartridge == old(self)@.cartridge + data@,
            final(self)@.rom == Seq::new(0x10000, |i: int|
                if i < 0x8000 { final(self)@.cartridge[i] } else { old(self)@.rom[i] }),
            final(self).mbc1 == (old(self).mbc1 || (1 <= final(self)@.cartridge[0x147] <= 3)),
            final(self).mbc2 == (old(self).mbc2 || final(self)@.cartridge[0x147] == 5 || final(self)@.cartridge[0x147] == 6),
            final(self).gamepad_state == old(self).gamepad_state,
            final(self).rom_banking == old(self).rom_banking,
            final(self).enable_ram == old(self).enable_ram,
            final(self).current_rom_bank == old(self).current_rom_bank,
            final(self).current_ram_bank == old(self).current_ram_bank,
            final(self)@.ram_banks == old(self)@.ram_banks,
    {
        let ghost image = data@;
        let mut bytes = data;
        self.cartridge.append(&mut bytes);
        let ghost loaded = self.cartridge@;
        assert(loaded == old(self)@.cartridge + image);
        let mut i: usize = 0;
        while i < 0x8000
            invariant
                i <= 0x8000,
                self.cartridge@ == loaded,
                loaded == old(self)@.cartridge + image,
                image == data@,
                self.ram_banks@ == old(self).ram_banks@,
                self.gamepad_state == old(self).gamepad_state,
                self.rom_banking == old(self).rom_banking,
                self.enable_ram == old(self).enable_ram,
                self.mbc1 == old(self).mbc1,
                self.mbc2 == old(self).mbc2,
                self.current_rom_bank == old(self).current_rom_bank,
                self.current_ram_bank == old(self).current_ram_bank,
                self.cartridge@.len() >= 0x8000,
                self.rom@.len() == 0x10000,
                forall|j: int| 0 <= j < i ==> self.rom@[j] == self.cartridge@[j],
                forall|j: int| i <= j < 0x10000 ==> self.rom@[j] == old(self).rom@[j],
            decreases 0x8000 - i,
        {
            let byte: u8 = self.cartridge[i];
            self.rom.set(i, byte);
            i += 1;
        }
        assert(self.rom@ =~= Seq::new(0x10000, |i: int|
            if i < 0x8000 { self.cartridge@[i] } else { old(self).rom@[i] }));
        let kind: u8 = self.cartridge[0x147];
        if 1 <= kind && kind <= 3 {
            self.mbc1 = true;
        } else if kind == 5 || kind == 6 {
            self.mbc2 = true;
        }
    }

    /// The joypad register as a program reads it.
    pub fn get_gamepad_state(&self) -> (r: u8)
        requires
            self@.structural(),
        ensures
            r == joypad_value(self@.rom[0xff00], self.gamepad_state),
    {
        let mut res: u8 = self.rom[0xff00] ^ 0xff;
        if !bit_logic::check_bit(res, 4) {
            let top_gamepad: u8 = (self.gamepad_state >> 4) | 0xf0;
            res &= top_gamepad;
        } else if !bit_logic::check_bit(res, 5) {
            let bottom_gamepad: u8 = (self.gamepad_state & 0xf) | 0xf0;
            res &= bottom_gamepad;
        }
        res
    }

    /// The byte at `address`.
    pub fn read_from_memory(&self, address: u16) -> (r: u8)
        requires
            self@.readable(address),
        ensures
            r == self@.read(address),
    {
        proof { reveal(MemoryModel::read); }
        if 0x4000 <= address && address <= 0x7fff {
            let new_address: u16 = address - 0x4000;
            let index: u16 = new_address.wrapping_add((self.current_rom_bank as u16).wrapping_mul(0x4000));
            self.cartridge[index as usize]
        } else if 0xa000 <= address && address <= 0xbfff {
            let new_address: u16 = address - 0xa000;
            let index: u16 = new_address.wrapping_add((self.current_ram_bank as u16).wrapping_mul(0x2000));
            self.ram_banks[index as usize]
        } else if 0xfea0 <= address && address <= 0xfeff {
            0xff
        } else if address == 0xff00 {
            self.get_gamepad_state()
        } else {
            self.rom[address as usize]
        }
    }

    /// Copies 0xa0 bytes from page `value` to the sprite attribute table.
    fn do_dma_transfer(&mut self, value: u8) -> (r: Vec<MemoryWriteResult>)
        requires
            old(self)@.writable(0xff46, value),
        ensures
            final(self)@ == old(self)@.dma(value),
            r@ == Seq::new(0xa0, |i: int| MemoryWriteResult::Nothing),
    {
        proof { reveal(MemoryModel::read); }
        let address: u16 = (value as u16) << 8;
        assert(address == value as int * 256) by (bit_vector)
            requires address == (value as u16) << 8u16;
        let ghost start = self@;
        let mut memory_results: Vec<MemoryWriteResult> = Vec::new();
        let mut i: u16 = 0;
        while i < 0xa0
            invariant
                start == old(self)@,
                start.writable(0xff46, value),
                address == value as int * 256,
                i <= 0xa0,
                self@ == (MemoryModel { rom: self@.rom, ..start }),
                self@.rom.len() == 0x10000,
                forall|j: int| 0 <= j < 0x10000 && !(0xfe00 <= j < 0xfe00 + i) ==> self@.rom[j] == start.rom[j],
                forall|j: int| 0xfe00 <= j < 0xfe00 + i ==> self@.rom[j] == start.read((value as int * 256 + (j - 0xfe00)) as u16),
                memory_results@ == Seq::new(i as nat, |k: int| MemoryWriteResult::Nothing),
            decreases 0xa0 - i,
        {
            let source: u16 = address + i;
            assert(start.readable((value as int * 256 + i as int) as u16));
            assert(self@.read(source) == start.read(source)) by {
                reveal(MemoryModel::read);
            }
            let byte: u8 = self.read_from_memory(source);
            self.rom.set((0xfe00 + i) as usize, byte);
            memory_results.push(MemoryWriteResult::Nothing);
            i += 1;
            assert(memory_results@ =~= Seq::new(i as nat, |k: int| MemoryWriteResult::Nothing));
        }
        assert(self@.rom =~= start.dma(value).rom);
        memory_results
    }

    /// Enables or disables the external RAM (writes to 0x0000..=0x1fff).
    fn do_ram_bank_enable(&mut self, address: u16, value: u8)
        requires
            address <= 0x1fff,
            old(self).mbc1 || old(self).mbc2,
        ensures
            final(self)@ == old(self)@.banked(address, value),
    {
        if self.mbc2 && bit_logic::bit_value(address as u8, 4) == 1 {
            return;
        }
        let test_data: u8 = value & 0xf;
        if test_data == 0xa {
            self.enable_ram = true;
        } else if test_data == 0x0 {
            self.enable_ram = false;
        }
    }

    /// Selects the low bits of the ROM bank (writes to 0x2000..=0x3fff).
    fn do_change_lo_rom_bank(&mut self, value: u8)
        requires
            old(self).mbc1 || old(self).mbc2,
        ensures
            final(self)@ == old(self)@.banked(0x2000, value),
    {
        if self.mbc2 {
            self.current_rom_bank = value & 0xf;
            if self.current_rom_bank == 0 {
                self.current_rom_bank += 1;
            }
            return;
        }
        let lower5: u8 = value & 31;
        self.current_rom_bank &= 224;
        self.current_rom_bank |= lower5;
        if self.current_rom_bank == 0 {
            self.current_rom_bank += 1;
        }
    }

    /// Selects the high bits of the ROM bank (writes to 0x4000..=0x5fff in ROM banking mode).
    fn do_change_hi_rom_bank(&mut self, value: u8)
        requires
            old(self).mbc1,
            old(self).rom_banking,
        ensures
            final(self)@ == old(self)@.banked(0x4000, value),
    {
        let new_value: u8 = value & 224;
        self.current_rom_bank &= 31;
        self.current_rom_bank |= new_value;
        if self.current_rom_bank == 0 {
            self.current_rom_bank += 1;
        }
    }

    /// Selects the RAM bank (writes to 0x4000..=0x5fff in RAM banking mode).
    fn do_ram_bank_change(&mut self, value: u8)
        requires
            old(self).mbc1,
            !old(self).rom_banking,
        ensures
            final(self)@ == old(self)@.banked(0x4000, value),
    {
        self.current_ram_bank = value & 0x3;
    }

    /// Switches between ROM and RAM banking modes (writes to 0x6000..=0x7fff).
    fn do_change_rom_ram_mode(&mut self, value: u8)
        requires
            old(self).mbc1,
        ensures
            final(self)@ == old(self)@.banked(0x6000, value),
    {
        let new_value: u8 = value & 0x1;
        self.rom_banking = new_value == 0;
        if self.rom_banking {
            self.current_ram_bank = 0;
        }
    }

    /// A write to the cartridge region, which talks to the bank controller.
    fn handle_banking(&mut self, address: u16, value: u8)
        requires
            address <= 0x7fff,
        ensures
            final(self)@ == old(self)@.banked(address, value),
    {
        if address <= 0x1fff {
            if self.mbc1 || self.mbc2 {
                self.do_ram_bank_enable(address, value);
            }
        } else if address <= 0x3fff {
            if self.mbc1 || self.mbc2 {
                self.do_change_lo_rom_bank(value);
            }
        } else if address <= 0x5fff {
            if self.mbc1 {
                if self.rom_banking {
                    self.do_change_hi_rom_bank(value);
                } else {
                    self.do_ram_bank_change(value);
                }
            }
        } else {
            if self.mbc1 {
                self.do_change_rom_ram_mode(value);
            }
        }
    }

    /// Writes `value` to `address`, with the side effects of the memory map.
    pub fn write_to_memory(&mut self, address: u16, value: u8) -> (r: Vec<MemoryWriteResult>)
        requires
            old(self)@.writable(address, value),
        ensures
            final(self)@ == old(self)@.written(address, value),
            r@ == old(self)@.write_events(address, value),
    {
        proof {
            reveal(MemoryModel::read);
            reveal(MemoryModel::written);
            reveal(MemoryModel::write_events);
        }
        let memory_write_results: Vec<MemoryWriteResult> = vec![MemoryWriteResult::Nothing];
        if address <= 0x7fff {
            self.handle_banking(address, value);
        } else if 0xa000 <= address && address <= 0xbfff {
            if self.enable_ram {
                let new_address: u16 = address - 0xa000;
                self.ram_banks.set((new_address + (self.current_ram_bank as u16) * 0x2000) as usize, value);
            }
        } else if 0xc000 <= address && address <= 0xdfff {
            self.rom.set(address as usize, value);
            if address + 0x2000 <= 0xfdff {
                self.rom.set((address + 0x2000) as usize, value);
            }
        } else if 0xe000 <= address && address <= 0xfdff {
            self.rom.set(address as usize, value);
            self.rom.set((address - 0x2000) as usize, value);
        } else if 0xfea0 <= address && address <= 0xfeff {
        } else if address == TAC {
            let current_freq: u8 = self.read_from_memory(TAC) & 0x3;
            self.rom.set(address as usize, value);
            let new_freq: u8 = self.read_from_memory(TAC) & 0x3;
            if current_freq != new_freq {
                return vec![MemoryWriteResult::SetTimerCounter];
            }
        } else if address == 0xff04 || address == 0xff44 {
            self.rom.set(address as usize, 0);
            if address == 0xff04 {
                return vec![MemoryWriteResult::ResetDividerCounter];
            }
        } else if address == 0xff46 {
            return self.do_dma_transfer(value);
        } else if address == 0xff14 {
            self.rom.set(address as usize, value);
            if value >> 7 == 1 {
                return vec![MemoryWriteResult::ResetChannel(0, self.read_from_memory(0xff11) & 0x3f)];
            }
        } else if address == 0xff19 {
            self.rom.set(address as usize, value);
            if value >> 7 == 1 {
                return vec![MemoryWriteResult::ResetChannel(1, self.read_from_memory(0xff16) & 0x3f)];
            }
        } else if address == 0xff1e {
            self.rom.set(address as usize, value);
            if value >> 7 == 1 {
                return vec![MemoryWriteResult::ResetChannel(2, self.read_from_memory(0xff1b))];
            }
        } else if address == 0xff23 {
            self.rom.set(address as usize, value);
            if value >> 7 == 1 {
                return vec![MemoryWriteResult::ResetChannel(3, self.read_from_memory(0xff20) & 0x3f)];
            }
        } else {
            self.rom.set(address as usize, value);
        }
        memory_write_results
    }

    /// Sets bit `interrupt_id` of the interrupt request register.
    pub fn request_interrupt(&mut self, interrupt_id: u8)
        requires
            old(self)@.structural(),
            interrupt_id < 8,
        ensures
            final(self)@ == old(self)@.interrupt_requested(interrupt_id),
    {
        let requested: u8 = bit_logic::set_bit(self.read_from_memory(0xff0f), interrupt_id);
        let _ = self.write_to_memory(0xff0f, requested);
    }
}

} // verus!
