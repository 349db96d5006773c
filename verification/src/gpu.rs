//! The picture processor: LCD modes, scanline timing, and drawing the
//! background, the window and the sprites into an RGB screen buffer.
use vstd::prelude::*;
use crate::alu::{bit_num, lemma_word_bytes};
use crate::bit_logic::{self, bit_mask, bit_of};
use crate::memory::{Memory, MemoryModel};
use crate::{SCREEN_DATA_SIZE, WIDTH};

verus! {

broadcast use crate::memory::group_loaded_memory;

/// The first line of the vertical blank.
pub const VERTICAL_BLANK_SCAN_LINE: u8 = 144;
/// The last line of the vertical blank.
pub const VERTICAL_BLANK_SCAN_LINE_MAX: u8 = 153;
/// Cycles per scanline.
pub const SCANLINE_COUNTER_START: u16 = 456;

/// The four shades of the screen.
#[derive(Clone, Copy, Debug, PartialEq, Eq, Structural)]
pub enum Color {
    White,
    LightGray,
    DarkGray,
    Black,
}

/// The screen and the scanline timer.
pub struct Gpu {
    pub scanline_counter: i32,
    /// Three bytes (red, green, blue) per pixel, row by row.
    pub screen_data: Vec<u8>,
    /// Whether each pixel of the current line has background colour 0.
    pub scanline_bg: Vec<bool>,
}

/// The mathematical value of a [`Gpu`].
pub struct GpuModel {
    pub scanline_counter: i32,
    pub screen: Seq<u8>,
    pub bg: Seq<bool>,
}

impl View for Gpu {
    type V = GpuModel;

    open spec fn view(&self) -> GpuModel {
        GpuModel { scanline_counter: self.scanline_counter, screen: self.screen_data@, bg: self.scanline_bg@ }
    }
}

impl GpuModel {
    /// A black screen, a scanline about to start.
    pub open spec fn fresh() -> GpuModel {
        GpuModel {
            scanline_counter: SCANLINE_COUNTER_START as i32,
            screen: Seq::new(SCREEN_DATA_SIZE as nat, |i: int| 0u8),
            bg: Seq::new(WIDTH as nat, |i: int| false),
        }
    }

    /// The buffers have the sizes of the screen.
    pub open spec fn wf(self) -> bool {
        self.screen.len() == SCREEN_DATA_SIZE && self.bg.len() == WIDTH
    }
}

/// The shade that two bits of a palette give, for colour number 0 to 3.
pub open spec fn palette_color(palette: u8, color_num: u8) -> Color {
    let hi: u8 = if color_num == 0 { 1 } else if color_num == 1 { 3 } else if color_num == 2 { 5 } else if color_num == 3 { 7 } else { 0 };
    let lo: u8 = if color_num == 0 { 0 } else if color_num == 1 { 2 } else if color_num == 2 { 4 } else if color_num == 3 { 6 } else { 0 };
    let c = bit_num(bit_of(palette, hi)) * 2 + bit_num(bit_of(palette, lo));
    if c == 0 { Color::White } else if c == 1 { Color::LightGray } else if c == 2 { Color::DarkGray } else { Color::Black }
}

/// The red, green and blue bytes of a shade.
pub open spec fn rgb(c: Color) -> (u8, u8, u8) {
    match c {
        Color::White => (255, 255, 255),
        Color::LightGray => (0xcc, 0xcc, 0xcc),
        Color::DarkGray => (0x77, 0x77, 0x77),
        Color::Black => (0, 0, 0),
    }
}

/// The screen with the pixel at byte `i` set to `c`.
pub open spec fn put_rgb(screen: Seq<u8>, i: int, c: (u8, u8, u8)) -> Seq<u8> {
    screen.update(i, c.0).update(i + 1, c.1).update(i + 2, c.2)
}

/// The number (0 to 3) of a pixel in a tile row, from its two bytes.
pub open spec fn pixel_number(data_1: u8, data_2: u8, bit: u8) -> u8 {
    (bit_num(bit_of(data_2, bit)) * 2 + bit_num(bit_of(data_1, bit))) as u8
}

/// The line being drawn.
pub open spec fn current_line(m: MemoryModel) -> u8 {
    m.read(0xff44)
}

/// Whether the window covers the current line.
pub open spec fn window_used(m: MemoryModel) -> bool {
    bit_of(m.read(0xff40), 5) && m.read(0xff4a) <= current_line(m)
}

/// The row within the background or the window map.
pub open spec fn tile_y(m: MemoryModel) -> u8 {
    if !window_used(m) {
        ((m.read(0xff42) as int + current_line(m) as int) % 256) as u8
    } else {
        ((current_line(m) as int - m.read(0xff4a) as int + 256) % 256) as u8
    }
}

/// The left edge of the window.
pub open spec fn window_left(m: MemoryModel) -> u8 {
    ((m.read(0xff4b) as int - 7 + 256) % 256) as u8
}

/// The column within the map that screen column `pixel` shows.
pub open spec fn tile_x(m: MemoryModel, pixel: int) -> u8 {
    if window_used(m) && pixel >= window_left(m) {
        ((pixel - window_left(m)) % 256) as u8
    } else {
        ((pixel + m.read(0xff43) as int) % 256) as u8
    }
}

/// The tile map in use.
pub open spec fn map_base(m: MemoryModel) -> u16 {
    let control = m.read(0xff40);
    if !window_used(m) {
        if bit_of(control, 3) { 0x9c00 } else { 0x9800 }
    } else {
        if bit_of(control, 6) { 0x9c00 } else { 0x9800 }
    }
}

/// The address of the bytes of the tile row that screen column `pixel` shows.
pub open spec fn tile_row_address(m: MemoryModel, pixel: int) -> u16 {
    let entry = (map_base(m) as int + (tile_y(m) as int / 8) * 32 + tile_x(m, pixel) as int / 8) as u16;
    let tile = m.read(entry) as int;
    let base: int = if bit_of(m.read(0xff40), 4) { 0x8000 + tile * 16 } else { 0x8800 + ((tile + 128) % 256) * 16 };
    (base + (tile_y(m) as int % 8) * 2) as u16
}

/// The shade of the background or window at screen column `pixel` of the current line.
pub open spec fn background_color(m: MemoryModel, pixel: int) -> Color {
    let address = tile_row_address(m, pixel);
    let data_1 = m.read(address);
    let data_2 = m.read((address + 1) as u16);
    let bit = (7 - tile_x(m, pixel) as int % 8) as u8;
    palette_color(m.read(0xff47), pixel_number(data_1, data_2, bit))
}

/// The screen after drawing the first `k` background pixels of the current line.
pub open spec fn tiles_drawn(screen: Seq<u8>, m: MemoryModel, k: nat) -> Seq<u8>
    decreases k,
{
    if k == 0 {
        screen
    } else {
        put_rgb(tiles_drawn(screen, m, (k - 1) as nat), current_line(m) as int * 480 + (k - 1) * 3,
            rgb(background_color(m, k - 1)))
    }
}

/// The address of the attributes of sprite `sprite` (0 to 39).
pub open spec fn sprite_address(sprite: int) -> u16 {
    (0xfe00 + sprite * 4) as u16
}

/// The top line of a sprite.
pub open spec fn sprite_y(m: MemoryModel, sprite: int) -> u8 {
    ((m.read(sprite_address(sprite)) as int - 16 + 256) % 256) as u8
}

/// The left column of a sprite.
pub open spec fn sprite_x(m: MemoryModel, sprite: int) -> u8 {
    ((m.read((sprite_address(sprite) + 1) as u16) as int - 8 + 256) % 256) as u8
}

/// The attribute byte of a sprite.
pub open spec fn sprite_attributes(m: MemoryModel, sprite: int) -> u8 {
    m.read((sprite_address(sprite) + 3) as u16)
}

/// The height of sprites: 16 in 8x16 mode, else 8.
pub open spec fn sprite_height(m: MemoryModel) -> int {
    if bit_of(m.read(0xff40), 2) { 16 } else { 8 }
}

/// Whether a sprite covers the current line.
pub open spec fn sprite_on_line(m: MemoryModel, sprite: int) -> bool {
    current_line(m) >= sprite_y(m, sprite) && current_line(m) < sprite_y(m, sprite) + sprite_height(m)
}

/// The byte offset of the sprite's row in its tile, flipped vertically when bit 6 is set.
pub open spec fn sprite_line(m: MemoryModel, sprite: int) -> int {
    let line = current_line(m) - sprite_y(m, sprite);
    (if bit_of(sprite_attributes(m, sprite), 6) { sprite_height(m) - line } else { line }) * 2
}

/// The address of the sprite's row.
pub open spec fn sprite_row_address(m: MemoryModel, sprite: int) -> u16 {
    (0x8000 + m.read((sprite_address(sprite) + 2) as u16) as int * 16 + sprite_line(m, sprite)) as u16
}

/// The shade of pixel `tile_pixel` (7 is the leftmost) of a sprite's row.
pub open spec fn sprite_color(m: MemoryModel, sprite: int, tile_pixel: int) -> Color {
    let attributes = sprite_attributes(m, sprite);
    let bit = (if bit_of(attributes, 5) { 7 - tile_pixel } else { tile_pixel }) as u8;
    let address = sprite_row_address(m, sprite);
    let palette = if bit_of(attributes, 4) { m.read(0xff49) } else { m.read(0xff48) };
    palette_color(palette, pixel_number(m.read(address), m.read((address + 1) as u16), bit))
}

/// The screen column of pixel `tile_pixel` of a sprite.
pub open spec fn sprite_column(m: MemoryModel, sprite: int, tile_pixel: int) -> int {
    sprite_x(m, sprite) + (7 - tile_pixel)
}

/// Whether pixel `tile_pixel` of a sprite is drawn: the sprite covers the
/// line, the pixel is not transparent, it lies on the screen, and either the
/// sprite is above the background or the background there has colour 0.
pub open spec fn sprite_pixel_drawn(m: MemoryModel, bg: Seq<bool>, sprite: int, tile_pixel: int) -> bool {
    let column = sprite_column(m, sprite, tile_pixel);
    &&& sprite_on_line(m, sprite)
    &&& sprite_color(m, sprite, tile_pixel) != Color::White
    &&& current_line(m) <= 143
    &&& column <= 159
    &&& (bg[column] || !bit_of(sprite_attributes(m, sprite), 7))
}

/// The screen after drawing pixels 7, 6, ..., 8 - k of a sprite.
pub open spec fn sprite_pixels_drawn(screen: Seq<u8>, m: MemoryModel, bg: Seq<bool>, sprite: int, k: nat) -> Seq<u8>
    decreases k,
{
    if k == 0 {
        screen
    } else {
        let before = sprite_pixels_drawn(screen, m, bg, sprite, (k - 1) as nat);
        let tile_pixel = 8 - k;
        if sprite_pixel_drawn(m, bg, sprite, tile_pixel) {
            put_rgb(before, current_line(m) as int * 480 + sprite_column(m, sprite, tile_pixel) * 3,
                rgb(sprite_color(m, sprite, tile_pixel)))
        } else {
            before
        }
    }
}

/// The screen after drawing sprites 0 to n - 1, in that order.
pub open spec fn sprites_drawn(screen: Seq<u8>, m: MemoryModel, bg: Seq<bool>, n: nat) -> Seq<u8>
    decreases n,
{
    if n == 0 {
        screen
    } else {
        sprite_pixels_drawn(sprites_drawn(screen, m, bg, (n - 1) as nat), m, bg, n - 1, 8)
    }
}

/// The picture after drawing the background of the current line.
pub open spec fn tiles_rendered(g: GpuModel, m: MemoryModel) -> GpuModel {
    if current_line(m) > 143 {
        g
    } else {
        GpuModel {
            screen: tiles_drawn(g.screen, m, WIDTH as nat),
            bg: Seq::new(WIDTH as nat, |p: int| background_color(m, p) == Color::White),
            ..g
        }
    }
}

/// The picture after drawing the current line: the background when bit 0 of
/// LCDC is set, then the sprites when bit 1 is set.
pub open spec fn scanline_drawn(g: GpuModel, m: MemoryModel) -> GpuModel {
    let control = m.read(0xff40);
    let g1 = if bit_of(control, 0) { tiles_rendered(g, m) } else { g };
    if bit_of(control, 1) { GpuModel { screen: sprites_drawn(g1.screen, m, g1.bg, 40), ..g1 } } else { g1 }
}

/// The mode that the LCD is in on a visible line, from the cycles left of it:
/// 2 (searching sprites), 3 (drawing) or 0 (horizontal blank).
pub open spec fn visible_mode(counter: i32) -> u8 {
    if counter >= 376 { 2 } else if counter >= 204 { 3 } else { 0 }
}

/// The STAT register with mode `mode` in its low two bits, the other bits kept.
pub open spec fn status_with_mode(status: u8, mode: u8) -> u8 {
    if mode == 1 {
        (status | bit_mask(0)) & !bit_mask(1)
    } else if mode == 2 {
        (status | bit_mask(1)) & !bit_mask(0)
    } else if mode == 3 {
        (status | bit_mask(1)) | bit_mask(0)
    } else {
        (status & !bit_mask(1)) & !bit_mask(0)
    }
}

/// Whether entering mode `mode` can request the LCD interrupt: the STAT bit
/// that enables it for that mode.
pub open spec fn mode_interrupt_enabled(status: u8, mode: u8) -> bool {
    if mode == 1 { bit_of(status, 4) } else if mode == 2 { bit_of(status, 5) } else if mode == 0 { bit_of(status, 3) } else { false }
}

/// The picture processor and memory after updating STAT: the mode, the
/// coincidence flag, and the LCD interrupts they request.
pub open spec fn lcd_status(g: GpuModel, m: MemoryModel) -> (GpuModel, MemoryModel) {
    let status = m.read(0xff41);
    if !bit_of(m.read(0xff40), 7) {
        (
            GpuModel { scanline_counter: SCANLINE_COUNTER_START as i32, ..g },
            m.with_rom(0xff44, 0).written(0xff41, (status & 252u8) | bit_mask(0)),
        )
    } else {
        let line = m.read(0xff44);
        let mode: u8 = if line >= 144 { 1 } else { visible_mode(g.scanline_counter) };
        let st1 = status_with_mode(status, mode);
        let m1 = if mode_interrupt_enabled(st1, mode) && status & 3u8 != mode { m.interrupt_requested(1) } else { m };
        if line == m1.read(0xff45) {
            let st2 = st1 | bit_mask(2);
            let m2 = if bit_of(st2, 6) { m1.interrupt_requested(1) } else { m1 };
            (g, m2.written(0xff41, st2))
        } else {
            (g, m1.written(0xff41, st1 & !bit_mask(2)))
        }
    }
}

/// The picture processor and memory after `cycles` cycles.
pub open spec fn graphics_step(g: GpuModel, m: MemoryModel, cycles: u8) -> (GpuModel, MemoryModel) {
    let (g1, m1) = lcd_status(g, m);
    if !bit_of(m1.read(0xff40), 7) {
        (g1, m1)
    } else {
        let counter = g1.scanline_counter - cycles;
        if counter <= 0 {
            let m2 = m1.with_rom(0xff44, ((m1.rom[0xff44] + 1) % 256) as u8);
            let line = m2.read(0xff44);
            let g2 = GpuModel { scanline_counter: SCANLINE_COUNTER_START as i32, ..g1 };
            if line == VERTICAL_BLANK_SCAN_LINE {
                (g2, m2.interrupt_requested(0))
            } else if line > VERTICAL_BLANK_SCAN_LINE_MAX {
                (g2, m2.with_rom(0xff44, 0))
            } else if line < VERTICAL_BLANK_SCAN_LINE {
                (scanline_drawn(g2, m2), m2)
            } else {
                (g2, m2)
            }
        } else {
            (GpuModel { scanline_counter: counter as i32, ..g1 }, m1)
        }
    }
}

/// Combining two bits into a colour number.
proof fn lemma_two_bits_i32()
    by (bit_vector)
    ensures
        0i32 << 1i32 == 0i32,
        1i32 << 1i32 == 2i32,
        0i32 | 0i32 == 0i32,
        0i32 | 1i32 == 1i32,
        2i32 | 0i32 == 2i32,
        2i32 | 1i32 == 3i32,
{
}

/// Combining two bits into a colour number.
proof fn lemma_two_bits_u32()
    by (bit_vector)
    ensures
        0u32 << 1u32 == 0u32,
        1u32 << 1u32 == 2u32,
        0u32 | 0u32 == 0u32,
        0u32 | 1u32 == 1u32,
        2u32 | 0u32 == 2u32,
        2u32 | 1u32 == 3u32,
{
}

/// A signed byte widened to 16 bits.
proof fn lemma_signed_tile()
    by (bit_vector)
    ensures
        forall|x: u8| #[trigger] ((x as i8) as i16) == (if x < 128u8 { x as i16 } else { ((x as i16) - 256i16) as i16 }),
{
}

/// A sprite that does not cover the line draws nothing.
proof fn lemma_sprite_off_line(screen: Seq<u8>, m: MemoryModel, bg: Seq<bool>, sprite: int, k: nat)
    requires
        !sprite_on_line(m, sprite),
    ensures
        sprite_pixels_drawn(screen, m, bg, sprite, k) == screen,
    decreases k,
{
    if k > 0 {
        lemma_sprite_off_line(screen, m, bg, sprite, (k - 1) as nat);
    }
}

impl Gpu {
    /// A black screen, a scanline about to start.
    pub fn new() -> (r: Gpu)
        ensures
            r@ == GpuModel::fresh(),
            r@.wf(),
    {
        let mut screen_data: Vec<u8> = Vec::new();
        let mut i: u32 = 0;
        while i < SCREEN_DATA_SIZE
            invariant
                i <= SCREEN_DATA_SIZE,
                screen_data@.len() == i,
                forall|j: int| 0 <= j < i ==> screen_data@[j] == 0u8,
            decreases SCREEN_DATA_SIZE - i,
        {
            screen_data.push(0);
            i += 1;
        }
        let mut scanline_bg: Vec<bool> = Vec::new();
        let mut k: u16 = 0;
        while k < WIDTH
            invariant
                k <= WIDTH,
                scanline_bg@.len() == k,
                forall|j: int| 0 <= j < k ==> scanline_bg@[j] == false,
            decreases WIDTH - k,
        {
            scanline_bg.push(false);
            k += 1;
        }
        assert(screen_data@ =~= Seq::new(SCREEN_DATA_SIZE as nat, |i: int| 0u8));
        assert(scanline_bg@ =~= Seq::new(WIDTH as nat, |i: int| false));
        Gpu {
            scanline_counter: SCANLINE_COUNTER_START as i32,
            screen_data,
            scanline_bg,
        }
    }

    /// The shade that colour number `color_num` has in the palette at `address`.
    pub fn get_color(memory: &Memory, address: u16, color_num: u8) -> (r: Color)
        requires
            memory@.readable(address),
        ensures
            r == palette_color(memory@.read(address), color_num),
    {
        proof { lemma_two_bits_i32(); }
        let palette: u8 = memory.read_from_memory(address);

        let (hi, lo): (u8, u8) = match color_num {
            0 => (1, 0),
            1 => (3, 2),
            2 => (5, 4),
            3 => (7, 6),
            _ => (0, 0),
        };

        let mut color: i32 = (if bit_logic::check_bit(palette, hi) { 1 } else { 0 } << 1);
        color |= if bit_logic::check_bit(palette, lo) { 1 } else { 0 };

        match color {
            0 => Color::White,
            1 => Color::LightGray,
            2 => Color::DarkGray,
            3 => Color::Black,
            _ => Color::White,
        }
    }

    /// The shade of the background or window at column `pixel` of the current
    /// line, from the registers that drawing the line reads once.
    #[verifier::rlimit(100)]
    fn background_pixel(
        memory: &Memory,
        pixel: u16,
        unsig: bool,
        scroll_x: u8,
        window_x: u8,
        using_window: bool,
        tile_data: u16,
        background_memory: u16,
        y_pos: u8,
        tile_row: u16,
    ) -> (color: Color)
        requires
            memory@.structural(),
            pixel < WIDTH,
            scroll_x == memory@.read(0xff43),
            window_x == window_left(memory@),
            using_window == window_used(memory@),
            unsig == bit_of(memory@.read(0xff40), 4),
            tile_data == (if unsig { 0x8000u16 } else { 0x8800u16 }),
            background_memory == map_base(memory@),
            y_pos == tile_y(memory@),
            tile_row == (y_pos as int / 8) * 32,
        ensures
            color == background_color(memory@, pixel as int),
    {
        let ghost m = memory@;
        proof {
            lemma_word_bytes();
            lemma_two_bits_i32();
            lemma_signed_tile();
        }
        let mut x_pos: u8 = pixel.wrapping_add(scroll_x as u16) as u8;
        if using_window && pixel >= (window_x as u16) {
            x_pos = pixel.wrapping_sub(window_x as u16) as u8;
        }
        proof {
            let sum: u16 = pixel.wrapping_add(scroll_x as u16);
            let diff: u16 = pixel.wrapping_sub(window_x as u16);
            assert(sum as u8 == (sum % 256u16) as u8);
            assert(diff as u8 == (diff % 256u16) as u8);
            if using_window && pixel >= (window_x as u16) {
                assert(diff == pixel - window_x);
            } else {
                assert(sum == pixel + scroll_x);
            }
        }
        assert(x_pos == tile_x(m, pixel as int));
        let tile_column: u16 = (x_pos / 8) as u16;
        let tile_address: u16 = background_memory.wrapping_add(tile_row).wrapping_add(tile_column);
        let tile_num: i16 = if unsig {
            memory.read_from_memory(tile_address) as i16
        } else {
            (memory.read_from_memory(tile_address) as i8) as i16
        };
        let mut tile_location: u16 = tile_data;
        if unsig {
            tile_location += tile_num.wrapping_mul(16) as u16;
        } else {
            tile_location += tile_num.wrapping_add(128).wrapping_mul(16) as u16;
        }
        let mut line: u8 = y_pos % 8;
        line *= 2;
        proof {
            let entry = (map_base(m) as int + (tile_y(m) as int / 8) * 32 + tile_x(m, pixel as int) as int / 8) as u16;
            assert(tile_address == entry);
            let tile = m.read(entry) as int;
            if unsig {
                assert(tile_location == 0x8000 + tile * 16);
            } else {
                assert(tile_location == 0x8800 + ((tile + 128) % 256) * 16);
            }
        }
        let (data_1, data_2): (u8, u8) = {
            let temp_address: u16 = tile_location.wrapping_add(line as u16);
            assert(temp_address == tile_row_address(m, pixel as int));
            (memory.read_from_memory(temp_address), memory.read_from_memory(temp_address.wrapping_add(1)))
        };

        let mut color_bit: i32 = (x_pos % 8) as i32;
        color_bit = color_bit.wrapping_sub(7);
        color_bit = color_bit.wrapping_mul(-1);
        let mut color_num: i32 = if bit_logic::check_bit(data_2, color_bit as u8) { 1 } else { 0 };
        color_num <<= 1;
        color_num |= if bit_logic::check_bit(data_1, color_bit as u8) { 1 } else { 0 };

        Gpu::get_color(memory, 0xff47, color_num as u8)
    }

    /// The shade of pixel `tile_pixel` of a sprite's row, from the row's two
    /// bytes and the sprite's attributes.
    fn sprite_pixel(
        memory: &Memory,
        sprite: u8,
        tile_pixel: u8,
        data_1: u8,
        data_2: u8,
        attributes: u8,
        x_flip: bool,
    ) -> (color: Color)
        requires
            memory@.structural(),
            sprite < 40,
            tile_pixel < 8,
            attributes == sprite_attributes(memory@, sprite as int),
            x_flip == bit_of(attributes, 5),
            data_1 == memory@.read(sprite_row_address(memory@, sprite as int)),
            data_2 == memory@.read((sprite_row_address(memory@, sprite as int) + 1) as u16),
        ensures
            color == sprite_color(memory@, sprite as int, tile_pixel as int),
    {
        proof { lemma_two_bits_u32(); }
        let mut color_bit: i32 = tile_pixel as i32;
        if x_flip {
            color_bit -= 7;
            assert(-7 <= color_bit <= 0);
            assert(color_bit * -1 == -color_bit) by (nonlinear_arith);
            color_bit *= -1;
        }
        assert(0 <= color_bit < 8);
        let mut color_num: u32 = if bit_logic::check_bit(data_2, color_bit as u8) { 1 } else { 0 };
        color_num <<= 1;
        color_num |= if bit_logic::check_bit(data_1, color_bit as u8) { 1 } else { 0 };

        let color_address: u16 = if bit_logic::check_bit(attributes, 4) { 0xff49 } else { 0xff48 };
        Gpu::get_color(memory, color_address, color_num as u8)
    }

    /// Draws the sprites that cover the current line, in order, each pixel
    /// where it is not transparent and either above the background or over
    /// background colour 0.
    #[verifier::rlimit(100)]
    pub fn render_sprites(&mut self, memory: &Memory)
        requires
            old(self)@.wf(),
            memory@.structural(),
        ensures
            final(self)@.wf(),
            final(self).scanline_counter == old(self).scanline_counter,
            final(self)@.bg == old(self)@.bg,
            final(self)@.screen == sprites_drawn(old(self)@.screen, memory@, old(self)@.bg, 40),
    {
        let ghost m = memory@;
        let ghost start = self@;
        let use_8x16: bool = bit_logic::check_bit(memory.read_from_memory(0xff40), 2);
        for sprite in 0..40u8
            invariant
                m == memory@,
                m.structural(),
                start == old(self)@,
                start.wf(),
                self@.wf(),
                self.scanline_counter == start.scanline_counter,
                self@.bg == start.bg,
                use_8x16 == bit_of(m.read(0xff40), 2),
                self@.screen == sprites_drawn(start.screen, m, start.bg, sprite as nat),
        {
            let ghost before = self@.screen;
            let index: u8 = sprite * 4;
            let temp_address: u16 = 0xfe00 + (index as u16);
            let (y_pos, x_pos, tile_location, attributes): (u8, u8, u8, u8) =
                (memory.read_from_memory(temp_address).wrapping_sub(16),
                memory.read_from_memory(temp_address + 1).wrapping_sub(8),
                memory.read_from_memory(temp_address + 2),
                memory.read_from_memory(temp_address + 3));

            let y_flip: bool = bit_logic::check_bit(attributes, 6);
            let x_flip: bool = bit_logic::check_bit(attributes, 5);
            let priority: bool = !bit_logic::check_bit(attributes, 7);
            let scanline: i32 = memory.read_from_memory(0xff44) as i32;

            let y_size: i32 = if use_8x16 { 16 } else { 8 };

            if (scanline >= (y_pos as i32)) && (scanline < ((y_pos as i32).wrapping_add(y_size))) {
                let mut line: i32 = scanline.wrapping_sub(y_pos as i32);
                assert(0 <= line < y_size <= 16);

                if y_flip {
                    line -= y_size;
                    assert(-16 <= line < 0);
                    line = -line;
                }
                assert(0 <= line <= 16);

                line *= 2;
                let data_address: u16 = 0x8000 + (tile_location as u16).wrapping_mul(16) + line as u16;
                assert(temp_address == sprite_address(sprite as int));
                assert(y_pos == sprite_y(m, sprite as int));
                assert(attributes == sprite_attributes(m, sprite as int));
                assert(scanline == current_line(m));
                assert(y_size == sprite_height(m));
                assert(line == sprite_line(m, sprite as int));
                assert(0 <= line <= 32);
                assert(data_address == sprite_row_address(m, sprite as int));
                let (data_1, data_2): (u8, u8) = (memory.read_from_memory(data_address), memory.read_from_memory(data_address.wrapping_add(1)));
                for k in 0..8u8
                    invariant
                        m == memory@,
                        m.structural(),
                        start.wf(),
                        self@.wf(),
                        sprite < 40,
                        self.scanline_counter == start.scanline_counter,
                        self@.bg == start.bg,
                        sprite_on_line(m, sprite as int),
                        scanline == current_line(m),
                        x_pos == sprite_x(m, sprite as int),
                        attributes == sprite_attributes(m, sprite as int),
                        x_flip == bit_of(attributes, 5),
                        priority == !bit_of(attributes, 7),
                        data_1 == m.read(sprite_row_address(m, sprite as int)),
                        data_2 == m.read((sprite_row_address(m, sprite as int) + 1) as u16),
                        before == sprites_drawn(start.screen, m, start.bg, sprite as nat),
                        self@.screen == sprite_pixels_drawn(before, m, start.bg, sprite as int, k as nat),
                {
                    let tile_pixel: u8 = 7 - k;
                    let color: Color = Gpu::sprite_pixel(memory, sprite, tile_pixel, data_1, data_2, attributes, x_flip);

                    if !matches!(color, Color::White) {
                        let x_pix: u32 = 7_u32.wrapping_sub(tile_pixel as u32);

                        let pixel: u32 = (x_pos as u32).wrapping_add(x_pix);
                        if !(!(0..=143).contains(&scanline) || (pixel > 159)) {
                            if self.scanline_bg[pixel as usize] || priority {
                                let y: i64 = (scanline as i64).wrapping_mul(WIDTH as i64).wrapping_mul(3);
                                let x: i64 = (pixel as i64).wrapping_mul(3);
                                let xy: i64 = x.wrapping_add(y);
                                self.paint(xy as usize, color);
                            }
                        }
                    }
                }
            } else {
                proof { lemma_sprite_off_line(before, m, start.bg, sprite as int, 8); }
            }
        }
    }

    /// Writes the red, green and blue bytes of `color` at byte `xy` of the screen.
    fn paint(&mut self, xy: usize, color: Color)
        requires
            old(self)@.wf(),
            xy + 2 < SCREEN_DATA_SIZE,
        ensures
            final(self)@ == (GpuModel { screen: put_rgb(old(self)@.screen, xy as int, rgb(color)), ..old(self)@ }),
            final(self)@.wf(),
    {
        let (red, green, blue): (u8, u8, u8) = match color {
            Color::White => (255, 255, 255),
            Color::LightGray => (0xcc, 0xcc, 0xcc),
            Color::DarkGray => (0x77, 0x77, 0x77),
            _ => (0, 0, 0),
        };
        self.screen_data.set(xy, red);
        self.screen_data.set(xy + 1, green);
        self.screen_data.set(xy + 2, blue);
    }

    /// Draws the background, or the window where it covers the line, on the
    /// current line, and records which of its pixels have colour 0.
    #[verifier::rlimit(100)]
    pub fn render_tiles(&mut self, memory: &Memory)
        requires
            old(self)@.wf(),
            memory@.structural(),
        ensures
            final(self)@.wf(),
            final(self).scanline_counter == old(self).scanline_counter,
            current_line(memory@) > 143 ==> final(self)@ == old(self)@,
            current_line(memory@) <= 143 ==> final(self)@.screen == tiles_drawn(old(self)@.screen, memory@, WIDTH as nat),
            current_line(memory@) <= 143 ==> final(self)@.bg == Seq::new(WIDTH as nat, |p: int| background_color(memory@, p) == Color::White),
    {
        let ghost m = memory@;
        let mut unsig: bool = true;
        let (lcd_control, scroll_y, scroll_x, window_y, window_x): (u8, u8, u8, u8, u8) = (memory.read_from_memory(0xff40), memory.read_from_memory(0xff42), memory.read_from_memory(0xff43), memory.read_from_memory(0xff4a), memory.read_from_memory(0xff4b).wrapping_sub(7));

        let mut using_window: bool = false;

        let ff44: u8 = memory.read_from_memory(0xff44);
        if bit_logic::check_bit(lcd_control, 5) && window_y <= ff44 {
            using_window = true;
        }

        let tile_data: u16 = if bit_logic::check_bit(lcd_control, 4) {
            0x8000
        } else {
            unsig = false;
            0x8800
        };

        let background_memory: u16 = if !using_window {
            if bit_logic::check_bit(lcd_control, 3) {
                0x9c00
            } else {
                0x9800
            }
        } else if bit_logic::check_bit(lcd_control, 6) {
            0x9c00
        } else {
            0x9800
        };

        let y_pos: u8 = if !using_window {
            scroll_y.wrapping_add(ff44)
        } else {
            ff44.wrapping_sub(window_y)
        };

        let tile_row: u16 = ((y_pos as u16) / 8).wrapping_mul(32);
        let ghost start = self@;
        for pixel in 0..WIDTH
            invariant
                m == memory@,
                m.structural(),
                start == old(self)@,
                start.wf(),
                self@.wf(),
                self.scanline_counter == start.scanline_counter,
                lcd_control == m.read(0xff40),
                scroll_x == m.read(0xff43),
                window_x == window_left(m),
                ff44 == current_line(m),
                using_window == window_used(m),
                unsig == bit_of(lcd_control, 4),
                tile_data == (if unsig { 0x8000u16 } else { 0x8800u16 }),
                background_memory == map_base(m),
                y_pos == tile_y(m),
                tile_row == (y_pos as int / 8) * 32,
                ff44 > 143 ==> self@ == start,
                ff44 <= 143 ==> self@.screen == tiles_drawn(start.screen, m, pixel as nat),
                ff44 <= 143 ==> forall|p: int| 0 <= p < pixel ==> self@.bg[p] == (background_color(m, p) == Color::White),
                forall|p: int| pixel <= p < WIDTH ==> self@.bg[p] == start.bg[p],
        {
            let color: Color = Gpu::background_pixel(memory, pixel, unsig, scroll_x, window_x, using_window, tile_data, background_memory, y_pos, tile_row);
            let finally: u8 = ff44;
            if !(finally > 143 || pixel > 159) {
                self.scanline_bg.set(pixel as usize, matches!(color, Color::White));

                let y: u32 = (finally as u32).wrapping_mul(WIDTH as u32).wrapping_mul(3);
                let x: u32 = (pixel as u32).wrapping_mul(3);
                let xy: u32 = x.wrapping_add(y);
                assert(xy == ff44 as int * 480 + pixel as int * 3);
                self.paint(xy as usize, color);
            }
        }
    }

    /// Draws the current line: the background, then the sprites, as LCDC enables them.
    pub fn draw_scanline(&mut self, memory: &Memory)
        requires
            old(self)@.wf(),
            memory@.structural(),
        ensures
            final(self)@ == scanline_drawn(old(self)@, memory@),
            final(self)@.wf(),
    {
        let control: u8 = memory.read_from_memory(0xff40);
        if bit_logic::check_bit(control, 0) {
            self.render_tiles(memory);
        }
        if bit_logic::check_bit(control, 1) {
            self.render_sprites(memory);
        }
    }

    /// Whether the LCD is on (bit 7 of LCDC).
    pub fn is_lcd_enabled(&self, memory: &Memory) -> (r: bool)
        requires
            memory@.structural(),
        ensures
            r == bit_of(memory@.read(0xff40), 7),
    {
        bit_logic::check_bit(memory.read_from_memory(0xff40), 7)
    }

    /// Updates STAT: the mode, the coincidence flag, and the LCD interrupts
    /// they request; with the LCD off, resets the line and the scanline timer.
    pub fn set_lcd_status(&mut self, memory: &mut Memory)
        requires
            old(memory)@.structural(),
        ensures
            (final(self)@, final(memory)@) == lcd_status(old(self)@, old(memory)@),
            final(memory)@.structural(),
    {
        let mut status: u8 = memory.read_from_memory(0xff41);
        if !self.is_lcd_enabled(memory) {
            self.scanline_counter = SCANLINE_COUNTER_START as i32;
            memory.rom.set(0xff44, 0);
            status &= 252;
            status = bit_logic::set_bit(status, 0);
            let _ = memory.write_to_memory(0xff41, status);
            return;
        }
        let current_line: u8 = memory.read_from_memory(0xff44);
        let current_mode: u8 = status & 0x3;
        let mode: u8;
        let mut req_int: bool = false;

        if current_line >= 144 {
            mode = 1;
            status = bit_logic::set_bit(status, 0);
            status = bit_logic::reset_bit(status, 1);
            req_int = bit_logic::check_bit(status, 4);
        } else {
            let mode_2_bounds: i32 = 376;
            let mode_3_bounds: i32 = 204;
            if self.scanline_counter >= mode_2_bounds {
                mode = 2;
                status = bit_logic::set_bit(status, 1);
                status = bit_logic::reset_bit(status, 0);
                req_int = bit_logic::check_bit(status, 5);
            } else if self.scanline_counter >= mode_3_bounds {
                mode = 3;
                status = bit_logic::set_bit(status, 1);
                status = bit_logic::set_bit(status, 0);
            } else {
                mode = 0;
                status = bit_logic::reset_bit(status, 1);
                status = bit_logic::reset_bit(status, 0);
                req_int = bit_logic::check_bit(status, 3);
            }
        }
        if req_int && current_mode != mode {
            memory.request_interrupt(1);
        }
        if current_line == memory.read_from_memory(0xff45) {
            status = bit_logic::set_bit(status, 2);
            if bit_logic::check_bit(status, 6) {
                memory.request_interrupt(1);
            }
        } else {
            status = bit_logic::reset_bit(status, 2);
        }
        let _ = memory.write_to_memory(0xff41, status);
    }

    /// Advances the picture processor by `cycles` cycles: updates STAT, and at
    /// the end of a scanline moves to the next line, drawing it when visible
    /// and requesting the vertical blank interrupt on line 144.
    pub fn update_graphics(&mut self, memory: &mut Memory, cycles: u8)
        requires
            old(self)@.wf(),
            old(memory)@.structural(),
            old(self).scanline_counter - cycles >= i32::MIN,
        ensures
            (final(self)@, final(memory)@) == graphics_step(old(self)@, old(memory)@, cycles),
            final(self)@.wf(),
            final(memory)@.structural(),
    {
        self.set_lcd_status(memory);
        if self.is_lcd_enabled(&memory) {
            self.scanline_counter -= cycles as i32;
        } else {
            return;
        }
        if self.scanline_counter <= 0 {
            let current_line: u8 = {
                let line: u8 = memory.rom[0xff44];
                memory.rom.set(0xff44, line.wrapping_add(1));
                memory.read_from_memory(0xff44)
            };
            self.scanline_counter = SCANLINE_COUNTER_START as i32;
            if current_line == VERTICAL_BLANK_SCAN_LINE {
                memory.request_interrupt(0);
            } else if current_line > VERTICAL_BLANK_SCAN_LINE_MAX {
                memory.rom.set(0xff44, 0);
            } else if current_line < VERTICAL_BLANK_SCAN_LINE {
                self.draw_scanline(&memory);
            }
        }
    }
}

} // verus!
