//! How palettes give shades: to background colours and to sprite pixels.
use vstd::prelude::*;
use crate::bit_logic::bit_of;
use crate::gpu::{palette_color, pixel_number, sprite_address, sprite_attributes, sprite_color, sprite_row_address, Color};
use crate::memory::MemoryModel;

verus! {

/// The colour number (0 to 3) of pixel `tile_pixel` of a sprite's row, before
/// a palette gives it a shade.
pub open spec fn sprite_color_number(m: MemoryModel, sprite: int, tile_pixel: int) -> u8 {
    let attributes = sprite_attributes(m, sprite);
    let bit = (if bit_of(attributes, 5) { 7 - tile_pixel } else { tile_pixel }) as u8;
    let address = sprite_row_address(m, sprite);
    pixel_number(m.read(address), m.read((address + 1) as u16), bit)
}

/// The shade with number `c` (0 to 3), from lightest to darkest.
pub open spec fn shade_numbered(c: int) -> Color {
    if c == 0 { Color::White } else if c == 1 { Color::LightGray } else if c == 2 { Color::DarkGray } else { Color::Black }
}

/// The bits of a palette byte, two per colour number.
proof fn lemma_palette_bits(p: u8)
    by (bit_vector)
    ensures
        (((p >> 1u8) & 1u8 == 1u8) == (p % 4u8 >= 2u8)) && (((p >> 0u8) & 1u8 == 1u8) == (p % 2u8 == 1u8)),
        (((p >> 3u8) & 1u8 == 1u8) == ((p / 4u8) % 4u8 >= 2u8)) && (((p >> 2u8) & 1u8 == 1u8) == ((p / 4u8) % 2u8 == 1u8)),
        (((p >> 5u8) & 1u8 == 1u8) == ((p / 16u8) % 4u8 >= 2u8)) && (((p >> 4u8) & 1u8 == 1u8) == ((p / 16u8) % 2u8 == 1u8)),
        (((p >> 7u8) & 1u8 == 1u8) == ((p / 64u8) % 4u8 >= 2u8)) && (((p >> 6u8) & 1u8 == 1u8) == ((p / 64u8) % 2u8 == 1u8)),
{
}

/// A palette gives colour number `n` the shade numbered by bits 2n + 1 and
/// 2n of its byte: colour 0 the low two bits, colour 3 the high two.
pub proof fn lemma_palette_shade(p: u8, n: u8)
    requires
        n < 4,
    ensures
        n == 0 ==> palette_color(p, n) == shade_numbered(p as int % 4),
        n == 1 ==> palette_color(p, n) == shade_numbered((p as int / 4) % 4),
        n == 2 ==> palette_color(p, n) == shade_numbered((p as int / 16) % 4),
        n == 3 ==> palette_color(p, n) == shade_numbered((p as int / 64) % 4),
{
    lemma_palette_bits(p);
}

/// A sprite's pixel takes its shade from the palette at 0xff49 (OBP1) when
/// bit 4 of its attributes is set, from 0xff48 (OBP0) otherwise; so a change
/// of the other palette leaves it as it was.
pub proof fn lemma_sprite_palette(m1: MemoryModel, m2: MemoryModel, sprite: int, tile_pixel: int)
    requires
        0 <= sprite < 40,
        forall|a: u16| a != 0xff48 && a != 0xff49 ==> #[trigger] m1.read(a) == m2.read(a),
    ensures
        bit_of(sprite_attributes(m1, sprite), 4) ==>
            sprite_color(m1, sprite, tile_pixel) == palette_color(m1.read(0xff49), sprite_color_number(m1, sprite, tile_pixel)),
        !bit_of(sprite_attributes(m1, sprite), 4) ==>
            sprite_color(m1, sprite, tile_pixel) == palette_color(m1.read(0xff48), sprite_color_number(m1, sprite, tile_pixel)),
        bit_of(sprite_attributes(m1, sprite), 4) && m1.read(0xff49) == m2.read(0xff49) ==>
            sprite_color(m1, sprite, tile_pixel) == sprite_color(m2, sprite, tile_pixel),
        !bit_of(sprite_attributes(m1, sprite), 4) && m1.read(0xff48) == m2.read(0xff48) ==>
            sprite_color(m1, sprite, tile_pixel) == sprite_color(m2, sprite, tile_pixel),
{
    let base = sprite_address(sprite);
    assert(m1.read(base) == m2.read(base));
    assert(m1.read((base + 2) as u16) == m2.read((base + 2) as u16));
    assert(m1.read((base + 3) as u16) == m2.read((base + 3) as u16));
    assert(m1.read(0xff40) == m2.read(0xff40));
    assert(m1.read(0xff44) == m2.read(0xff44));
    let address = sprite_row_address(m1, sprite);
    assert(address == sprite_row_address(m2, sprite));
    assert(m1.read(address) == m2.read(address));
    assert(m1.read((address + 1) as u16) == m2.read((address + 1) as u16));
}

} // verus!
