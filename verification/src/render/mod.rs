//! The frame renderer: a picture as a function of the video memory at the
//! end of a field. The background is the first nametable; each sprite
//! covers it where the sprite's pixel is not transparent, a sprite with a
//! lower number covering one with a higher number.

pub mod frame;

use vstd::prelude::*;
use crate::ppu::ppu::{PPU, PpuState};
use crate::render::frame::Frame;

verus! {

/// The two-bit value of one pixel of a tile. A tile is sixteen bytes from
/// `base`: eight rows of the low bit plane, then eight rows of the high
/// one, the leftmost pixel in the top bit of each byte.
pub open spec fn tile_value(chr: Seq<u8>, base: int, row: int, col: int) -> u8 {
    (((chr[base + row + 8] >> ((7 - col) as u8)) & 1) << 1) | ((chr[base + row] >> ((7 - col) as u8))
        & 1)
}

/// The number of the background palette of a tile. One attribute byte
/// serves a block of four by four tiles, two bits for each quarter of it.
pub open spec fn bg_palette_number(p: PpuState, tile_column: int, tile_row: int) -> u8 {
    let attr_byte = p.vram[0x3C0 + tile_row / 4 * 8 + tile_column / 4];
    let right = tile_column % 4 / 2 == 1;
    let lower = tile_row % 4 / 2 == 1;
    if !right && !lower {
        attr_byte & 0b11
    } else if right && !lower {
        (attr_byte >> 2) & 0b11
    } else if !right && lower {
        (attr_byte >> 4) & 0b11
    } else {
        (attr_byte >> 6) & 0b11
    }
}

/// The four colours of a background tile: the shared backdrop colour and
/// the three colours of the tile's palette.
pub open spec fn bg_colours(p: PpuState, tile_column: int, tile_row: int) -> Seq<u8> {
    let start = 1 + bg_palette_number(p, tile_column, tile_row) * 4;
    seq![p.palette[0], p.palette[start], p.palette[start + 1], p.palette[start + 2]]
}

/// The four colours of a sprite palette; the first stands for
/// "transparent" and is never drawn.
pub open spec fn sprite_colours(p: PpuState, palette_i: u8) -> Seq<u8> {
    let start = 0x11 + palette_i * 4;
    seq![0u8, p.palette[start], p.palette[start + 1], p.palette[start + 2]]
}

/// The colour of the background at a pixel.
pub open spec fn background_pixel(p: PpuState, x: int, y: int) -> u8 {
    let tile = p.vram[y / 8 * 32 + x / 8];
    let value = tile_value(p.chr_rom, p.control.background_bank() + tile * 16, y % 8, x % 8);
    bg_colours(p, x / 8, y / 8)[value as int]
}

/// The colour that sprite `n` gives a pixel, if it covers the pixel and is
/// not transparent there. A sprite is four bytes of sprite memory: row,
/// tile, attributes, column. Attribute bits 0 and 1 pick the palette, bit
/// 6 mirrors the tile left to right and bit 7 top to bottom.
pub open spec fn sprite_pixel(p: PpuState, n: int, x: int, y: int) -> Option<u8> {
    let top = p.oam_data[4 * n];
    let tile = p.oam_data[4 * n + 1];
    let attributes = p.oam_data[4 * n + 2];
    let left = p.oam_data[4 * n + 3];
    if left <= x < left + 8 && top <= y < top + 8 {
        let col = if (attributes >> 6) & 1 == 1 {
            7 - (x - left)
        } else {
            x - left
        };
        let row = if (attributes >> 7) & 1 == 1 {
            7 - (y - top)
        } else {
            y - top
        };
        let value = tile_value(p.chr_rom, p.control.sprite_bank() + tile * 16, row, col);
        if value == 0 {
            None
        } else {
            Some(sprite_colours(p, attributes & 0b11)[value as int])
        }
    } else {
        None
    }
}

/// The colour of a pixel when only the sprites from `n` on are drawn over
/// the background.
pub open spec fn pixel_from(p: PpuState, n: int, x: int, y: int) -> u8
    decreases 64 - n,
{
    if n >= 64 {
        background_pixel(p, x, y)
    } else {
        match sprite_pixel(p, n, x, y) {
            Some(colour) => colour,
            None => pixel_from(p, n + 1, x, y),
        }
    }
}

/// The colour of a pixel of the finished picture.
pub open spec fn pixel(p: PpuState, x: int, y: int) -> u8 {
    pixel_from(p, 0, x, y)
}

fn tile_pixel(chr: &Vec<u8>, base: usize, row: usize, col: usize) -> (value: u8)
    requires
        base + 15 < chr.len(),
        row < 8,
        col < 8,
    ensures
        value == tile_value(chr@, base as int, row as int, col as int),
        value < 4,
{
    let upper = chr[base + row];
    let lower = chr[base + row + 8];
    let shift: u8 = (7 - col) as u8;
    assert((((lower >> shift) & 1) << 1) | ((upper >> shift) & 1) < 4) by (bit_vector);
    (((lower >> shift) & 1) << 1) | ((upper >> shift) & 1)
}

/// The four colours of the background tile in column `tile_column` of
/// row `tile_row` of the first nametable.
pub fn bg_pallette(ppu: &PPU, tile_column: usize, tile_row: usize) -> (colours: [u8; 4])
    requires
        tile_column < 32,
        tile_row < 30,
    ensures
        colours@ == bg_colours(ppu@, tile_column as int, tile_row as int),
{
    let attr_table_i = tile_row / 4 * 8 + tile_column / 4;
    let attr_byte = ppu.vram[0x3c0 + attr_table_i];
    let right = tile_column % 4 / 2 == 1;
    let lower = tile_row % 4 / 2 == 1;
    let pallet_i: u8 = if !right && !lower {
        attr_byte & 0b11
    } else if right && !lower {
        (attr_byte >> 2) & 0b11
    } else if !right && lower {
        (attr_byte >> 4) & 0b11
    } else {
        (attr_byte >> 6) & 0b11
    };
    assert(attr_byte & 0b11 < 4 && (attr_byte >> 2) & 0b11 < 4 && (attr_byte >> 4) & 0b11 < 4 && (
    attr_byte >> 6) & 0b11 < 4) by (bit_vector);
    let start: usize = 1 + (pallet_i as usize) * 4;
    let colours = [
        ppu.palette[0],
        ppu.palette[start],
        ppu.palette[start + 1],
        ppu.palette[start + 2],
    ];
    assert(colours@ =~= bg_colours(ppu@, tile_column as int, tile_row as int));
    colours
}

/// The four colours of sprite palette `palette_i`.
pub fn sprite_palette(ppu: &PPU, palette_i: u8) -> (colours: [u8; 4])
    requires
        palette_i < 4,
    ensures
        colours@ == sprite_colours(ppu@, palette_i),
{
    let start = 0x11 + (palette_i * 4) as usize;
    let colours = [0, ppu.palette[start], ppu.palette[start + 1], ppu.palette[start + 2]];
    assert(colours@ =~= sprite_colours(ppu@, palette_i));
    colours
}

fn background_colour(ppu: &PPU, x: usize, y: usize) -> (colour: u8)
    requires
        ppu.chr_rom@.len() >= 0x2000,
        x < 256,
        y < 240,
    ensures
        colour == background_pixel(ppu@, x as int, y as int),
{
    let bank = ppu.control.background_pattern_addr();
    let tile = ppu.vram[y / 8 * 32 + x / 8];
    let value = tile_pixel(&ppu.chr_rom, bank as usize + tile as usize * 16, y % 8, x % 8);
    let colours = bg_pallette(ppu, x / 8, y / 8);
    colours[value as usize]
}

fn sprite_colour(ppu: &PPU, n: usize, x: usize, y: usize) -> (colour: Option<u8>)
    requires
        ppu.chr_rom@.len() >= 0x2000,
        n < 64,
        x < 256,
        y < 240,
    ensures
        colour == sprite_pixel(ppu@, n as int, x as int, y as int),
{
    let top = ppu.oam_data[4 * n] as usize;
    let tile = ppu.oam_data[4 * n + 1];
    let attributes = ppu.oam_data[4 * n + 2];
    let left = ppu.oam_data[4 * n + 3] as usize;
    if left <= x && x < left + 8 && top <= y && y < top + 8 {
        let flip_vertical = (attributes >> 7) & 1 == 1;
        let flip_horizontal = (attributes >> 6) & 1 == 1;
        let col = if flip_horizontal {
            7 - (x - left)
        } else {
            x - left
        };
        let row = if flip_vertical {
            7 - (y - top)
        } else {
            y - top
        };
        let bank = ppu.control.sprite_pattern_addr();
        let value = tile_pixel(&ppu.chr_rom, bank as usize + tile as usize * 16, row, col);
        if value == 0 {
            None
        } else {
            assert(attributes & 0b11 < 4) by (bit_vector);
            let colours = sprite_palette(ppu, attributes & 0b11);
            Some(colours[value as usize])
        }
    } else {
        None
    }
}

fn pixel_colour(ppu: &PPU, x: usize, y: usize) -> (colour: u8)
    requires
        ppu.chr_rom@.len() >= 0x2000,
        x < 256,
        y < 240,
    ensures
        colour == pixel(ppu@, x as int, y as int),
{
    let mut n: usize = 0;
    while n < 64
        invariant
            n <= 64,
            ppu.chr_rom@.len() >= 0x2000,
            x < 256,
            y < 240,
            pixel(ppu@, x as int, y as int) == pixel_from(ppu@, n as int, x as int, y as int),
        decreases 64 - n,
    {
        match sprite_colour(ppu, n, x, y) {
            Some(colour) => {
                return colour;
            },
            None => {},
        }
        n += 1;
    }
    background_colour(ppu, x, y)
}

/// Draws the picture that the video memory describes into `frame`. A
/// frame of the wrong size is replaced by one of the right size.
pub fn render(ppu: &PPU, frame: &mut Frame)
    requires
        ppu.chr_rom@.len() >= 0x2000,
    ensures
        final(frame).wf(),
        forall|x: int, y: int|
            0 <= x < 256 && 0 <= y < 240 ==> #[trigger] final(frame).at(x, y) == pixel(ppu@, x, y),
{
    if frame.data.len() != 256 * 240 {
        *frame = Frame::new();
    }
    let mut k: usize = 0;
    while k < 256 * 240
        invariant
            k <= 256 * 240,
            frame.wf(),
            ppu.chr_rom@.len() >= 0x2000,
            forall|j: int| 0 <= j < k ==> #[trigger] frame.data@[j] == pixel(ppu@, j % 256, j / 256),
        decreases 256 * 240 - k,
    {
        let colour = pixel_colour(ppu, k % 256, k / 256);
        frame.data[k] = colour;
        k += 1;
    }
    assert forall|x: int, y: int| 0 <= x < 256 && 0 <= y < 240 implies #[trigger] frame.at(x, y)
        == pixel(ppu@, x, y) by {
        let j = y * 256 + x;
        assert(j % 256 == x && j / 256 == y);
        assert(frame.data@[j] == pixel(ppu@, j % 256, j / 256));
    }
}

} // verus!
