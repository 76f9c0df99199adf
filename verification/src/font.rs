//! The built-in hexadecimal font.

use vstd::prelude::*;

verus! {

/// Base address in the memory for the font
pub const FONT_ADDR: u16 = 0x50;

/// Number of bytes of one glyph
pub const GLYPH_SIZE: usize = 5;

/// Number of glyphs of the font
pub const GLYPH_COUNT: usize = 16;

/// Font of the console (digits from 0 to F), one row of pixels per byte
pub const FONT: [[u8; 5]; 16] = [
    [0xF0, 0x90, 0x90, 0x90, 0xF0],
    [0x20, 0x60, 0x20, 0x20, 0x70],
    [0xF0, 0x10, 0xF0, 0x80, 0xF0],
    [0xF0, 0x10, 0xF0, 0x10, 0xF0],
    [0x90, 0x90, 0xF0, 0x10, 0x10],
    [0xF0, 0x80, 0xF0, 0x10, 0xF0],
    [0xF0, 0x80, 0xF0, 0x90, 0xF0],
    [0xF0, 0x10, 0x20, 0x40, 0x40],
    [0xF0, 0x90, 0xF0, 0x90, 0xF0],
    [0xF0, 0x90, 0xF0, 0x10, 0xF0],
    [0xF0, 0x90, 0xF0, 0x90, 0x90],
    [0xE0, 0x90, 0xE0, 0x90, 0xE0],
    [0xF0, 0x80, 0x80, 0x80, 0xF0],
    [0xE0, 0x90, 0x90, 0x90, 0xE0],
    [0xF0, 0x80, 0xF0, 0x80, 0xF0],
    [0xF0, 0x80, 0xF0, 0x80, 0x80],
];

/// The byte of the font that lies `offset` bytes behind the font's base
/// address: row `offset % 5` of glyph `offset / 5`.
pub open spec fn font_byte(offset: int) -> u8
    recommends
        0 <= offset < 80,
{
    FONT[offset / 5][offset % 5]
}

/// Returns the memory address of a given digit
pub fn digit_addr(digit: u8) -> (addr: u16)
    ensures
        addr == FONT_ADDR + 5 * digit,
{
    FONT_ADDR + digit as u16 * 5
}

} // verus!
