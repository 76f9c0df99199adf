//! The monochrome display: its geometry and what drawing a sprite means.

use vstd::prelude::*;

verus! {

/// Width of the buffer
pub const BUFF_WIDTH: usize = 64;

/// Height of the buffer
pub const BUFF_HEIGHT: usize = 32;

/// Total size of the buffer
pub const BUFF_SIZE: usize = BUFF_HEIGHT * BUFF_WIDTH;

/// Width of a sprite row in pixels
pub const SPRITE_WIDTH: usize = 8;

/// The column of the pixel stored at index `p` of the buffer.
pub open spec fn column_of(p: int) -> int {
    p % (BUFF_WIDTH as int)
}

/// The row of the pixel stored at index `p` of the buffer.
pub open spec fn row_of(p: int) -> int {
    p / (BUFF_WIDTH as int)
}

/// The display with every pixel off.
pub open spec fn blank() -> Seq<bool> {
    Seq::new(BUFF_SIZE as nat, |p: int| false)
}

/// Whether column `col` of a sprite row is set; column 0 is the leftmost
/// pixel and the most significant bit of the byte.
pub open spec fn row_bit(row: u8, col: int) -> bool
    recommends
        0 <= col < 8,
{
    (row >> ((7 - col) as u8)) & 1 == 1
}

/// A sprite together with the place where it is drawn: `rows` bytes of
/// `memory` from address `base` on, with the top-left corner at (`x0`, `y0`).
pub struct Sprite {
    pub memory: Seq<u8>,
    pub base: int,
    pub rows: int,
    pub x0: int,
    pub y0: int,
}

impl Sprite {
    /// Whether the sprite has a set bit over the pixel at (`px`, `py`).
    pub open spec fn covers(self, px: int, py: int) -> bool {
        &&& self.x0 <= px < self.x0 + 8
        &&& self.y0 <= py < self.y0 + self.rows
        &&& row_bit(self.memory[self.base + (py - self.y0)], px - self.x0)
    }

    /// Whether the sprite has a set bit over the pixel stored at index `p`
    /// of the buffer. Pixels are stored row by row, so whatever of the sprite
    /// reaches past the right or the bottom edge covers nothing.
    pub open spec fn covers_index(self, p: int) -> bool {
        self.covers(column_of(p), row_of(p))
    }

    /// The sprite alone on an otherwise blank display.
    pub open spec fn image(self) -> Seq<bool> {
        Seq::new(BUFF_SIZE as nat, |p: int| self.covers_index(p))
    }

    /// The display after the sprite was drawn onto `display`: every pixel
    /// under a set bit of the sprite is flipped, every other pixel is kept.
    pub open spec fn drawn_on(self, display: Seq<bool>) -> Seq<bool> {
        Seq::new(BUFF_SIZE as nat, |p: int| display[p] != self.covers_index(p))
    }

    /// Whether drawing the sprite onto `display` hits a pixel that is
    /// already on.
    pub open spec fn collides_with(self, display: Seq<bool>) -> bool {
        exists|p: int| 0 <= p < BUFF_SIZE && display[p] && #[trigger] self.covers_index(p)
    }

    /// The number of rows that lie on the display.
    pub open spec fn visible_rows(self) -> int {
        if self.y0 + self.rows <= BUFF_HEIGHT {
            self.rows
        } else {
            BUFF_HEIGHT - self.y0
        }
    }
}

} // verus!
