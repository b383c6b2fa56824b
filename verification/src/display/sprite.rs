//! Sprites: free moving tiles of 8x8 pixels.
use vstd::prelude::*;

verus! {

/// A sprite of the sprite table.
#[derive(Clone, Copy, PartialEq, Eq, Structural, Debug)]
pub struct SpriteElement {
    /// Vertical mirroring
    pub vm: bool,
    /// Horizontal mirroring
    pub hm: bool,
    /// Priority: if set the sprite is drawn above screen 2
    pub pr: bool,
    /// Contained: with the sprite window enabled, if set the sprite is only drawn outside the
    /// window, otherwise only inside it
    pub ct: bool,
    /// Palette index
    pub palette: u8,
    /// Tile index
    pub tile_idx: u16,
    /// X coordinate
    pub x: u8,
    /// Y coordinate
    pub y: u8,
}

impl SpriteElement {
    /// A sprite with the given attributes.
    pub fn new(vm: bool, hm: bool, pr: bool, ct: bool, palette: u8, tile_idx: u16, x: u8, y: u8) -> (r: Self)
        ensures
            r == (SpriteElement { vm, hm, pr, ct, palette, tile_idx, x, y }),
    {
        Self { vm, hm, pr, ct, palette, tile_idx, x, y }
    }

    /// The sprite of an empty table: tile 0 at the origin, palette 0, no attribute set.
    pub fn dummy() -> (r: Self)
        ensures
            r == (SpriteElement { vm: false, hm: false, pr: false, ct: false, palette: 0, tile_idx: 0, x: 0, y: 0 }),
    {
        Self { vm: false, hm: false, pr: false, ct: false, palette: 0, tile_idx: 0, x: 0, y: 0 }
    }

    /// Whether the sprite covers a column: it spans eight columns from its X coordinate, within
    /// the 256 columns the coordinates can name.
    pub open spec fn covers_x(self, x: u8) -> bool {
        covers(self.x, x)
    }

    pub open spec fn covers_y(self, y: u8) -> bool {
        covers(self.y, y)
    }
}

/// Whether `p` lies from `start` up to, not including, `start + 8` taken modulo 256; when that
/// bound wraps around, the range is empty.
pub open spec fn covers(start: u8, p: u8) -> bool {
    let end = ((start + 8) % 0x100) as u8;
    start <= p && p < end
}

} // verus!
