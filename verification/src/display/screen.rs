//! Elements of the screens' tile maps.
use vstd::prelude::*;

verus! {

/// An element of a screen's tile map.
#[derive(Clone, Copy, PartialEq, Eq, Structural, Debug)]
pub struct ScreenElement {
    /// Vertical mirroring
    pub vm: bool,
    /// Horizontal mirroring
    pub hm: bool,
    /// Palette index
    pub palette: u8,
    /// Tile index
    pub tile_idx: u16,
}

impl ScreenElement {
    /// A screen element with the given attributes.
    pub fn new(vm: bool, hm: bool, palette: u8, tile_idx: u16) -> (r: Self)
        ensures
            r == (ScreenElement { vm, hm, palette, tile_idx }),
    {
        Self { vm, hm, palette, tile_idx }
    }

    /// The element of an empty tile map: tile 0, palette 0, not mirrored.
    pub fn dummy() -> (r: Self)
        ensures
            r == (ScreenElement { vm: false, hm: false, palette: 0, tile_idx: 0 }),
    {
        Self { vm: false, hm: false, palette: 0, tile_idx: 0 }
    }
}

} // verus!
