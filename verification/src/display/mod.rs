//! The display chip.
use vstd::prelude::*;

pub mod screen;
pub mod sprite;
pub mod display_control;

verus! {

/// Format encoding the color index of each pixel within the tile's palette.
#[derive(Clone, Copy, PartialEq, Eq, Structural, Debug)]
pub enum PaletteFormat {
    /// 2 bits per pixel, each pair of bytes describes the low and high bit of a row of 8 pixels, 16 bytes per tile
    PLANAR_2BPP,
    /// 4 bits per pixel, each quadruplet of bytes describes the bits from low to high of a row of 8 pixels, 32 bytes per tile
    PLANAR_4BPP,
    /// 4 bits per pixel, each nibble of each byte describes a given pixel, 32 bytes per tile
    PACKED_4BPP,
}

} // verus!
