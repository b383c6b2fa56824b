//! The display controller: it fetches tile maps, tiles and sprites, and composes the LCD image
//! one pixel per cycle.
use vstd::prelude::*;
use crate::bits::{word, lo8, hi8, u16_to_le, lemma_byte_fields, lemma_word_fields, lemma_word_shift, lemma_byte_shift};
use crate::bus::io_bus::IOView;
use crate::bus::mem_bus::{MemBus, MemView};
use crate::display::PaletteFormat;
use crate::display::screen::ScreenElement;
use crate::display::sprite::{SpriteElement, covers};

verus! {

/// A color as red, green and blue bytes.
pub type Rgb = (u8, u8, u8);

/// Width of the LCD in pixels.
pub const LCD_WIDTH: usize = 224;
/// Height of the LCD in pixels.
pub const LCD_HEIGHT: usize = 144;
/// Bytes of an LCD image: three per pixel.
pub const LCD_BYTES: usize = 96768;

/// The display controller.
pub struct Display {
    pub format: PaletteFormat,
    pub color: bool,
    pub screen_1_base: u16,
    pub screen_2_base: u16,
    pub sprite_base: u16,
    /// The tile map elements of screen 1, 32 rows of 32, row by row
    pub screen_1_elements: Vec<ScreenElement>,
    pub screen_2_elements: Vec<ScreenElement>,
    /// The 64 pixels of the tile of each element, row by row
    pub screen_1_tiles: Vec<u8>,
    pub screen_2_tiles: Vec<u8>,
    /// Screen 2's pixels, 256 rows of 256
    pub screen_2_pixels: Vec<Option<Rgb>>,
    pub sprite_table: Vec<SpriteElement>,
    /// The 64 pixels of each sprite's tile
    pub sprite_tiles: Vec<u8>,
    pub sprite_pixels: Vec<Option<Rgb>>,
    pub sprite_counter: u8,
    pub finished_sprites: bool,
    /// The image being drawn: three bytes per pixel, row by row
    pub lcd: Vec<u8>,
    pub scanline: u8,
    pub cycle: u8,
    /// The colors of the 16 entries of the 16 palettes; `None` for a transparent entry
    pub color_map: Vec<Option<Rgb>>,
}

/// The color index of a pixel of a tile.
pub open spec fn tile_pixel(m: MemView, index: u16, format: PaletteFormat, row: int, col: int) -> u8 {
    let b = (7 - col) as u8;
    match format {
        PaletteFormat::PLANAR_2BPP => {
            let w = m.read16((0x2000 + index * 16 + row * 2) as u32);
            let p0 = lo8(w);
            let p1 = hi8(w);
            (((p1 >> b) & 1) << 1u8) | ((p0 >> b) & 1)
        }
        PaletteFormat::PLANAR_4BPP => {
            let a = 0x4000 + index * 32 + row * 4;
            let w0 = m.read16(a as u32);
            let w1 = m.read16((a + 2) as u32);
            (((hi8(w1) >> b) & 1) << 3u8) | (((lo8(w1) >> b) & 1) << 2u8) | (((hi8(w0) >> b) & 1) << 1u8) | ((lo8(w0) >> b) & 1)
        }
        PaletteFormat::PACKED_4BPP => {
            let byte = m.read((0x4000 + index * 32 + row * 4 + col / 2) as u32);
            if col % 2 == 0 { byte >> 4u8 } else { byte & 0x0F }
        }
    }
}

/// The tile map element stored at an address: mirroring in bits 15 and 14, palette in bits
/// 9-12, tile in bits 0-8, and on color models bit 13 as the tile's bit 9.
pub open spec fn screen_element_at(m: MemView, addr: u16, color: bool) -> ScreenElement {
    let w = m.read16(addr as u32);
    ScreenElement {
        vm: w & 0x8000 != 0,
        hm: w & 0x4000 != 0,
        palette: ((w >> 9u16) & 0x0F) as u8,
        tile_idx: if color { (w & 0x01FF) | ((w & 0x2000) >> 4u16) } else { w & 0x01FF },
    }
}

/// The sprite stored at an address: an attribute word, then Y and X.
pub open spec fn sprite_at(m: MemView, addr: u16) -> SpriteElement {
    let w = m.read16(addr as u32);
    let coords = m.read16((addr + 2) as u32);
    SpriteElement {
        vm: w & 0x8000 != 0,
        hm: w & 0x4000 != 0,
        pr: w & 0x2000 != 0,
        ct: w & 0x1000 != 0,
        palette: ((w >> 9u16) & 0x07) as u8,
        tile_idx: w & 0x1FF,
        x: hi8(coords),
        y: lo8(coords),
    }
}

/// The byte a read of a display port gives.
pub open spec fn port_byte(io: IOView, addr: u16) -> u8 {
    io.peek_byte(addr)
}

/// The gray of a monochrome shade: shade 0 is white, 15 black.
pub open spec fn gray(shade: u8) -> u8 {
    (0xFF - 0x11 * shade) as u8
}

/// The shade the shade ports give to one of the eight gray levels.
pub open spec fn mono_shade(io: IOView, level: u8) -> u8 {
    (port_byte(io, (0x1C + level / 2) as u16) >> ((level % 2) * 4) as u8) & 0x0F
}

/// Entry `i` of monochrome palette `palette`: a gray level from the palette's ports, then its shade.
pub open spec fn mono_entry(io: IOView, palette: u8, i: int) -> Rgb {
    let lo = port_byte(io, (0x20 + palette * 2) as u16);
    let hi = port_byte(io, (0x21 + palette * 2) as u16);
    let level = if i == 0 { lo & 0x07 } else if i == 1 { (lo >> 4u8) & 0x07 } else if i == 2 { hi & 0x07 } else { (hi >> 4u8) & 0x07 };
    let g = gray(mono_shade(io, level));
    (g, g, g)
}

/// Entry `i` of color palette `palette`: a word of palette RAM at 0xFE00, 4 bits per component.
pub open spec fn color_entry(m: MemView, palette: u8, i: int) -> Rgb {
    let w = m.read16((0xFE00 + palette * 32 + i * 2) as u32);
    ((nibble(w, 8) * 17) as u8, (nibble(w, 4) * 17) as u8, (nibble(w, 0) * 17) as u8)
}

/// The nibble of a word at a bit offset.
pub open spec fn nibble(w: u16, shift: u16) -> u8 {
    ((w >> shift) & 0x0F) as u8
}

fn get_nibble(w: u16, shift: u16) -> (r: u8)
    requires
        shift < 16,
    ensures
        r == nibble(w, shift),
        r < 16,
{
    let n = (w >> shift) & 0x0F;
    proof {
        lemma_word_shift(w, shift);
    }
    n as u8
}

/// The color of a pixel value in a palette, or `None` when it is transparent: in 2-bit formats
/// values above 3 do not exist and value 0 is transparent in palettes 4-15; in 4-bit formats value
/// 0 is transparent.
pub open spec fn color_map_entry(m: MemView, format: PaletteFormat, color: bool, palette: u8, raw: u8) -> Option<Rgb> {
    match format {
        PaletteFormat::PLANAR_2BPP => {
            if raw >= 4 || (raw == 0 && palette >= 4) {
                None
            } else if color {
                Some(color_entry(m, palette, raw as int))
            } else {
                Some(mono_entry(m.io, palette, raw as int))
            }
        }
        _ => if raw == 0 { None } else { Some(color_entry(m, palette, raw as int)) },
    }
}

/// Whether a coordinate lies in a window span, bounds included.
pub open spec fn in_span(lo: u8, hi: u8, p: u8) -> bool {
    lo <= p && p <= hi
}

/// A mirrored coordinate within a tile.
pub open spec fn mirror(p: u8, m: bool) -> int {
    if m { (7 - (p % 8)) as int } else { (p % 8) as int }
}

/// The pixel a tile layer shows at a position of its 256x256 plane: the element of the 8x8 cell,
/// the pixel of its tile, mirrored as the element says, in the element's palette.
pub open spec fn layer_pixel(elements: Seq<ScreenElement>, tiles: Seq<u8>, color_map: Seq<Option<Rgb>>, px: u8, py: u8) -> Option<Rgb> {
    let e = (py / 8) as int * 32 + (px / 8) as int;
    let element = elements[e];
    let raw = tiles[e * 64 + mirror(py, element.vm) * 8 + mirror(px, element.hm)];
    color_map[element.palette as int * 16 + raw as int]
}

fn lookup_layer_pixel(elements: &Vec<ScreenElement>, tiles: &Vec<u8>, color_map: &Vec<Option<Rgb>>, px: u8, py: u8) -> (r: Option<Rgb>)
    requires
        elements@.len() == 1024,
        tiles@.len() == 65536,
        color_map@.len() == 256,
        forall|i: int| 0 <= i < 65536 ==> #[trigger] tiles@[i] < 16,
        forall|i: int| 0 <= i < 1024 ==> #[trigger] elements@[i].palette < 16,
    ensures
        r == layer_pixel(elements@, tiles@, color_map@, px, py),
{
    let e = (py / 8) as usize * 32 + (px / 8) as usize;
    let element = elements[e];
    let mx: usize = if element.hm { (7 - px % 8) as usize } else { (px % 8) as usize };
    let my: usize = if element.vm { (7 - py % 8) as usize } else { (py % 8) as usize };
    let raw = tiles[e * 64 + my * 8 + mx];
    color_map[element.palette as usize * 16 + raw as usize]
}

impl Display {
    /// The buffers have their sizes, elements and sprites name tiles that exist, and the scanline
    /// is below 255.
    pub open spec fn wf(&self) -> bool {
        &&& self.buffers_ok()
        &&& self.scanline < 255
    }

    /// The buffers have their sizes, and elements and sprites name tiles that exist.
    pub open spec fn buffers_ok(&self) -> bool {
        &&& self.screen_1_elements@.len() == 1024
        &&& self.screen_2_elements@.len() == 1024
        &&& self.screen_1_tiles@.len() == 65536
        &&& self.screen_2_tiles@.len() == 65536
        &&& self.screen_2_pixels@.len() == 65536
        &&& self.sprite_table@.len() == 128
        &&& self.sprite_tiles@.len() == 8192
        &&& self.sprite_pixels@.len() == 65536
        &&& self.lcd@.len() == LCD_BYTES
        &&& self.color_map@.len() == 256
        &&& forall|i: int| 0 <= i < 1024 ==> #[trigger] self.screen_1_elements@[i].tile_idx < 0x400
        &&& forall|i: int| 0 <= i < 1024 ==> #[trigger] self.screen_2_elements@[i].tile_idx < 0x400
        &&& forall|i: int| 0 <= i < 128 ==> #[trigger] self.sprite_table@[i].tile_idx < 0x200
        &&& forall|i: int| 0 <= i < 128 ==> #[trigger] self.sprite_table@[i].palette < 8
        &&& forall|i: int| 0 <= i < 1024 ==> #[trigger] self.screen_1_elements@[i].palette < 16
        &&& forall|i: int| 0 <= i < 1024 ==> #[trigger] self.screen_2_elements@[i].palette < 16
        &&& forall|i: int| 0 <= i < 65536 ==> #[trigger] self.screen_1_tiles@[i] < 16
        &&& forall|i: int| 0 <= i < 65536 ==> #[trigger] self.screen_2_tiles@[i] < 16
        &&& forall|i: int| 0 <= i < 8192 ==> #[trigger] self.sprite_tiles@[i] < 16
    }

    /// Screen 1's pixel at a position of the LCD, scrolled by ports 0x10 and 0x11.
    pub open spec fn screen_1_pixel(&self, io: IOView, x: u8, y: u8) -> Option<Rgb> {
        let px = ((x + port_byte(io, 0x10)) % 0x100) as u8;
        let py = ((y + port_byte(io, 0x11)) % 0x100) as u8;
        layer_pixel(self.screen_1_elements@, self.screen_1_tiles@, self.color_map@, px, py)
    }

    /// Screen 2's pixel at a position of the LCD, scrolled by ports 0x12 and 0x13, and cut by
    /// screen 2's window when it is enabled: shown inside it, or outside it with `s2wc`.
    pub open spec fn screen_2_pixel(&self, io: IOView, s2we: bool, s2wc: bool, x: u8, y: u8) -> Option<Rgb> {
        let px = ((x + port_byte(io, 0x12)) % 0x100) as u8;
        let py = ((y + port_byte(io, 0x13)) % 0x100) as u8;
        let c = layer_pixel(self.screen_2_elements@, self.screen_2_tiles@, self.color_map@, px, py);
        let (x1, x2, y1, y2) = (port_byte(io, 0x08), port_byte(io, 0x0A), port_byte(io, 0x09), port_byte(io, 0x0B));
        if c is None {
            None
        } else if s2we && (x2 < x1 || y2 < y1 || !(s2wc != in_span(x1, x2, x) && s2wc != in_span(y1, y2, y))) {
            None
        } else {
            c
        }
    }

    /// Whether a sprite is drawn at a position: it covers it, it lies where the sprite window lets
    /// it (`window` gives the window's bounds when it is enabled), and it has priority over screen
    /// 2 or screen 2 is transparent there (`scr2` tells whether screen 2 counts).
    pub open spec fn sprite_shown(&self, i: int, x: u8, y: u8, window: Option<(u8, u8, u8, u8)>, scr2: bool) -> bool {
        let s = self.sprite_table@[i];
        &&& covers(s.x, x)
        &&& covers(s.y, y)
        &&& match window {
            Some((x1, x2, y1, y2)) => s.ct != in_span(x1, x2, x) && s.ct != in_span(y1, y2, y),
            None => true,
        }
        &&& (!scr2 || s.pr || self.screen_2_pixels@[y as int * 256 + x as int] is None)
    }

    /// The color of sprite `i` at a position it covers.
    pub open spec fn sprite_color(&self, i: int, x: u8, y: u8) -> Option<Rgb> {
        let s = self.sprite_table@[i];
        let dx = (x - s.x) as u8;
        let dy = (y - s.y) as u8;
        let raw = self.sprite_tiles@[i * 64 + mirror(dy, s.vm) * 8 + mirror(dx, s.hm)];
        self.color_map@[(s.palette + 8) as int * 16 + raw as int]
    }

    /// The color of the first sprite from `i` on that is shown at a position and not transparent.
    pub open spec fn first_sprite(&self, i: int, x: u8, y: u8, window: Option<(u8, u8, u8, u8)>, scr2: bool) -> Option<Rgb>
        decreases 128 - i,
    {
        if i >= 128 || i < 0 {
            None
        } else if self.sprite_shown(i, x, y, window, scr2) && self.sprite_color(i, x, y) is Some {
            self.sprite_color(i, x, y)
        } else {
            self.first_sprite(i + 1, x, y, window, scr2)
        }
    }
}

/// The byte a display port holds; reading it changes nothing.
fn display_port(bus: &MemBus, addr: u16) -> (r: u8)
    requires
        bus.wf(),
        addr < 0x40,
    ensures
        r == port_byte(bus@.io, addr),
{
    bus.io_bus.peek(addr)
}

/// Bounds of the pixel value that bit `b` of up to four planes make.
proof fn lemma_pixel_bits(p0: u8, p1: u8, p2: u8, p3: u8, b: u8)
    by (bit_vector)
    ensures
        (((p1 >> b) & 1) << 1u8) | ((p0 >> b) & 1) < 4,
        (((p3 >> b) & 1) << 3u8) | (((p2 >> b) & 1) << 2u8) | (((p1 >> b) & 1) << 1u8) | ((p0 >> b) & 1) < 16,
{
}

/// The sprite window's bounds, when it is enabled and not empty.
pub enum SpriteWindow {
    Off,
    Empty,
    Bounds(u8, u8, u8, u8),
}

impl Display {
    /// A display with empty buffers, in the mode and format the ports select.
    pub fn new(bus: &MemBus) -> (r: Self)
        requires
            bus.wf(),
        ensures
            r.wf(),
            r.format == bus@.io.palette_format(),
            r.color == bus@.io.color(),
            r.scanline == 0,
            r.cycle == 0,
            r.sprite_base == 0,
    {
        let mut lcd: Vec<u8> = Vec::new();
        let mut i: usize = 0;
        while i < LCD_BYTES
            invariant
                i <= LCD_BYTES,
                lcd@.len() == i,
            decreases LCD_BYTES - i,
        {
            lcd.push(0);
            i = i + 1;
        }
        Display {
            format: bus.io_bus.palette_format(),
            color: bus.io_bus.color_mode(),
            screen_1_base: 0, screen_2_base: 0, sprite_base: 0,
            screen_1_elements: filled_elements(1024),
            screen_2_elements: filled_elements(1024),
            screen_1_tiles: crate::cartridge::zeroed(65536),
            screen_2_tiles: crate::cartridge::zeroed(65536),
            screen_2_pixels: no_pixels(65536),
            sprite_table: filled_sprites(),
            sprite_tiles: crate::cartridge::zeroed(8192),
            sprite_pixels: no_pixels(65536),
            sprite_counter: 0,
            finished_sprites: false,
            lcd,
            scanline: 0,
            cycle: 0,
            color_map: no_pixels(256),
        }
    }

    /// Reads the 64 pixels of a tile, row by row.
    pub fn read_tile(&self, bus: &MemBus, index: u16, format: PaletteFormat) -> (r: Vec<u8>)
        requires
            bus.wf(),
            index < 0x400,
        ensures
            r@.len() == 64,
            forall|i: int| 0 <= i < 64 ==> #[trigger] r@[i] == tile_pixel(bus@, index, format, i / 8, i % 8),
            forall|i: int| 0 <= i < 64 ==> #[trigger] r@[i] < 16,
    {
        let mut out: Vec<u8> = Vec::new();
        let mut row: u32 = 0;
        while row < 8
            invariant
                row <= 8,
                bus.wf(),
                index < 0x400,
                out@.len() == row * 8,
                forall|i: int| 0 <= i < row * 8 ==> #[trigger] out@[i] == tile_pixel(bus@, index, format, i / 8, i % 8),
                forall|i: int| 0 <= i < row * 8 ==> #[trigger] out@[i] < 16,
            decreases 8 - row,
        {
            let mut col: u32 = 0;
            while col < 8
                invariant
                    row < 8,
                    col <= 8,
                    bus.wf(),
                    index < 0x400,
                    out@.len() == row * 8 + col,
                    forall|i: int| 0 <= i < row * 8 + col ==> #[trigger] out@[i] == tile_pixel(bus@, index, format, i / 8, i % 8),
                    forall|i: int| 0 <= i < row * 8 + col ==> #[trigger] out@[i] < 16,
                decreases 8 - col,
            {
                let px = self.tile_pixel(bus, index, format, row, col);
                proof {
                    let k = (row * 8 + col) as int;
                    assert(k / 8 == row as int && k % 8 == col as int);
                }
                out.push(px);
                col = col + 1;
            }
            row = row + 1;
        }
        out
    }

    fn tile_pixel(&self, bus: &MemBus, index: u16, format: PaletteFormat, row: u32, col: u32) -> (r: u8)
        requires
            bus.wf(),
            index < 0x400,
            row < 8,
            col < 8,
        ensures
            r == tile_pixel(bus@, index, format, row as int, col as int),
            r < 16,
    {
        let b = (7 - col) as u8;
        match format {
            PaletteFormat::PLANAR_2BPP => {
                let w = bus.read_mem_16(0x2000 + (index as u32) * 16 + row * 2);
                let (p0, p1) = u16_to_le(w);
                proof {
                    lemma_pixel_bits(p0, p1, 0, 0, b);
                }
                (((p1 >> b) & 1) << 1) | ((p0 >> b) & 1)
            }
            PaletteFormat::PLANAR_4BPP => {
                let a = 0x4000 + (index as u32) * 32 + row * 4;
                let (w0, w1) = bus.read_mem_32(a);
                let (p0, p1) = u16_to_le(w0);
                let (p2, p3) = u16_to_le(w1);
                proof {
                    lemma_pixel_bits(p0, p1, p2, p3, b);
                }
                (((p3 >> b) & 1) << 3) | (((p2 >> b) & 1) << 2) | (((p1 >> b) & 1) << 1) | ((p0 >> b) & 1)
            }
            PaletteFormat::PACKED_4BPP => {
                let byte = bus.read_mem(0x4000 + (index as u32) * 32 + row * 4 + col / 2);
                proof {
                    lemma_byte_fields(byte);
                }
                if col % 2 == 0 { byte >> 4 } else { byte & 0x0F }
            }
        }
    }

    /// Reads a tile map element.
    pub fn read_screen_element(&self, bus: &MemBus, addr: u16) -> (r: ScreenElement)
        requires
            bus.wf(),
        ensures
            r == screen_element_at(bus@, addr, self.color),
            r.tile_idx < 0x400,
            r.palette < 16,
    {
        let w = bus.read_mem_16(addr as u32);
        let vm = w & 0x8000 != 0;
        let hm = w & 0x4000 != 0;
        let palette = ((w >> 9) & 0x0F) as u8;
        let mut tile_idx = w & 0x01FF;
        if self.color {
            tile_idx = tile_idx | ((w & 0x2000) >> 4);
        }
        proof {
            lemma_word_fields(w);
        }
        ScreenElement::new(vm, hm, palette, tile_idx)
    }

    /// Reads a sprite of the sprite table.
    pub fn read_sprite(&self, bus: &MemBus, addr: u16) -> (r: SpriteElement)
        requires
            bus.wf(),
        ensures
            r == sprite_at(bus@, addr),
            r.tile_idx < 0x200,
            r.palette < 8,
    {
        let (w, coords) = bus.read_mem_32(addr as u32);
        let (y, x) = u16_to_le(coords);
        proof {
            lemma_word_fields(w);
        }
        SpriteElement::new(w & 0x8000 != 0, w & 0x4000 != 0, w & 0x2000 != 0, w & 0x1000 != 0,
            ((w >> 9) & 0x07) as u8, w & 0x1FF, x, y)
    }

    /// The four entries of a monochrome palette.
    pub fn get_monochrome_palette(&self, bus: &MemBus, palette: u8) -> (r: Vec<Rgb>)
        requires
            bus.wf(),
            palette < 16,
        ensures
            r@.len() == 4,
            forall|i: int| 0 <= i < 4 ==> #[trigger] r@[i] == mono_entry(bus@.io, palette, i),
    {
        let lo = display_port(bus, 0x20 + (palette as u16) * 2);
        let hi = display_port(bus, 0x21 + (palette as u16) * 2);
        let levels = [lo & 0x07, (lo >> 4) & 0x07, hi & 0x07, (hi >> 4) & 0x07];
        let mut out: Vec<Rgb> = Vec::new();
        let mut i: usize = 0;
        while i < 4
            invariant
                i <= 4,
                bus.wf(),
                palette < 16,
                lo == port_byte(bus@.io, (0x20 + palette * 2) as u16),
                hi == port_byte(bus@.io, (0x21 + palette * 2) as u16),
                levels@ == seq![lo & 0x07, (lo >> 4u8) & 0x07, hi & 0x07, (hi >> 4u8) & 0x07],
                out@.len() == i,
                forall|j: int| 0 <= j < i ==> #[trigger] out@[j] == mono_entry(bus@.io, palette, j),
            decreases 4 - i,
        {
            let level = levels[i];
            assert(level < 8) by {
                lemma_byte_fields(lo);
                lemma_byte_fields(hi);
            }
            let g = gray_of(self.shade(bus, level));
            out.push((g, g, g));
            i = i + 1;
        }
        out
    }

    /// The shade of a gray level.
    fn shade(&self, bus: &MemBus, level: u8) -> (r: u8)
        requires
            bus.wf(),
            level < 8,
        ensures
            r == mono_shade(bus@.io, level),
            r < 16,
    {
        let b = display_port(bus, 0x1C + (level / 2) as u16);
        proof {
            lemma_byte_shift(b, ((level % 2) * 4) as u8);
        }
        (b >> ((level % 2) * 4)) & 0x0F
    }

    /// The sixteen entries of a color palette.
    pub fn get_color_palette(&self, bus: &MemBus, palette: u8) -> (r: Vec<Rgb>)
        requires
            bus.wf(),
            palette < 16,
        ensures
            r@.len() == 16,
            forall|i: int| 0 <= i < 16 ==> #[trigger] r@[i] == color_entry(bus@, palette, i),
    {
        let mut out: Vec<Rgb> = Vec::new();
        let mut i: u32 = 0;
        while i < 16
            invariant
                i <= 16,
                bus.wf(),
                palette < 16,
                out@.len() == i,
                forall|j: int| 0 <= j < i ==> #[trigger] out@[j] == color_entry(bus@, palette, j),
            decreases 16 - i,
        {
            let w = bus.read_mem_16(0xFE00 + (palette as u32) * 32 + i * 2);
            let r = get_nibble(w, 8);
            let g = get_nibble(w, 4);
            let b = get_nibble(w, 0);
            out.push((r * 17, g * 17, b * 17));
            i = i + 1;
        }
        out
    }

    /// Computes the colors of all the palette entries.
    pub fn generate_color_map(&mut self, bus: &MemBus)
        requires
            bus.wf(),
            old(self).wf(),
        ensures
            final(self).wf(),
            forall|p: int, raw: int| 0 <= p < 16 && 0 <= raw < 16 ==>
                #[trigger] final(self).color_map@[p * 16 + raw] == color_map_entry(bus@, old(self).format, old(self).color, p as u8, raw as u8),
            final(self).color_map@.len() == 256,
            final(self).lcd@ == old(self).lcd@,
            final(self).format == old(self).format,
            final(self).color == old(self).color,
            final(self).scanline == old(self).scanline,
            final(self).cycle == old(self).cycle,
            final(self).sprite_base == old(self).sprite_base,
            final(self).sprite_counter == old(self).sprite_counter,
            final(self).screen_1_base == old(self).screen_1_base,
            final(self).screen_2_base == old(self).screen_2_base,
            final(self).screen_1_elements == old(self).screen_1_elements,
            final(self).screen_2_elements == old(self).screen_2_elements,
            final(self).screen_1_tiles == old(self).screen_1_tiles,
            final(self).screen_2_tiles == old(self).screen_2_tiles,
            final(self).sprite_table == old(self).sprite_table,
            final(self).sprite_tiles == old(self).sprite_tiles,
    {
        let mut map: Vec<Option<Rgb>> = Vec::new();
        let mut p: u8 = 0;
        while p < 16
            invariant
                p <= 16,
                bus.wf(),
                map@.len() == p * 16,
                forall|q: int, raw: int| 0 <= q < p && 0 <= raw < 16 ==>
                    #[trigger] map@[q * 16 + raw] == color_map_entry(bus@, self.format, self.color, q as u8, raw as u8),
            decreases 16 - p,
        {
            let color_pal = self.get_color_palette(bus, p);
            let mono_pal = self.get_monochrome_palette(bus, p);
            let mut raw: u8 = 0;
            while raw < 16
                invariant
                    p < 16,
                    raw <= 16,
                    bus.wf(),
                    color_pal@.len() == 16,
                    mono_pal@.len() == 4,
                    forall|i: int| 0 <= i < 16 ==> #[trigger] color_pal@[i] == color_entry(bus@, p, i),
                    forall|i: int| 0 <= i < 4 ==> #[trigger] mono_pal@[i] == mono_entry(bus@.io, p, i),
                    map@.len() == p * 16 + raw,
                    forall|q: int, r: int| 0 <= q < p && 0 <= r < 16 ==>
                        #[trigger] map@[q * 16 + r] == color_map_entry(bus@, self.format, self.color, q as u8, r as u8),
                    forall|r: int| 0 <= r < raw ==>
                        #[trigger] map@[p * 16 + r] == color_map_entry(bus@, self.format, self.color, p, r as u8),
                decreases 16 - raw,
            {
                let entry = match self.format {
                    PaletteFormat::PLANAR_2BPP => {
                        if raw >= 4 || (raw == 0 && p >= 4) {
                            None
                        } else if self.color {
                            Some(color_pal[raw as usize])
                        } else {
                            Some(mono_pal[raw as usize])
                        }
                    }
                    _ => if raw == 0 { None } else { Some(color_pal[raw as usize]) },
                };
                map.push(entry);
                raw = raw + 1;
            }
            assert forall|q: int, r: int| 0 <= q < p + 1 && 0 <= r < 16 implies
                #[trigger] map@[q * 16 + r] == color_map_entry(bus@, self.format, self.color, q as u8, r as u8) by {
                if q == p as int {
                    assert(map@[p * 16 + r] == color_map_entry(bus@, self.format, self.color, p, r as u8));
                }
            }
            p = p + 1;
        }
        self.color_map = map;
    }
}

/// The gray of a shade.
fn gray_of(shade: u8) -> (r: u8)
    requires
        shade < 16,
    ensures
        r == gray(shade),
{
    0xFF - 0x11 * shade
}

/// A tile map of blank elements.
fn filled_elements(n: usize) -> (r: Vec<ScreenElement>)
    ensures
        r@.len() == n,
        forall|i: int| 0 <= i < n ==> #[trigger] r@[i] == (ScreenElement { vm: false, hm: false, palette: 0, tile_idx: 0 }),
{
    let mut v: Vec<ScreenElement> = Vec::new();
    let mut i: usize = 0;
    while i < n
        invariant
            i <= n,
            v@.len() == i,
            forall|j: int| 0 <= j < i ==> #[trigger] v@[j] == (ScreenElement { vm: false, hm: false, palette: 0, tile_idx: 0 }),
        decreases n - i,
    {
        v.push(ScreenElement::dummy());
        i = i + 1;
    }
    v
}

/// A sprite table of blank sprites.
fn filled_sprites() -> (r: Vec<SpriteElement>)
    ensures
        r@.len() == 128,
        forall|i: int| 0 <= i < 128 ==> #[trigger] r@[i] == (SpriteElement { vm: false, hm: false, pr: false, ct: false, palette: 0, tile_idx: 0, x: 0, y: 0 }),
{
    let mut v: Vec<SpriteElement> = Vec::new();
    let mut i: usize = 0;
    while i < 128
        invariant
            i <= 128,
            v@.len() == i,
            forall|j: int| 0 <= j < i ==> #[trigger] v@[j] == (SpriteElement { vm: false, hm: false, pr: false, ct: false, palette: 0, tile_idx: 0, x: 0, y: 0 }),
        decreases 128 - i,
    {
        v.push(SpriteElement::dummy());
        i = i + 1;
    }
    v
}

/// `n` transparent pixels.
fn no_pixels(n: usize) -> (r: Vec<Option<Rgb>>)
    ensures
        r@.len() == n,
        forall|i: int| 0 <= i < n ==> #[trigger] r@[i] is None,
{
    let mut v: Vec<Option<Rgb>> = Vec::new();
    let mut i: usize = 0;
    while i < n
        invariant
            i <= n,
            v@.len() == i,
            forall|j: int| 0 <= j < i ==> #[trigger] v@[j] is None,
        decreases n - i,
    {
        v.push(None);
        i = i + 1;
    }
    v
}

/// The LCD control word, ports 0x00 and 0x01.
pub open spec fn lcd_ctrl(io: IOView) -> u16 {
    word(port_byte(io, 0x00), port_byte(io, 0x01))
}

impl Display {
    /// The color shown where no screen nor sprite is: in color mode an entry of the color
    /// palette that bits 12-15 of the LCD control word select, in monochrome mode a gray level.
    pub open spec fn background(&self, m: MemView, ctrl: u16) -> Rgb {
        if self.color {
            let c = (ctrl >> 8u16) & 0x0F;
            let i = if self.format == PaletteFormat::PLANAR_2BPP { c & 0x3 } else { c };
            color_entry(m, (ctrl >> 12u16) as u8, i as int)
        } else {
            let g = gray(mono_shade(m.io, ((ctrl >> 8u16) & 0x7) as u8));
            (g, g, g)
        }
    }

    /// The sprite window as the LCD control word and ports 0x0C - 0x0F give it.
    pub open spec fn sprite_window(io: IOView, ctrl: u16) -> SpriteWindow {
        let (x1, x2, y1, y2) = (port_byte(io, 0x0C), port_byte(io, 0x0E), port_byte(io, 0x0D), port_byte(io, 0x0F));
        if (ctrl >> 3u16) & 1 == 0 {
            SpriteWindow::Off
        } else if x2 < x1 || y2 < y1 {
            SpriteWindow::Empty
        } else {
            SpriteWindow::Bounds(x1, x2, y1, y2)
        }
    }

    /// The pixel shown at a position: a sprite's, else screen 2's, else screen 1's (when
    /// enabled), else the background.
    pub open spec fn composed(&self, m: MemView, x: u8, y: u8) -> Rgb {
        let idx = y as int * 256 + x as int;
        let ctrl = lcd_ctrl(m.io);
        match self.sprite_pixels@[idx] {
            Some(p) => p,
            None => match self.screen_2_pixels@[idx] {
                Some(p) => p,
                None => {
                    let s1 = if ctrl & 1 != 0 { self.screen_1_pixel(m.io, x, y) } else { None };
                    match s1 { Some(p) => p, None => self.background(m, ctrl) }
                }
            },
        }
    }
}

/// The offset of a pixel in the LCD image.
pub open spec fn dot(x: u8, y: u8) -> int {
    (x as int + y as int * 224) * 3
}

impl Display {
    /// Screen 2's pixel at a position.
    #[verifier::rlimit(100)]
    pub fn apply_scr2_window(&self, bus: &MemBus, s2we: bool, s2wc: bool, x: u8, y: u8) -> (r: Option<Rgb>)
        requires
            bus.wf(),
            self.wf(),
        ensures
            r == self.screen_2_pixel(bus@.io, s2we, s2wc, x, y),
    {
        let px = ((x as u16 + display_port(bus, 0x12) as u16) % 0x100) as u8;
        let py = ((y as u16 + display_port(bus, 0x13) as u16) % 0x100) as u8;
        let c = lookup_layer_pixel(&self.screen_2_elements, &self.screen_2_tiles, &self.color_map, px, py);
        if c.is_none() {
            return None;
        }
        if s2we {
            let x1 = display_port(bus, 0x08);
            let x2 = display_port(bus, 0x0A);
            if x2 < x1 {
                return None;
            }
            let y1 = display_port(bus, 0x09);
            let y2 = display_port(bus, 0x0B);
            if y2 < y1 {
                return None;
            }
            if !(s2wc != (x1 <= x && x <= x2) && s2wc != (y1 <= y && y <= y2)) {
                return None;
            }
        }
        c
    }

    /// Screen 1's pixel at a position.
    #[verifier::rlimit(100)]
    fn compute_screen_1_pixel(&self, bus: &MemBus, x: u8, y: u8) -> (r: Option<Rgb>)
        requires
            bus.wf(),
            self.wf(),
        ensures
            r == self.screen_1_pixel(bus@.io, x, y),
    {
        let px = ((x as u16 + display_port(bus, 0x10) as u16) % 0x100) as u8;
        let py = ((y as u16 + display_port(bus, 0x11) as u16) % 0x100) as u8;
        lookup_layer_pixel(&self.screen_1_elements, &self.screen_1_tiles, &self.color_map, px, py)
    }

    /// The color of sprite `i` at a position when it is shown there and not transparent.
    fn sprite_hit(&self, i: usize, x: u8, y: u8, window: Option<(u8, u8, u8, u8)>, scr2: bool) -> (r: Option<Rgb>)
        requires
            self.wf(),
            i < 128,
        ensures
            r == (if self.sprite_shown(i as int, x, y, window, scr2) && self.sprite_color(i as int, x, y) is Some {
                self.sprite_color(i as int, x, y)
            } else {
                None
            }),
    {
        let s = self.sprite_table[i];
        let end = s.x.wrapping_add(8);
        let in_x = s.x <= x && x < end;
        let end_y = s.y.wrapping_add(8);
        let in_y = s.y <= y && y < end_y;
        let in_window = match window {
            Some((x1, x2, y1, y2)) => s.ct != (x1 <= x && x <= x2) && s.ct != (y1 <= y && y <= y2),
            None => true,
        };
        if in_x && in_y && in_window && (!scr2 || s.pr || self.screen_2_pixels[y as usize * 256 + x as usize].is_none()) {
            let dx = x - s.x;
            let dy = y - s.y;
            let mx: usize = if s.hm { (7 - dx % 8) as usize } else { (dx % 8) as usize };
            let my: usize = if s.vm { (7 - dy % 8) as usize } else { (dy % 8) as usize };
            let raw = self.sprite_tiles[i * 64 + my * 8 + mx];
            self.color_map[(s.palette + 8) as usize * 16 + raw as usize]
        } else {
            None
        }
    }

    /// The color of the first sprite shown at a position that is not transparent there.
    fn sprite_pixel(&self, x: u8, y: u8, window: Option<(u8, u8, u8, u8)>, scr2: bool) -> (r: Option<Rgb>)
        requires
            self.wf(),
        ensures
            r == self.first_sprite(0, x, y, window, scr2),
    {
        let mut i: usize = 128;
        let mut found: Option<Rgb> = None;
        while i > 0
            invariant
                i <= 128,
                self.wf(),
                found == self.first_sprite(i as int, x, y, window, scr2),
            decreases i,
        {
            i = i - 1;
            let hit = self.sprite_hit(i, x, y, window, scr2);
            if hit.is_some() {
                found = hit;
            }
        }
        found
    }

    /// The background color.
    fn background_color(&self, bus: &MemBus, ctrl: u16) -> (r: Rgb)
        requires
            bus.wf(),
        ensures
            r == self.background(bus@, ctrl),
    {
        if self.color {
            let c = (ctrl >> 8) & 0x0F;
            let i = if self.format == PaletteFormat::PLANAR_2BPP { c & 0x3 } else { c };
            let palette = (ctrl >> 12) as u8;
            proof {
                lemma_word_fields(ctrl);
                lemma_word_fields(c);
            }
            let pal = self.get_color_palette(bus, palette);
            pal[i as usize]
        } else {
            let level = ((ctrl >> 8) & 0x7) as u8;
            proof {
                lemma_word_fields(ctrl);
            }
            let g = gray_of(self.shade(bus, level));
            (g, g, g)
        }
    }

    /// Composes the pixel at a position of the LCD and stores it in the image.
    #[verifier::rlimit(60)]
    pub fn overlay_pixels(&mut self, bus: &MemBus, x: u8, y: u8)
        requires
            bus.wf(),
            old(self).wf(),
            x < 224,
            y < 144,
        ensures
            final(self).wf(),
            ({
                let ctrl = lcd_ctrl(bus@.io);
                let idx = y as int * 256 + x as int;
                let s2 = if (ctrl >> 1u16) & 1 != 0 {
                    old(self).screen_2_pixel(bus@.io, (ctrl >> 5u16) & 1 != 0, (ctrl >> 4u16) & 1 != 0, x, y)
                } else {
                    None
                };
                let mid = Display { screen_2_pixels: final(self).screen_2_pixels, ..*old(self) };
                let spr = if (ctrl >> 2u16) & 1 != 0 {
                    match Self::sprite_window(bus@.io, ctrl) {
                        SpriteWindow::Off => mid.first_sprite(0, x, y, None, (ctrl >> 1u16) & 1 != 0),
                        SpriteWindow::Empty => None,
                        SpriteWindow::Bounds(x1, x2, y1, y2) => mid.first_sprite(0, x, y, Some((x1, x2, y1, y2)), (ctrl >> 1u16) & 1 != 0),
                    }
                } else {
                    None
                };
                let p = final(self).composed(bus@, x, y);
                &&& final(self).screen_2_pixels@ == old(self).screen_2_pixels@.update(idx, s2)
                &&& final(self).sprite_pixels@ == old(self).sprite_pixels@.update(idx, spr)
                &&& final(self).lcd@ == old(self).lcd@.update(dot(x, y), p.0).update(dot(x, y) + 1, p.1).update(dot(x, y) + 2, p.2)
            }),
            final(self).screen_1_elements == old(self).screen_1_elements,
            final(self).screen_2_elements == old(self).screen_2_elements,
            final(self).screen_1_tiles == old(self).screen_1_tiles,
            final(self).screen_2_tiles == old(self).screen_2_tiles,
            final(self).sprite_table == old(self).sprite_table,
            final(self).sprite_tiles == old(self).sprite_tiles,
            final(self).color_map == old(self).color_map,
            final(self).format == old(self).format,
            final(self).color == old(self).color,
            final(self).scanline == old(self).scanline,
            final(self).cycle == old(self).cycle,
            final(self).sprite_counter == old(self).sprite_counter,
            final(self).screen_1_base == old(self).screen_1_base,
            final(self).screen_2_base == old(self).screen_2_base,
            final(self).sprite_base == old(self).sprite_base,
    {
        let ctrl = crate::bits::u16_from_le(display_port(bus, 0x00), display_port(bus, 0x01));
        let scr1 = ctrl & 1 != 0;
        let scr2 = (ctrl >> 1) & 1 != 0;
        let spr = (ctrl >> 2) & 1 != 0;
        let sprwe = (ctrl >> 3) & 1 != 0;
        let s2wc = (ctrl >> 4) & 1 != 0;
        let s2we = (ctrl >> 5) & 1 != 0;
        let idx = y as usize * 256 + x as usize;
        let s2 = if scr2 { self.apply_scr2_window(bus, s2we, s2wc, x, y) } else { None };
        self.screen_2_pixels.set(idx, s2);
        let mut spr_px: Option<Rgb> = None;
        if spr {
            if sprwe {
                let x1 = display_port(bus, 0x0C);
                let x2 = display_port(bus, 0x0E);
                let y1 = display_port(bus, 0x0D);
                let y2 = display_port(bus, 0x0F);
                if !(x2 < x1 || y2 < y1) {
                    spr_px = self.sprite_pixel(x, y, Some((x1, x2, y1, y2)), scr2);
                }
            } else {
                spr_px = self.sprite_pixel(x, y, None, scr2);
            }
        }
        self.sprite_pixels.set(idx, spr_px);
        let pixel = match spr_px {
            Some(p) => p,
            None => match s2 {
                Some(p) => p,
                None => {
                    let s1 = if scr1 { self.compute_screen_1_pixel(bus, x, y) } else { None };
                    match s1 {
                        Some(p) => p,
                        None => self.background_color(bus, ctrl),
                    }
                }
            },
        };
        let d = (x as usize + y as usize * 224) * 3;
        self.lcd.set(d, pixel.0);
        self.lcd.set(d + 1, pixel.1);
        self.lcd.set(d + 2, pixel.2);
    }
}

/// The base of a screen's tile map, from a nibble of port 0x07; monochrome models reach the
/// first 16 KiB only.
pub open spec fn screen_base(io: IOView, shift: u8, color: bool) -> u16 {
    let b = (((port_byte(io, 0x07) >> shift) & 0x0F) as u16 * 0x800) as u16;
    if color { b } else { b & 0x3800 }
}

/// The base of the sprite table, from port 0x04.
pub open spec fn sprite_base(io: IOView, color: bool) -> u16 {
    let b = ((port_byte(io, 0x04) & 0x3F) as u16 * 0x200) as u16;
    if color { b } else { b & 0x3E00 }
}

/// The tile map element of a row and column of the map at a base.
pub open spec fn map_element(m: MemView, base: u16, row: int, col: int, color: bool) -> ScreenElement {
    screen_element_at(m, base | ((row * 64) as u16) | ((col * 2) as u16), color)
}

/// Tile pixels with the 64 pixels of a slot replaced by those of a tile, row by row.
pub open spec fn tile_stored(tiles: Seq<u8>, slot: int, m: MemView, index: u16, format: PaletteFormat) -> Seq<u8> {
    Seq::new(tiles.len(), |i: int|
        if slot * 64 <= i < slot * 64 + 64 { tile_pixel(m, index, format, (i - slot * 64) / 8, (i - slot * 64) % 8) } else { tiles[i] })
}

/// What the fetches of a cycle leave in the display, with the mode and format the ports select:
/// at cycle 0 the color map and the first element of screen 1's row, at cycles 1 - 63 an
/// element of screen 1 (even cycles) or the tile of the element before (odd cycles), at cycle 65
/// the first element of screen 2's row, and at cycles 66 - 129 those of screen 2; on the first
/// line, cycle 0 loads the bases of screen 1 and of the sprites, and cycle 65 that of screen 2.
pub open spec fn fetch_done(d: Display, n: Display, m: MemView) -> bool {
    let x = d.cycle;
    let y = d.scanline;
    let c = m.io.color();
    let f = m.io.palette_format();
    let row = (y / 8) as int;
    let col1 = (x / 2) as int;
    let col2 = ((x - 66) / 2) as int;
    &&& n.color == c
    &&& n.format == f
    &&& n.screen_1_base == (if x == 0 && y == 0 { screen_base(m.io, 0, c) } else { d.screen_1_base })
    &&& n.screen_2_base == (if x == 65 && y == 0 { screen_base(m.io, 4, c) } else { d.screen_2_base })
    &&& n.sprite_base == (if x == 0 && y == 0 { sprite_base(m.io, c) } else { d.sprite_base })
    &&& n.screen_1_elements@ == (if x == 0 {
            d.screen_1_elements@.update(row * 32, screen_element_at(m, n.screen_1_base | ((row * 64) as u16), c))
        } else if 1 <= x <= 63 && x % 2 == 0 {
            d.screen_1_elements@.update(row * 32 + col1, map_element(m, d.screen_1_base, row, col1, c))
        } else {
            d.screen_1_elements@
        })
    &&& n.screen_1_tiles@ == (if 1 <= x <= 63 && x % 2 == 1 {
            tile_stored(d.screen_1_tiles@, row * 32 + col1, m, d.screen_1_elements@[row * 32 + col1].tile_idx, f)
        } else {
            d.screen_1_tiles@
        })
    &&& n.screen_2_elements@ == (if x == 65 {
            d.screen_2_elements@.update(row * 32, screen_element_at(m, n.screen_2_base, c))
        } else if 66 <= x <= 129 && x % 2 == 0 {
            d.screen_2_elements@.update(row * 32 + col2, map_element(m, d.screen_2_base, row, col2, c))
        } else {
            d.screen_2_elements@
        })
    &&& n.screen_2_tiles@ == (if 66 <= x <= 129 && x % 2 == 1 {
            tile_stored(d.screen_2_tiles@, row * 32 + col2, m, d.screen_2_elements@[row * 32 + col2].tile_idx, f)
        } else {
            d.screen_2_tiles@
        })
    &&& x == 0 ==> forall|p: int, raw: int| 0 <= p < 16 && 0 <= raw < 16 ==>
            #[trigger] n.color_map@[p * 16 + raw] == color_map_entry(m, f, c, p as u8, raw as u8)
    &&& x != 0 ==> n.color_map@ == d.color_map@
}

/// A sprite table of 128 blank sprites.
pub open spec fn blank_sprites() -> Seq<SpriteElement> {
    Seq::new(128, |i: int| SpriteElement { vm: false, hm: false, pr: false, ct: false, palette: 0, tile_idx: 0, x: 0, y: 0 })
}

/// The sprite fetches of a cycle of the line after the image: its first cycle empties the sprite
/// table, and while sprites are left to fetch each even cycle reads one, from the first sprite
/// that port 0x05 names on, into its slot with its tile.
pub open spec fn sprites_fetched(d: Display, n: Display, m: MemView) -> bool {
    let table = if d.cycle == 0 { blank_sprites() } else { d.sprite_table@ };
    let tiles = if d.cycle == 0 { Seq::new(8192, |i: int| 0u8) } else { d.sprite_tiles@ };
    if d.sprite_counter > 0 && d.cycle % 2 == 0 {
        let idx = ((d.cycle / 2 + (port_byte(m.io, 0x05) & 0x7F)) % 256) as u8 & 0x7F;
        let s = sprite_at(m, (d.sprite_base + idx * 4) as u16);
        &&& n.sprite_table@ == table.update(idx as int, s)
        &&& n.sprite_tiles@ == tile_stored(tiles, idx as int, m, s.tile_idx, d.format)
        &&& n.sprite_counter == d.sprite_counter - 1
    } else {
        &&& n.sprite_table@ == table
        &&& n.sprite_tiles@ == tiles
        &&& n.sprite_counter == d.sprite_counter
    }
}

/// The ports after the events of a cycle that follow its fetches: the line counter takes the line
/// at cycle 255, VBLANK comes at the last cycle of the line after the image, and past line 254
/// the counter starts again at 0.
pub open spec fn draw_events(io: IOView, cycle: u8, line: u8) -> IOView {
    let io1 = if cycle == 255 { io.with_lcd_line(line) } else { io };
    let io2 = if line == 144 && cycle == 255 { io1.after_vblank() } else { io1 };
    if line == 255 { io2.with_lcd_line(0) } else { io2 }
}

/// What one cycle of the display does: the cycle and scanline advance, a pixel of the previous
/// scanline is drawn during the first 224 cycles, the tile and sprite fetches run, the timers and
/// interrupts of the line events fire, and the finished image is copied to the screen at the end
/// of the last visible line.
#[verifier::opaque]
pub open spec fn display_ticked(d0: Display, m0: MemView, lcd0: Seq<u8>, d1: Display, m1: MemView, lcd1: Seq<u8>) -> bool {
    &&& m1 == (MemView { io: m1.io, ..m0 })
    &&& m1.io == draw_events(
            if d0.cycle == 225 { m0.io.after_hblank() } else { m0.io },
            d0.cycle,
            if d0.cycle == 255 { (d0.scanline + 1) as u8 } else { d0.scanline },
        )
    &&& d1.cycle == (d0.cycle + 1) % 256
    &&& d1.scanline == (if d0.cycle == 255 {
            if d0.scanline == 254 { 0 } else { d0.scanline + 1 }
        } else {
            d0.scanline as int
        })
    &&& d0.cycle == 255 && d0.scanline == 143 ==> lcd1 == d1.lcd@
    &&& !(d0.cycle == 255 && d0.scanline == 143) ==> lcd1 == lcd0
    &&& d0.cycle < 224 && d0.scanline <= 143 ==> ({
            let x = d0.cycle;
            let y: u8 = if d0.scanline == 0 { 143 } else { (d0.scanline - 1) as u8 };
            let p = d1.composed(m1, x, y);
            d1.lcd@ == d0.lcd@.update(dot(x, y), p.0).update(dot(x, y) + 1, p.1).update(dot(x, y) + 2, p.2)
        })
    &&& !(d0.cycle < 224 && d0.scanline <= 143) ==> d1.lcd@ == d0.lcd@
    &&& fetch_done(d0, d1, m0)
    &&& d0.cycle == 0 && d0.scanline == 0 ==> d1.sprite_counter == port_byte(m0.io, 0x06) & 0x7F
    &&& d0.scanline == 144 ==> sprites_fetched(Display { color: d1.color, format: d1.format, ..d0 }, d1, m0)
    &&& d0.scanline != 144 && !(d0.cycle == 0 && d0.scanline == 0) ==> d1.sprite_counter == d0.sprite_counter
    &&& d0.scanline != 144 ==> d1.sprite_table@ == d0.sprite_table@
    &&& d0.scanline != 144 ==> d1.sprite_tiles@ == d0.sprite_tiles@
}

impl Display {
    fn read_screen_base(&self, bus: &MemBus, shift: u8) -> (r: u16)
        requires
            bus.wf(),
            shift == 0 || shift == 4,
        ensures
            r == screen_base(bus@.io, shift, self.color),
    {
        let v = display_port(bus, 0x07);
        let n = (v >> shift) & 0x0F;
        proof {
            lemma_byte_shift(v, shift);
        }
        let b = (n as u16) * 0x800;
        if self.color { b } else { b & 0x3800 }
    }

    fn read_sprite_base(&self, bus: &MemBus) -> (r: u16)
        requires
            bus.wf(),
        ensures
            r == sprite_base(bus@.io, self.color),
            r <= 0x7E00,
    {
        let v = display_port(bus, 0x04);
        let n = v & 0x3F;
        proof {
            lemma_byte_fields(v);
        }
        let b = (n as u16) * 0x200;
        let r = if self.color { b } else { b & 0x3E00 };
        proof {
            lemma_word_fields(b);
        }
        r
    }

    /// Stores the 64 pixels of a tile at a tile slot.
    fn store_tile(tiles: &mut Vec<u8>, slot: usize, tile: &Vec<u8>)
        requires
            tile@.len() == 64,
            forall|i: int| 0 <= i < 64 ==> #[trigger] tile@[i] < 16,
            slot < 1024,
            (slot + 1) * 64 <= old(tiles)@.len(),
            forall|i: int| 0 <= i < old(tiles)@.len() ==> #[trigger] old(tiles)@[i] < 16,
        ensures
            final(tiles)@.len() == old(tiles)@.len(),
            forall|i: int| 0 <= i < final(tiles)@.len() ==> #[trigger] final(tiles)@[i] < 16,
            forall|i: int| 0 <= i < 64 ==> #[trigger] final(tiles)@[slot * 64 + i] == tile@[i],
            forall|i: int| 0 <= i < old(tiles)@.len() && !(slot * 64 <= i < slot * 64 + 64) ==> #[trigger] final(tiles)@[i] == old(tiles)@[i],
    {
        let mut k: usize = 0;
        while k < 64
            invariant
                k <= 64,
                slot < 1024,
                tile@.len() == 64,
                forall|i: int| 0 <= i < 64 ==> #[trigger] tile@[i] < 16,
                (slot + 1) * 64 <= tiles@.len(),
                tiles@.len() == old(tiles)@.len(),
                forall|i: int| 0 <= i < tiles@.len() ==> #[trigger] tiles@[i] < 16,
                forall|i: int| 0 <= i < k ==> #[trigger] tiles@[slot * 64 + i] == tile@[i],
                forall|i: int| 0 <= i < old(tiles)@.len() && !(slot * 64 <= i < slot * 64 + k) ==> #[trigger] tiles@[i] == old(tiles)@[i],
            decreases 64 - k,
        {
            tiles.set(slot * 64 + k, tile[k]);
            k = k + 1;
        }
    }

    /// Reads a tile into a tile slot.
    fn load_tile(&self, bus: &MemBus, tiles: &mut Vec<u8>, slot: usize, index: u16)
        requires
            bus.wf(),
            index < 0x400,
            slot < 1024,
            (slot + 1) * 64 <= old(tiles)@.len(),
            forall|i: int| 0 <= i < old(tiles)@.len() ==> #[trigger] old(tiles)@[i] < 16,
        ensures
            final(tiles)@ == tile_stored(old(tiles)@, slot as int, bus@, index, self.format),
            forall|i: int| 0 <= i < final(tiles)@.len() ==> #[trigger] final(tiles)@[i] < 16,
    {
        let tile = self.read_tile(bus, index, self.format);
        Self::store_tile(tiles, slot, &tile);
        let ghost t = tile_stored(old(tiles)@, slot as int, bus@, index, self.format);
        assert forall|j: int| 0 <= j < tiles@.len() implies #[trigger] tiles@[j] == t[j] by {
            if slot * 64 <= j < slot * 64 + 64 {
                let i = j - slot * 64;
                assert(tiles@[slot * 64 + i] == tile@[i]);
            }
        }
        assert(tiles@ =~= t);
    }

    /// The fetch of screen 1's map and tiles during the first cycles of a scanline: even cycles
    /// read an element, odd cycles the tile of the element read before.
    fn fetch_screen_1(&mut self, bus: &MemBus, x: u8, y: u8)
        requires
            bus.wf(),
            old(self).wf(),
            1 <= x <= 63,
            y < 255,
        ensures
            final(self).wf(),
            ({
                let e = (y / 8) as int * 32 + (x / 2) as int;
                &&& final(self).screen_1_elements@ == (if x % 2 == 0 {
                        old(self).screen_1_elements@.update(e, map_element(bus@, old(self).screen_1_base, (y / 8) as int, (x / 2) as int, old(self).color))
                    } else {
                        old(self).screen_1_elements@
                    })
                &&& final(self).screen_1_tiles@ == (if x % 2 == 1 {
                        tile_stored(old(self).screen_1_tiles@, e, bus@, old(self).screen_1_elements@[e].tile_idx, old(self).format)
                    } else {
                        old(self).screen_1_tiles@
                    })
            }),
            final(self).screen_2_elements == old(self).screen_2_elements,
            final(self).screen_2_tiles == old(self).screen_2_tiles,
            final(self).color_map == old(self).color_map,
            final(self).lcd == old(self).lcd,
            final(self).scanline == old(self).scanline,
            final(self).cycle == old(self).cycle,
            final(self).color == old(self).color,
            final(self).format == old(self).format,
            final(self).screen_1_base == old(self).screen_1_base,
            final(self).screen_2_base == old(self).screen_2_base,
            final(self).sprite_base == old(self).sprite_base,
            final(self).sprite_counter == old(self).sprite_counter,
            final(self).sprite_table == old(self).sprite_table,
            final(self).sprite_tiles == old(self).sprite_tiles,
    {
        let row = (y >> 3) as usize;
        let col = (x / 2) as usize;
        proof {
            lemma_byte_fields(y);
        }
        let e = row * 32 + col;
        if x % 2 == 1 {
            let index = self.screen_1_elements[e].tile_idx;
            let mut tiles = Vec::new();
            std::mem::swap(&mut tiles, &mut self.screen_1_tiles);
            self.load_tile(bus, &mut tiles, e, index);
            self.screen_1_tiles = tiles;
        } else {
            let addr = self.screen_1_base | ((row as u16) * 64) | ((col as u16) * 2);
            let element = self.read_screen_element(bus, addr);
            self.screen_1_elements.set(e, element);
        }
    }

    /// The fetch of screen 2's map and tiles.
    fn fetch_screen_2(&mut self, bus: &MemBus, x: u8, y: u8)
        requires
            bus.wf(),
            old(self).wf(),
            66 <= x <= 129,
            y < 255,
        ensures
            final(self).wf(),
            ({
                let e = (y / 8) as int * 32 + ((x - 66) / 2) as int;
                &&& final(self).screen_2_elements@ == (if x % 2 == 0 {
                        old(self).screen_2_elements@.update(e, map_element(bus@, old(self).screen_2_base, (y / 8) as int, ((x - 66) / 2) as int, old(self).color))
                    } else {
                        old(self).screen_2_elements@
                    })
                &&& final(self).screen_2_tiles@ == (if x % 2 == 1 {
                        tile_stored(old(self).screen_2_tiles@, e, bus@, old(self).screen_2_elements@[e].tile_idx, old(self).format)
                    } else {
                        old(self).screen_2_tiles@
                    })
            }),
            final(self).screen_1_elements == old(self).screen_1_elements,
            final(self).screen_1_tiles == old(self).screen_1_tiles,
            final(self).color_map == old(self).color_map,
            final(self).lcd == old(self).lcd,
            final(self).scanline == old(self).scanline,
            final(self).cycle == old(self).cycle,
            final(self).color == old(self).color,
            final(self).format == old(self).format,
            final(self).screen_1_base == old(self).screen_1_base,
            final(self).screen_2_base == old(self).screen_2_base,
            final(self).sprite_base == old(self).sprite_base,
            final(self).sprite_counter == old(self).sprite_counter,
            final(self).sprite_table == old(self).sprite_table,
            final(self).sprite_tiles == old(self).sprite_tiles,
    {
        let row = (y >> 3) as usize;
        let col = ((x - 66) / 2) as usize;
        proof {
            lemma_byte_fields(y);
        }
        let e = row * 32 + col;
        if x % 2 == 1 {
            let index = self.screen_2_elements[e].tile_idx;
            let mut tiles = Vec::new();
            std::mem::swap(&mut tiles, &mut self.screen_2_tiles);
            self.load_tile(bus, &mut tiles, e, index);
            self.screen_2_tiles = tiles;
        } else {
            let addr = self.screen_2_base | ((row as u16) * 64) | ((col as u16) * 2);
            let element = self.read_screen_element(bus, addr);
            self.screen_2_elements.set(e, element);
        }
    }

    /// Reads a sprite of the table into its slot, during the scanline after the image.
    fn fetch_sprite(&mut self, bus: &MemBus)
        requires
            bus.wf(),
            old(self).wf(),
            old(self).sprite_counter > 0,
            old(self).sprite_base <= 0x7E00,
        ensures
            final(self).wf(),
            final(self).lcd == old(self).lcd,
            final(self).scanline == old(self).scanline,
            final(self).cycle == old(self).cycle,
            final(self).color == old(self).color,
            final(self).format == old(self).format,
            final(self).sprite_base == old(self).sprite_base,
            final(self).sprite_counter == old(self).sprite_counter - 1,
            ({
                let idx = ((old(self).cycle / 2 + (port_byte(bus@.io, 0x05) & 0x7F)) % 256) as u8 & 0x7F;
                let s = sprite_at(bus@, (old(self).sprite_base + idx * 4) as u16);
                &&& final(self).sprite_table@ == old(self).sprite_table@.update(idx as int, s)
                &&& final(self).sprite_tiles@ == tile_stored(old(self).sprite_tiles@, idx as int, bus@, s.tile_idx, old(self).format)
            }),
            final(self).screen_1_base == old(self).screen_1_base,
            final(self).screen_2_base == old(self).screen_2_base,
            final(self).screen_1_elements == old(self).screen_1_elements,
            final(self).screen_2_elements == old(self).screen_2_elements,
            final(self).screen_1_tiles == old(self).screen_1_tiles,
            final(self).screen_2_tiles == old(self).screen_2_tiles,
            final(self).color_map == old(self).color_map,
    {
        let start = display_port(bus, 0x05) & 0x7F;
        let c = (self.cycle / 2).wrapping_add(start);
        let idx = c & 0x7F;
        proof {
            lemma_byte_fields(c);
        }
        let addr = self.sprite_base + (idx as u16) * 4;
        let sprite = self.read_sprite(bus, addr);
        self.sprite_table.set(idx as usize, sprite);
        let mut tiles = Vec::new();
        std::mem::swap(&mut tiles, &mut self.sprite_tiles);
        self.load_tile(bus, &mut tiles, idx as usize, sprite.tile_idx);
        self.sprite_tiles = tiles;
        self.sprite_counter = self.sprite_counter - 1;
    }

    /// Empties the sprite table.
    fn clear_sprites(&mut self)
        requires
            old(self).wf(),
        ensures
            final(self).wf(),
            final(self).sprite_table@ == blank_sprites(),
            final(self).sprite_tiles@ == Seq::new(8192, |i: int| 0u8),
            final(self).lcd == old(self).lcd,
            final(self).scanline == old(self).scanline,
            final(self).cycle == old(self).cycle,
            final(self).color == old(self).color,
            final(self).format == old(self).format,
            final(self).sprite_base == old(self).sprite_base,
            final(self).sprite_counter == old(self).sprite_counter,
            final(self).screen_1_base == old(self).screen_1_base,
            final(self).screen_2_base == old(self).screen_2_base,
            final(self).screen_1_elements == old(self).screen_1_elements,
            final(self).screen_2_elements == old(self).screen_2_elements,
            final(self).screen_1_tiles == old(self).screen_1_tiles,
            final(self).screen_2_tiles == old(self).screen_2_tiles,
            final(self).color_map == old(self).color_map,
    {
        self.sprite_table = filled_sprites();
        self.sprite_tiles = crate::cartridge::zeroed(8192);
    }

    /// The fetches and events of a cycle, before any pixel is drawn.
    #[verifier::rlimit(100)]
    fn tick_fetch(&mut self, bus: &mut MemBus)
        requires
            old(self).wf(),
            old(bus).wf(),
            old(self).sprite_base <= 0x7E00,
        ensures
            final(self).buffers_ok(),
            final(bus).wf(),
            final(self).sprite_base <= 0x7E00,
            final(bus)@ == (MemView { io: final(bus)@.io, ..old(bus)@ }),
            final(bus)@.io == (if old(self).cycle == 225 { old(bus)@.io.after_hblank() } else { old(bus)@.io }),
            final(self).cycle == old(self).cycle,
            final(self).scanline == (if old(self).cycle == 255 { old(self).scanline + 1 } else { old(self).scanline as int }),
            final(self).lcd@ == old(self).lcd@,
            fetch_done(*old(self), *final(self), old(bus)@),
            final(self).sprite_counter == (if old(self).cycle == 0 && old(self).scanline == 0 {
                port_byte(old(bus)@.io, 0x06) & 0x7F
            } else {
                old(self).sprite_counter
            }),
            final(self).sprite_table == old(self).sprite_table,
            final(self).sprite_tiles == old(self).sprite_tiles,
    {
        self.color = bus.io_bus.color_mode();
        self.format = bus.io_bus.palette_format();
        let x = self.cycle;
        let y = self.scanline;
        if x == 0 {
            if y == 0 {
                self.screen_1_base = self.read_screen_base(bus, 0);
                self.sprite_base = self.read_sprite_base(bus);
                self.sprite_counter = display_port(bus, 0x06) & 0x7F;
            }
            self.generate_color_map(bus);
            self.finished_sprites = false;
            let row = (y >> 3) as usize;
            proof {
                lemma_byte_fields(y);
            }
            let addr = self.screen_1_base | ((row as u16) * 64);
            let element = self.read_screen_element(bus, addr);
            self.screen_1_elements.set(row * 32, element);
        } else if x <= 63 {
            self.fetch_screen_1(bus, x, y);
        } else if x == 65 {
            if y == 0 {
                self.screen_2_base = self.read_screen_base(bus, 4);
            }
            let row = (y >> 3) as usize;
            proof {
                lemma_byte_fields(y);
            }
            let element = self.read_screen_element(bus, self.screen_2_base);
            self.screen_2_elements.set(row * 32, element);
        } else if 66 <= x && x <= 129 {
            self.fetch_screen_2(bus, x, y);
        } else if x == 225 {
            bus.io_bus.hblank();
        } else if x == 255 {
            self.scanline = self.scanline + 1;
        }
    }

    /// What a cycle does after its fetches: the line counter at cycle 255, a pixel of the
    /// previous scanline during the first 224 cycles, and on the line after the image the sprite
    /// fetches and, at its last cycle, VBLANK and the copy of the image to `shared_lcd`; then the
    /// next cycle begins.
    #[verifier::rlimit(100)]
    fn tick_draw(&mut self, bus: &mut MemBus, shared_lcd: &mut Vec<u8>)
        requires
            old(self).buffers_ok(),
            old(bus).wf(),
            old(self).sprite_base <= 0x7E00,
            old(shared_lcd)@.len() == LCD_BYTES,
        ensures
            final(self).wf(),
            final(bus).wf(),
            final(bus)@ == (MemView { io: final(bus)@.io, ..old(bus)@ }),
            final(bus)@.io == draw_events(old(bus)@.io, old(self).cycle, old(self).scanline),
            final(shared_lcd)@.len() == LCD_BYTES,
            final(self).cycle == (old(self).cycle + 1) % 256,
            final(self).scanline == (if old(self).scanline == 255 { 0 } else { old(self).scanline as int }),
            old(self).cycle == 255 && old(self).scanline == 144 ==> final(shared_lcd)@ == final(self).lcd@,
            !(old(self).cycle == 255 && old(self).scanline == 144) ==> final(shared_lcd)@ == old(shared_lcd)@,
            old(self).cycle < 224 && old(self).scanline <= 143 ==> ({
                let x = old(self).cycle;
                let y: u8 = if old(self).scanline == 0 { 143 } else { (old(self).scanline - 1) as u8 };
                let p = final(self).composed(final(bus)@, x, y);
                final(self).lcd@ == old(self).lcd@.update(dot(x, y), p.0).update(dot(x, y) + 1, p.1).update(dot(x, y) + 2, p.2)
            }),
            !(old(self).cycle < 224 && old(self).scanline <= 143) ==> final(self).lcd@ == old(self).lcd@,
            old(self).scanline != 144 ==> final(self).sprite_counter == old(self).sprite_counter,
            old(self).scanline != 144 ==> final(self).sprite_table == old(self).sprite_table,
            old(self).scanline != 144 ==> final(self).sprite_tiles == old(self).sprite_tiles,
            old(self).scanline == 144 ==> sprites_fetched(*old(self), *final(self), old(bus)@),
            final(self).sprite_base == old(self).sprite_base,
            final(self).color == old(self).color,
            final(self).format == old(self).format,
            final(self).screen_1_base == old(self).screen_1_base,
            final(self).screen_2_base == old(self).screen_2_base,
            final(self).screen_1_elements == old(self).screen_1_elements,
            final(self).screen_2_elements == old(self).screen_2_elements,
            final(self).screen_1_tiles == old(self).screen_1_tiles,
            final(self).screen_2_tiles == old(self).screen_2_tiles,
            final(self).color_map == old(self).color_map,
    {
        if self.cycle == 255 {
            bus.io_bus.set_lcd_line(self.scanline);
        }
        if self.scanline == 0 && self.cycle < 224 {
            self.overlay_pixels(bus, self.cycle, 143);
        }
        if 1 <= self.scanline && self.scanline <= 143 && self.cycle < 224 {
            self.overlay_pixels(bus, self.cycle, self.scanline - 1);
        }
        if self.scanline == 144 {
            if self.cycle == 0 {
                self.clear_sprites();
            }
            if self.sprite_counter > 0 && self.cycle % 2 == 0 {
                self.fetch_sprite(bus);
            }
            if self.cycle == 255 {
                copy_lcd(shared_lcd, &self.lcd);
                bus.io_bus.vblank();
            }
        }
        if self.scanline == 255 {
            self.scanline = 0;
            bus.io_bus.set_lcd_line(0);
        }
        self.cycle = self.cycle.wrapping_add(1);
    }

    /// One display cycle: the fetches of the cycle, HBLANK at cycle 225, the next scanline at
    /// cycle 255, a pixel of the previous scanline during the first 224 cycles, and on the line
    /// after the image the sprite fetches and, at its last cycle, VBLANK and the copy of the image
    /// to `shared_lcd`.
    pub fn tick(&mut self, bus: &mut MemBus, shared_lcd: &mut Vec<u8>)
        requires
            old(self).wf(),
            old(bus).wf(),
            old(self).sprite_base <= 0x7E00,
            old(shared_lcd)@.len() == LCD_BYTES,
        ensures
            final(self).wf(),
            final(bus).wf(),
            final(self).sprite_base <= 0x7E00,
            final(shared_lcd)@.len() == LCD_BYTES,
            final(bus)@ == (MemView { io: final(bus)@.io, ..old(bus)@ }),
            display_ticked(*old(self), old(bus)@, old(shared_lcd)@, *final(self), final(bus)@, final(shared_lcd)@),
    {
        proof {
            reveal(display_ticked);
        }
        self.tick_fetch(bus);
        self.tick_draw(bus, shared_lcd);
    }

    /// The word of a tile map at a row and column.
    pub fn fetch_map_word(&self, bus: &MemBus, base: u16, row: u16, col: u16) -> (r: u16)
        requires
            bus.wf(),
            row < 32,
            col < 32,
        ensures
            r == bus@.read16((base | (row * 64) as u16 | (col * 2) as u16) as u32),
    {
        bus.read_mem_16((base | (row * 64) | (col * 2)) as u32)
    }

    /// The pixels of a tile in the 2-bit planar format.
    pub fn decode_2bpp_tile(&self, bus: &MemBus, index: u16) -> (r: Vec<u8>)
        requires
            bus.wf(),
            index < 0x400,
        ensures
            r@.len() == 64,
            forall|i: int| 0 <= i < 64 ==> #[trigger] r@[i] == tile_pixel(bus@, index, PaletteFormat::PLANAR_2BPP, i / 8, i % 8),
    {
        self.read_tile(bus, index, PaletteFormat::PLANAR_2BPP)
    }

    /// The entries of a monochrome palette, whatever the display's mode.
    pub fn force_get_monochrome_palette(&self, bus: &MemBus, palette: u8) -> (r: Vec<Rgb>)
        requires
            bus.wf(),
            palette < 16,
        ensures
            r@.len() == 4,
            forall|i: int| 0 <= i < 4 ==> #[trigger] r@[i] == mono_entry(bus@.io, palette, i),
    {
        self.get_monochrome_palette(bus, palette)
    }
}

/// Copies the image into the buffer shared with the screen.
fn copy_lcd(shared: &mut Vec<u8>, lcd: &Vec<u8>)
    requires
        old(shared)@.len() == lcd@.len(),
    ensures
        final(shared)@ == lcd@,
{
    let mut i: usize = 0;
    while i < lcd.len()
        invariant
            i <= lcd@.len(),
            shared@.len() == lcd@.len(),
            forall|j: int| 0 <= j < i ==> #[trigger] shared@[j] == lcd@[j],
        decreases lcd.len() - i,
    {
        shared.set(i, lcd[i]);
        i = i + 1;
    }
    assert(shared@ =~= lcd@);
}

} // verus!
