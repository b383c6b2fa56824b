//! The header at the end of a WonderSwan ROM image.
use vstd::prelude::*;
use crate::cartridge::Mapper;

verus! {

/// What the last 16 bytes of a ROM image tell about the cartridge.
#[derive(Clone, Copy, PartialEq, Eq, Structural, Debug)]
pub struct RomInfo {
    /// Whether the game supports color output
    pub color: bool,
    /// Bytes of save memory
    pub ram_size: u32,
    /// Whether the save memory is SRAM rather than EEPROM
    pub sram: bool,
    /// The mapper chip of the cartridge
    pub mapper: Mapper,
    /// Bits 2 and 3 of the system control port 0xA0
    pub rom_info: u8,
}

/// Why a ROM image cannot be run.
#[derive(Clone, Copy, PartialEq, Eq, Structural, Debug)]
pub enum RomError {
    /// The image is shorter than its 16-byte footer
    TooShort,
    /// The save type byte names no known save memory
    UnknownSaveType(u8),
    /// The mapper byte names no known mapper
    UnknownMapper(u8),
}

/// The save memory a save type byte names: its size and whether it is SRAM.
pub open spec fn save_type(b: u8) -> Option<(u32, bool)> {
    if b == 0x00 { Some((0, true)) }
    else if b == 0x01 || b == 0x02 { Some((0x8000, true)) }
    else if b == 0x03 { Some((0x20000, true)) }
    else if b == 0x04 { Some((0x40000, true)) }
    else if b == 0x05 { Some((0x80000, true)) }
    else if b == 0x10 { Some((0x400, false)) }
    else if b == 0x20 { Some((0x4000, false)) }
    else if b == 0x50 { Some((0x2000, false)) }
    else { None }
}

/// The mapper a mapper byte names.
pub open spec fn mapper_of(b: u8) -> Option<Mapper> {
    if b == 0 { Some(Mapper::B_2001) } else if b == 1 { Some(Mapper::B_2003) } else { None }
}

/// The information a ROM image's footer holds, or why it cannot be read: the footer is its last
/// 16 bytes; byte 7 bit 0 is color support, byte 0xB the save type, byte 0xC the ROM
/// information and byte 0xD the mapper.
pub open spec fn spec_parse_footer(rom: Seq<u8>) -> Result<RomInfo, RomError> {
    if rom.len() < 16 {
        Err(RomError::TooShort)
    } else {
        let f = rom.subrange(rom.len() - 16, rom.len() as int);
        match save_type(f[0xB]) {
            None => Err(RomError::UnknownSaveType(f[0xB])),
            Some((ram_size, sram)) => match mapper_of(f[0xD]) {
                None => Err(RomError::UnknownMapper(f[0xD])),
                Some(mapper) => Ok(RomInfo { color: f[0x7] & 1 != 0, ram_size, sram, mapper, rom_info: f[0xC] & 0x0C }),
            },
        }
    }
}

/// Reads the footer of a ROM image.
pub fn parse_footer(rom: &Vec<u8>) -> (r: Result<RomInfo, RomError>)
    ensures
        r == spec_parse_footer(rom@),
{
    let n = rom.len();
    if n < 16 {
        return Err(RomError::TooShort);
    }
    let base = n - 16;
    let save = rom[base + 0xB];
    let (ram_size, sram): (u32, bool) = if save == 0x00 { (0, true) }
        else if save == 0x01 || save == 0x02 { (0x8000, true) }
        else if save == 0x03 { (0x20000, true) }
        else if save == 0x04 { (0x40000, true) }
        else if save == 0x05 { (0x80000, true) }
        else if save == 0x10 { (0x400, false) }
        else if save == 0x20 { (0x4000, false) }
        else if save == 0x50 { (0x2000, false) }
        else { return Err(RomError::UnknownSaveType(save)); };
    let m = rom[base + 0xD];
    let mapper = if m == 0 { Mapper::B_2001 } else if m == 1 { Mapper::B_2003 } else { return Err(RomError::UnknownMapper(m)); };
    Ok(RomInfo { color: rom[base + 0x7] & 1 != 0, ram_size, sram, mapper, rom_info: rom[base + 0xC] & 0x0C })
}

} // verus!
