//! The cartridge: its ROM, its optional SRAM and the bank registers of its mapper chip.
use vstd::prelude::*;
use crate::bits::{lemma_concat16, lemma_low_mask32, u16_from_le};

verus! {

/// The value that reads of unmapped addresses and ports return.
pub const OPEN_BUS: u8 = 0x90;

/// The mapper chips contained within WonderSwan cartridges.
#[derive(Clone, Copy, PartialEq, Eq, Structural, Debug)]
pub enum Mapper {
    /// Bandai 2001 mapper
    B_2001,
    /// Bandai 2003 mapper
    B_2003,
}

/// The cartridge.
pub struct Cartridge {
    /// The cartridge SRAM, may be empty
    pub sram: Vec<u8>,
    /// The contents of the ROM
    pub rom: Vec<u8>,
    /// The mapper chip
    pub mapper: Mapper,
    /// Low byte of the RAM bank, or the entire bank if the mapper is 2001
    pub ram_bank_l: u8,
    /// High byte of the RAM bank, ignored on mapper 2001
    pub ram_bank_h: u8,
    /// Low byte of ROM bank 0, or the entire bank if the mapper is 2001
    pub rom_bank_0_l: u8,
    /// High byte of ROM bank 0, ignored on mapper 2001
    pub rom_bank_0_h: u8,
    /// Low byte of ROM bank 1, or the entire bank if the mapper is 2001
    pub rom_bank_1_l: u8,
    /// High byte of ROM bank 1, ignored on mapper 2001
    pub rom_bank_1_h: u8,
    /// Offset into the extended addressing space
    pub linear_addr_off: u8,
    /// Whether or not the cartridge contains writable SRAM
    pub rewrittable: bool,
}

/// The abstract state of a cartridge.
pub struct CartridgeView {
    pub sram: Seq<u8>,
    pub rom: Seq<u8>,
    pub mapper: Mapper,
    pub ram_bank_l: u8,
    pub ram_bank_h: u8,
    pub rom_bank_0_l: u8,
    pub rom_bank_0_h: u8,
    pub rom_bank_1_l: u8,
    pub rom_bank_1_h: u8,
    pub linear_addr_off: u8,
    pub rewrittable: bool,
}

impl View for Cartridge {
    type V = CartridgeView;

    open spec fn view(&self) -> CartridgeView {
        CartridgeView {
            sram: self.sram@,
            rom: self.rom@,
            mapper: self.mapper,
            ram_bank_l: self.ram_bank_l,
            ram_bank_h: self.ram_bank_h,
            rom_bank_0_l: self.rom_bank_0_l,
            rom_bank_0_h: self.rom_bank_0_h,
            rom_bank_1_l: self.rom_bank_1_l,
            rom_bank_1_h: self.rom_bank_1_h,
            linear_addr_off: self.linear_addr_off,
            rewrittable: self.rewrittable,
        }
    }
}

/// A bank number as the mapper sees it: the low byte alone on the 2001, both bytes on the 2003.
pub open spec fn bank(mapper: Mapper, lo: u8, hi: u8) -> nat {
    match mapper {
        Mapper::B_2001 => lo as nat,
        Mapper::B_2003 => (lo + hi * 256) as nat,
    }
}

/// Index of a banked 64 KiB window access inside a memory of length `len`.
pub open spec fn banked_index(bank: nat, addr: u32, len: nat) -> int {
    ((bank * 0x10000 + addr % 0x10000) % (len as int)) as int
}

impl CartridgeView {
    pub open spec fn wf(self) -> bool {
        &&& 0 < self.rom.len() <= u32::MAX
        &&& self.sram.len() <= u32::MAX
    }

    pub open spec fn ram_bank(self) -> nat {
        bank(self.mapper, self.ram_bank_l, self.ram_bank_h)
    }

    pub open spec fn rom_bank_0(self) -> nat {
        bank(self.mapper, self.rom_bank_0_l, self.rom_bank_0_h)
    }

    pub open spec fn rom_bank_1(self) -> nat {
        bank(self.mapper, self.rom_bank_1_l, self.rom_bank_1_h)
    }

    /// The byte a read of the SRAM window gives.
    pub open spec fn sram_byte(self, addr: u32) -> u8 {
        if self.sram.len() == 0 {
            OPEN_BUS
        } else {
            self.sram[banked_index(self.ram_bank(), addr, self.sram.len())]
        }
    }

    /// The cartridge after a write to the SRAM window.
    pub open spec fn sram_written(self, addr: u32, byte: u8) -> CartridgeView {
        if self.sram.len() == 0 || !self.rewrittable {
            self
        } else {
            CartridgeView {
                sram: self.sram.update(banked_index(self.ram_bank(), addr, self.sram.len()), byte),
                ..self
            }
        }
    }

    pub open spec fn rom_0_byte(self, addr: u32) -> u8 {
        self.rom[banked_index(self.rom_bank_0(), addr, self.rom.len())]
    }

    pub open spec fn rom_1_byte(self, addr: u32) -> u8 {
        self.rom[banked_index(self.rom_bank_1(), addr, self.rom.len())]
    }

    /// The byte a read of the extended ROM range gives: the linear offset supplies the address bits above 20.
    pub open spec fn rom_ex_byte(self, addr: u32) -> u8 {
        self.rom[((self.linear_addr_off * 0x100000 + addr % 0x100000) % (self.rom.len() as int)) as int]
    }
}

/// Computes the banked index of an access, as the mapper does.
fn banked_offset(bank: u32, addr: u32, len: usize) -> (r: usize)
    requires
        bank < 0x10000,
        0 < len <= u32::MAX,
    ensures
        r == banked_index(bank as nat, addr, len as nat),
        r < len,
{
    let lo = addr & 0xFFFF;
    proof {
        lemma_low_mask32(addr);
        lemma_concat16(bank, lo);
    }
    let offset = ((bank << 16u32) | lo) % (len as u32);
    offset as usize
}

impl Cartridge {
    pub open spec fn wf(&self) -> bool {
        self@.wf()
    }

    /// Returns a new cartridge; all bank registers start at 0xFF.
    pub fn new(mapper: Mapper, sram: Vec<u8>, rom: Vec<u8>, rewrittable: bool) -> (r: Self)
        ensures
            r@ == (CartridgeView {
                sram: sram@, rom: rom@, mapper,
                ram_bank_l: 0xFF, ram_bank_h: 0xFF,
                rom_bank_0_l: 0xFF, rom_bank_0_h: 0xFF,
                rom_bank_1_l: 0xFF, rom_bank_1_h: 0xFF,
                linear_addr_off: 0xFF, rewrittable,
            }),
    {
        Self {
            sram, rom, mapper,
            ram_bank_l: 0xFF, ram_bank_h: 0xFF,
            rom_bank_0_l: 0xFF, rom_bank_0_h: 0xFF,
            rom_bank_1_l: 0xFF, rom_bank_1_h: 0xFF,
            linear_addr_off: 0xFF,
            rewrittable,
        }
    }

    fn bank_number(&self, lo: u8, hi: u8) -> (r: u32)
        ensures
            r == bank(self.mapper, lo, hi),
            r < 0x10000,
    {
        match self.mapper {
            Mapper::B_2001 => lo as u32,
            Mapper::B_2003 => u16_from_le(lo, hi) as u32,
        }
    }

    /// Reads the SRAM at the index formed by combining the provided address with the RAM bank.
    pub fn read_sram(&self, addr: u32) -> (r: u8)
        requires
            self.wf(),
        ensures
            r == self@.sram_byte(addr),
    {
        if self.sram.len() == 0 {
            return OPEN_BUS;
        }
        let hi = self.bank_number(self.ram_bank_l, self.ram_bank_h);
        let offset = banked_offset(hi, addr, self.sram.len());
        self.sram[offset]
    }

    /// Writes a byte to the SRAM at the index formed by combining the provided address with the RAM bank.
    pub fn write_sram(&mut self, addr: u32, byte: u8)
        requires
            old(self).wf(),
        ensures
            final(self)@ == old(self)@.sram_written(addr, byte),
    {
        if self.sram.len() == 0 {
            return;
        }
        if self.rewrittable {
            let hi = self.bank_number(self.ram_bank_l, self.ram_bank_h);
            let offset = banked_offset(hi, addr, self.sram.len());
            self.sram.set(offset, byte);
        }
    }

    /// Reads the ROM at the index formed by combining the provided address with ROM bank 0.
    pub fn read_rom_0(&self, addr: u32) -> (r: u8)
        requires
            self.wf(),
        ensures
            r == self@.rom_0_byte(addr),
    {
        let hi = self.bank_number(self.rom_bank_0_l, self.rom_bank_0_h);
        let offset = banked_offset(hi, addr, self.rom.len());
        self.rom[offset]
    }

    /// Reads the ROM at the index formed by combining the provided address with ROM bank 1.
    pub fn read_rom_1(&self, addr: u32) -> (r: u8)
        requires
            self.wf(),
        ensures
            r == self@.rom_1_byte(addr),
    {
        let hi = self.bank_number(self.rom_bank_1_l, self.rom_bank_1_h);
        let offset = banked_offset(hi, addr, self.rom.len());
        self.rom[offset]
    }

    /// Reads the ROM at the index formed by combining the provided address with the extended range offset.
    pub fn read_rom_ex(&self, addr: u32) -> (r: u8)
        requires
            self.wf(),
        ensures
            r == self@.rom_ex_byte(addr),
    {
        let a = addr & 0xFFFFF;
        let off = self.linear_addr_off as u32;
        proof {
            lemma_low_mask32(addr);
            assert(((off << 20u32) | a) == off * 0x100000 + a) by (bit_vector)
                requires off < 256, a < 0x100000;
        }
        let hi = off << 20u32;
        let offset = (hi | a) % (self.rom.len() as u32);
        self.rom[offset as usize]
    }

    /// A cartridge with a 1 MiB zeroed ROM and 1 MiB of zeroed writable SRAM.
    pub fn test_build() -> (r: Self)
        ensures
            r.wf(),
            r@.mapper == Mapper::B_2001,
            r@.rom == Seq::new(0x100000, |i: int| 0u8),
            r@.sram == Seq::new(0x100000, |i: int| 0u8),
            r@.rewrittable,
    {
        let sram = zeroed(0x100000);
        let rom = zeroed(0x100000);
        Self::new(Mapper::B_2001, sram, rom, true)
    }

    // Bank register ports

    pub fn read_ram_bank(&self) -> (r: u8)
        ensures r == self.ram_bank_l,
    {
        self.ram_bank_l
    }

    pub fn read_ram_bank_l(&self) -> (r: u8)
        ensures r == (if self.mapper == Mapper::B_2001 { OPEN_BUS } else { self.ram_bank_l }),
    {
        match self.mapper {
            Mapper::B_2001 => OPEN_BUS,
            Mapper::B_2003 => self.ram_bank_l,
        }
    }

    pub fn read_ram_bank_h(&self) -> (r: u8)
        ensures r == (if self.mapper == Mapper::B_2001 { OPEN_BUS } else { self.ram_bank_h }),
    {
        match self.mapper {
            Mapper::B_2001 => OPEN_BUS,
            Mapper::B_2003 => self.ram_bank_h,
        }
    }

    pub fn read_rom_bank_0(&self) -> (r: u8)
        ensures r == self.rom_bank_0_l,
    {
        self.rom_bank_0_l
    }

    pub fn read_rom_bank_0_l(&self) -> (r: u8)
        ensures r == (if self.mapper == Mapper::B_2001 { OPEN_BUS } else { self.rom_bank_0_l }),
    {
        match self.mapper {
            Mapper::B_2001 => OPEN_BUS,
            Mapper::B_2003 => self.rom_bank_0_l,
        }
    }

    pub fn read_rom_bank_0_h(&self) -> (r: u8)
        ensures r == (if self.mapper == Mapper::B_2001 { OPEN_BUS } else { self.rom_bank_0_h }),
    {
        match self.mapper {
            Mapper::B_2001 => OPEN_BUS,
            Mapper::B_2003 => self.rom_bank_0_h,
        }
    }

    pub fn read_rom_bank_1(&self) -> (r: u8)
        ensures r == self.rom_bank_1_l,
    {
        self.rom_bank_1_l
    }

    pub fn read_rom_bank_1_l(&self) -> (r: u8)
        ensures r == (if self.mapper == Mapper::B_2001 { OPEN_BUS } else { self.rom_bank_1_l }),
    {
        match self.mapper {
            Mapper::B_2001 => OPEN_BUS,
            Mapper::B_2003 => self.rom_bank_1_l,
        }
    }

    pub fn read_rom_bank_1_h(&self) -> (r: u8)
        ensures r == (if self.mapper == Mapper::B_2001 { OPEN_BUS } else { self.rom_bank_1_h }),
    {
        match self.mapper {
            Mapper::B_2001 => OPEN_BUS,
            Mapper::B_2003 => self.rom_bank_1_h,
        }
    }

    pub fn read_linear_addr_off(&self) -> (r: u8)
        ensures r == self.linear_addr_off,
    {
        self.linear_addr_off
    }

    pub fn read_linear_addr_off_shadow(&self) -> (r: u8)
        ensures r == (if self.mapper == Mapper::B_2001 { OPEN_BUS } else { self.linear_addr_off }),
    {
        match self.mapper {
            Mapper::B_2001 => OPEN_BUS,
            Mapper::B_2003 => self.linear_addr_off,
        }
    }

    pub fn write_ram_bank(&mut self, byte: u8)
        ensures final(self)@ == (CartridgeView { ram_bank_l: byte, ..old(self)@ }),
    {
        self.ram_bank_l = byte;
    }

    pub fn write_ram_bank_l(&mut self, byte: u8)
        ensures
            final(self)@ == (if old(self).mapper == Mapper::B_2001 { old(self)@ } else {
                CartridgeView { ram_bank_l: byte, ..old(self)@ } }),
    {
        match self.mapper {
            Mapper::B_2001 => {},
            Mapper::B_2003 => self.ram_bank_l = byte,
        }
    }

    pub fn write_ram_bank_h(&mut self, byte: u8)
        ensures
            final(self)@ == (if old(self).mapper == Mapper::B_2001 { old(self)@ } else {
                CartridgeView { ram_bank_h: byte, ..old(self)@ } }),
    {
        match self.mapper {
            Mapper::B_2001 => {},
            Mapper::B_2003 => self.ram_bank_h = byte,
        }
    }

    pub fn write_rom_bank_0(&mut self, byte: u8)
        ensures final(self)@ == (CartridgeView { rom_bank_0_l: byte, ..old(self)@ }),
    {
        self.rom_bank_0_l = byte;
    }

    pub fn write_rom_bank_0_l(&mut self, byte: u8)
        ensures
            final(self)@ == (if old(self).mapper == Mapper::B_2001 { old(self)@ } else {
                CartridgeView { rom_bank_0_l: byte, ..old(self)@ } }),
    {
        match self.mapper {
            Mapper::B_2001 => {},
            Mapper::B_2003 => self.rom_bank_0_l = byte,
        }
    }

    pub fn write_rom_bank_0_h(&mut self, byte: u8)
        ensures
            final(self)@ == (if old(self).mapper == Mapper::B_2001 { old(self)@ } else {
                CartridgeView { rom_bank_0_h: byte, ..old(self)@ } }),
    {
        match self.mapper {
            Mapper::B_2001 => {},
            Mapper::B_2003 => self.rom_bank_0_h = byte,
        }
    }

    pub fn write_rom_bank_1(&mut self, byte: u8)
        ensures final(self)@ == (CartridgeView { rom_bank_1_l: byte, ..old(self)@ }),
    {
        self.rom_bank_1_l = byte;
    }

    pub fn write_rom_bank_1_l(&mut self, byte: u8)
        ensures
            final(self)@ == (if old(self).mapper == Mapper::B_2001 { old(self)@ } else {
                CartridgeView { rom_bank_1_l: byte, ..old(self)@ } }),
    {
        match self.mapper {
            Mapper::B_2001 => {},
            Mapper::B_2003 => self.rom_bank_1_l = byte,
        }
    }

    pub fn write_rom_bank_1_h(&mut self, byte: u8)
        ensures
            final(self)@ == (if old(self).mapper == Mapper::B_2001 { old(self)@ } else {
                CartridgeView { rom_bank_1_h: byte, ..old(self)@ } }),
    {
        match self.mapper {
            Mapper::B_2001 => {},
            Mapper::B_2003 => self.rom_bank_1_h = byte,
        }
    }

    pub fn write_linear_addr_off(&mut self, byte: u8)
        ensures final(self)@ == (CartridgeView { linear_addr_off: byte, ..old(self)@ }),
    {
        self.linear_addr_off = byte;
    }
}

/// A vector of `n` zero bytes.
pub fn zeroed(n: usize) -> (v: Vec<u8>)
    ensures
        v@ == Seq::new(n as nat, |i: int| 0u8),
{
    filled(n, 0)
}

/// A vector of `n` copies of `byte`.
pub fn filled(n: usize, byte: u8) -> (v: Vec<u8>)
    ensures
        v@ == Seq::new(n as nat, |i: int| byte),
{
    let mut v: Vec<u8> = Vec::with_capacity(n);
    let mut i: usize = 0;
    while i < n
        invariant
            i <= n,
            v@ == Seq::new(i as nat, |j: int| byte),
        decreases n - i,
    {
        v.push(byte);
        i = i + 1;
    }
    v
}

} // verus!
