//! The WonderSwan's shared memory bus and its 20-bit address map.
//!
//! | Address           | Memory            |
//! |-------------------|-------------------|
//! | 0x00000 - 0x03FFF | WRAM              |
//! | 0x04000 - 0x0FFFF | WRAM (color only) |
//! | 0x10000 - 0x1FFFF | SRAM              |
//! | 0x20000 - 0x2FFFF | ROM bank 0        |
//! | 0x30000 - 0x3FFFF | ROM bank 1        |
//! | 0x40000 - 0xFFFFF | ROM EX range      |
use vstd::prelude::*;
use crate::bits::{hi8, lo8, word, u16_from_le, u16_to_le};
use crate::bus::io_bus::{IOBus, IOView};
use crate::cartridge::{OPEN_BUS, zeroed};

verus! {

/// Which component holds the memory bus exclusively.
#[derive(Clone, Copy, PartialEq, Eq, Structural, Debug)]
pub enum Owner {
    /// The default state of the bus
    NONE,
    /// Used when the CPU executes BUSLOCK
    CPU,
    /// Used while the general DMA operates
    DMA,
}

/// The WonderSwan's shared memory bus.
pub struct MemBus {
    /// The bus's current owner
    pub owner: Owner,
    /// Internal work RAM, only a quarter of which is reachable on monochrome models
    pub wram: Vec<u8>,
    /// The I/O bus, which also holds the cartridge
    pub io_bus: IOBus,
}

/// The abstract state of the memory bus.
pub struct MemView {
    pub owner: Owner,
    pub wram: Seq<u8>,
    pub io: IOView,
}

impl View for MemBus {
    type V = MemView;

    open spec fn view(&self) -> MemView {
        MemView { owner: self.owner, wram: self.wram@, io: self.io_bus@ }
    }
}

impl MemView {
    pub open spec fn wf(self) -> bool {
        &&& self.wram.len() == 0x10000
        &&& self.io.wf()
    }

    /// The byte at a physical address.
    pub open spec fn read(self, addr: u32) -> u8 {
        if addr < 0x4000 {
            self.wram[addr as int]
        } else if addr < 0x10000 {
            if self.io.color() { self.wram[addr as int] } else { OPEN_BUS }
        } else if addr < 0x20000 {
            self.io.cartridge.sram_byte(addr)
        } else if addr < 0x30000 {
            self.io.cartridge.rom_0_byte(addr)
        } else if addr < 0x40000 {
            self.io.cartridge.rom_1_byte(addr)
        } else {
            self.io.cartridge.rom_ex_byte(addr)
        }
    }

    /// The little-endian word at a physical address and the one after it.
    pub open spec fn read16(self, addr: u32) -> u16 {
        word(self.read(addr), self.read((addr + 1) as u32))
    }

    /// The bus after a byte is written to a physical address; ROM ignores writes.
    pub open spec fn write(self, addr: u32, byte: u8) -> MemView {
        if addr < 0x4000 {
            MemView { wram: self.wram.update(addr as int, byte), ..self }
        } else if addr < 0x10000 {
            if self.io.color() { MemView { wram: self.wram.update(addr as int, byte), ..self } } else { self }
        } else if addr < 0x20000 {
            MemView { io: IOView { cartridge: self.io.cartridge.sram_written(addr, byte), ..self.io }, ..self }
        } else {
            self
        }
    }

    pub open spec fn write16(self, addr: u32, w: u16) -> MemView {
        self.write(addr, lo8(w)).write((addr + 1) as u32, hi8(w))
    }
}

impl MemBus {
    pub open spec fn wf(&self) -> bool {
        self@.wf()
    }

    /// A new memory bus with zeroed WRAM and no owner.
    pub fn new(io_bus: IOBus) -> (r: Self)
        ensures
            r@ == (MemView { owner: Owner::NONE, wram: Seq::new(0x10000, |i: int| 0u8), io: io_bus@ }),
    {
        Self { owner: Owner::NONE, wram: zeroed(0x10000), io_bus }
    }

    /// A memory bus for tests, identical to a new one.
    pub fn test_build(io_bus: IOBus) -> (r: Self)
        ensures
            r@ == (MemView { owner: Owner::NONE, wram: Seq::new(0x10000, |i: int| 0u8), io: io_bus@ }),
    {
        Self::new(io_bus)
    }

    /// Returns the byte at a physical address.
    pub fn read_mem(&self, addr: u32) -> (r: u8)
        requires
            self.wf(),
            addr <= 0xFFFFF,
        ensures
            r == self@.read(addr),
    {
        if addr < 0x4000 {
            self.wram[addr as usize]
        } else if addr < 0x10000 {
            if self.io_bus.color_mode() { self.wram[addr as usize] } else { OPEN_BUS }
        } else if addr < 0x20000 {
            self.io_bus.cartridge.read_sram(addr)
        } else if addr < 0x30000 {
            self.io_bus.cartridge.read_rom_0(addr)
        } else if addr < 0x40000 {
            self.io_bus.cartridge.read_rom_1(addr)
        } else {
            self.io_bus.cartridge.read_rom_ex(addr)
        }
    }

    /// Writes a byte to a physical address.
    pub fn write_mem(&mut self, addr: u32, byte: u8)
        requires
            old(self).wf(),
            addr <= 0xFFFFF,
        ensures
            final(self)@ == old(self)@.write(addr, byte),
            final(self).wf(),
    {
        if addr < 0x4000 {
            self.wram.set(addr as usize, byte);
        } else if addr < 0x10000 {
            if self.io_bus.color_mode() {
                self.wram.set(addr as usize, byte);
            }
        } else if addr < 0x20000 {
            self.io_bus.cartridge.write_sram(addr, byte);
        }
    }

    /// Returns the little-endian word at a physical address and the following one.
    pub fn read_mem_16(&self, addr: u32) -> (r: u16)
        requires
            self.wf(),
            addr < 0xFFFFF,
        ensures
            r == self@.read16(addr),
    {
        u16_from_le(self.read_mem(addr), self.read_mem(addr + 1))
    }

    /// Writes a word in little-endian order to a physical address and the following one.
    pub fn write_mem_16(&mut self, addr: u32, w: u16)
        requires
            old(self).wf(),
            addr < 0xFFFFF,
        ensures
            final(self)@ == old(self)@.write16(addr, w),
            final(self).wf(),
    {
        let (lo, hi) = u16_to_le(w);
        self.write_mem(addr, lo);
        self.write_mem(addr + 1, hi);
    }

    /// Reads two consecutive little-endian words.
    pub fn read_mem_32(&self, addr: u32) -> (r: (u16, u16))
        requires
            self.wf(),
            addr < 0xFFFFD,
        ensures
            r == (self@.read16(addr), self@.read16((addr + 2) as u32)),
    {
        (self.read_mem_16(addr), self.read_mem_16(addr + 2))
    }
}

/// The memory operations of a component connected to the memory bus, over the 20-bit physical
/// address space.
pub trait MemBusConnection {
    /// Whether the bus seen through the connection is in a valid state.
    spec fn mem_ok(&self) -> bool;

    /// The memory bus seen through the connection.
    spec fn mem(&self) -> MemView;

    /// Returns the byte at a physical address.
    fn read_mem(&mut self, addr: u32) -> (r: u8)
        requires
            old(self).mem_ok(),
            addr <= 0xFFFFF,
        ensures
            final(self).mem_ok(),
            final(self).mem() == old(self).mem(),
            r == old(self).mem().read(addr);

    /// Writes a byte to a physical address.
    fn write_mem(&mut self, addr: u32, byte: u8)
        requires
            old(self).mem_ok(),
            addr <= 0xFFFFF,
        ensures
            final(self).mem_ok(),
            final(self).mem() == old(self).mem().write(addr, byte);

    /// Returns the little-endian word at a physical address and the following one.
    fn read_mem_16(&mut self, addr: u32) -> (r: u16)
        requires
            old(self).mem_ok(),
            addr < 0xFFFFF,
        ensures
            final(self).mem_ok(),
            final(self).mem() == old(self).mem(),
            r == old(self).mem().read16(addr),
    {
        let lo = self.read_mem(addr);
        let hi = self.read_mem(addr + 1);
        u16_from_le(lo, hi)
    }

    /// Writes a word in little-endian order to a physical address and the following one.
    fn write_mem_16(&mut self, addr: u32, w: u16)
        requires
            old(self).mem_ok(),
            addr < 0xFFFFF,
        ensures
            final(self).mem_ok(),
            final(self).mem() == old(self).mem().write16(addr, w),
    {
        let (lo, hi) = u16_to_le(w);
        self.write_mem(addr, lo);
        self.write_mem(addr + 1, hi);
    }
}

impl MemBusConnection for MemBus {
    open spec fn mem_ok(&self) -> bool {
        self.wf()
    }

    open spec fn mem(&self) -> MemView {
        self@
    }

    fn read_mem(&mut self, addr: u32) -> (r: u8) {
        MemBus::read_mem(self, addr)
    }

    fn write_mem(&mut self, addr: u32, byte: u8) {
        MemBus::write_mem(self, addr, byte)
    }
}

} // verus!
