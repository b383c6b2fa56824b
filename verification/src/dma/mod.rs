//! The two DMA units: the general DMA, which copies memory to memory, and the sound DMA, which
//! feeds bytes of memory to channel 2.
use vstd::prelude::*;
use crate::bits::{word, lo8, hi8, u16_from_le, lemma_byte_fields};
use crate::bus::io_bus::IOView;
use crate::bus::mem_bus::{MemBus, MemView, Owner};

pub mod sdma;

verus! {

/// The general DMA.
pub struct DMA {
    /// Cycles until the next byte is copied; 0 when no transfer runs
    pub cycles: u8,
    pub src_addr: u32,
    pub dest_addr: u16,
    pub counter: u16,
    pub dir: bool,
}

/// The abstract state of the general DMA.
pub struct DmaView {
    pub cycles: u8,
    pub src_addr: u32,
    pub dest_addr: u16,
    pub counter: u16,
    pub dir: bool,
}

impl View for DMA {
    type V = DmaView;

    open spec fn view(&self) -> DmaView {
        DmaView { cycles: self.cycles, src_addr: self.src_addr, dest_addr: self.dest_addr, counter: self.counter, dir: self.dir }
    }
}

/// The word two ports hold, read in order, and the ports after the reads.
pub open spec fn read_port_word(io: IOView, addr: u16) -> (IOView, u16) {
    let (io1, lo) = io.read(addr);
    let (io2, hi) = io1.read(((addr + 1) % 0x10000) as u16);
    (io2, word(lo, hi))
}

/// The ports after a word is written to two consecutive ports.
pub open spec fn write_port_word(io: IOView, addr: u16, w: u16) -> IOView {
    io.write(addr, lo8(w)).write(((addr + 1) % 0x10000) as u16, hi8(w))
}

/// Whether a physical address lies in cartridge SRAM, which the DMAs do not read.
pub open spec fn in_sram(addr: u32) -> bool {
    0x10000 <= addr <= 0x1FFFF
}

/// The next address of a transfer, within the 20-bit address space.
pub open spec fn step_addr(addr: u32, down: bool) -> u32 {
    if down { ((addr + 0xFFFFF) % 0x100000) as u32 } else { ((addr + 1) % 0x100000) as u32 }
}

impl DmaView {
    /// A transfer in progress has bytes left, and addresses stay within the address space.
    pub open spec fn wf(self) -> bool {
        &&& self.cycles > 0 ==> self.counter > 0
        &&& self.src_addr <= 0xFFFFF
    }

    /// The source address the ports give: four bits of segment over a 16-bit offset.
    pub open spec fn port_src(io: IOView) -> (IOView, u32) {
        let (io1, offset) = read_port_word(io, 0x40);
        let (io2, seg) = io1.read(0x42);
        (io2, (((seg & 0x0F) as u32) * 0x10000 + offset) as u32)
    }

    /// A transfer starts when the counter the ports hold is not 0 and the source is not in SRAM.
    pub open spec fn start(self, m: MemView) -> (DmaView, MemView) {
        let (io1, counter) = read_port_word(m.io, 0x46);
        if counter == 0 {
            (DmaView { counter, ..self }, MemView { io: io1, ..m })
        } else {
            let (io2, src) = Self::port_src(io1);
            if in_sram(src) {
                (DmaView { counter, src_addr: src, ..self }, MemView { io: io2, ..m })
            } else {
                let (io3, dest) = read_port_word(io2, 0x44);
                (DmaView { counter, src_addr: src, cycles: 7, dest_addr: dest, ..self },
                 MemView { io: io3, owner: Owner::DMA, ..m })
            }
        }
    }

    /// A byte is copied and the addresses and counter move on; the transfer stops when the
    /// source enters SRAM.
    pub open spec fn copied(self, m: MemView) -> (DmaView, MemView) {
        let m1 = m.write(self.dest_addr as u32, m.read(self.src_addr));
        let src = step_addr(self.src_addr, self.dir);
        let dest: u16 = if self.dir { ((self.dest_addr + 0xFFFF) % 0x10000) as u16 } else { ((self.dest_addr + 1) % 0x10000) as u16 };
        let stopped = in_sram(src);
        let m2 = if stopped { MemView { owner: Owner::NONE, ..m1 } } else { m1 };
        (DmaView { cycles: if stopped { 0 } else { 2 }, src_addr: src, dest_addr: dest, counter: (self.counter - 1) as u16, ..self }, m2)
    }

    /// The ports at the end of a transfer: they report where it stopped, and the enable bit is
    /// cleared.
    #[verifier::opaque]
    pub open spec fn finished_io(self, io: IOView) -> IOView {
        let io1 = write_port_word(io, 0x40, (self.src_addr % 0x10000) as u16);
        let io2 = io1.write(0x42, (self.src_addr / 0x10000) as u8);
        let io3 = write_port_word(io2, 0x44, self.dest_addr);
        let io4 = write_port_word(io3, 0x46, 0);
        let (io5, ctrl) = io4.read(0x48);
        io5.write(0x48, ctrl & 0x7F)
    }

    /// The end of a transfer: the ports report where it stopped and the bus is released.
    pub open spec fn finished(self, m: MemView) -> (DmaView, MemView) {
        (DmaView { cycles: 0, ..self }, MemView { io: self.finished_io(m.io), owner: Owner::NONE, ..m })
    }

    /// One DMA cycle: every second cycle a byte is copied; the transfer ends when its counter runs
    /// out, or when the source enters SRAM.
    pub open spec fn step(self, m: MemView) -> (DmaView, MemView) {
        let c = (self.cycles - 1) as u8;
        if c != 0 {
            (DmaView { cycles: c, ..self }, m)
        } else {
            let (t, m2) = self.copied(m);
            if t.counter == 0 { t.finished(m2) } else { (t, m2) }
        }
    }
}

impl DMA {
    pub open spec fn wf(&self) -> bool {
        self@.wf()
    }

    /// An idle general DMA.
    pub fn new() -> (r: Self)
        ensures
            r@ == (DmaView { cycles: 0, src_addr: 0, dest_addr: 0, counter: 0, dir: false }),
            r.wf(),
    {
        DMA { cycles: 0, src_addr: 0, dest_addr: 0, counter: 0, dir: false }
    }

    fn read_port_word(bus: &mut MemBus, addr: u16) -> (r: u16)
        requires
            old(bus).wf(),
        ensures
            (final(bus)@.io, r) == read_port_word(old(bus)@.io, addr),
            final(bus)@ == (MemView { io: final(bus)@.io, ..old(bus)@ }),
            final(bus).wf(),
    {
        let lo = bus.io_bus.read_io(addr);
        let hi = bus.io_bus.read_io(addr.wrapping_add(1));
        u16_from_le(lo, hi)
    }

    fn write_port_word(bus: &mut MemBus, addr: u16, w: u16)
        requires
            old(bus).wf(),
        ensures
            final(bus)@ == (MemView { io: write_port_word(old(bus)@.io, addr, w), ..old(bus)@ }),
            final(bus).wf(),
    {
        bus.io_bus.write_io_16(addr, w);
    }

    /// Reads the control port; returns whether a transfer is requested, and records its direction.
    /// Only color models have the DMA.
    pub fn is_enabled(&mut self, bus: &mut MemBus) -> (r: bool)
        requires
            old(bus).wf(),
            old(self).wf(),
        ensures
            !old(bus)@.io.color() ==> !r && final(self)@ == old(self)@ && final(bus)@ == old(bus)@,
            old(bus)@.io.color() ==> ({
                let (io1, ctrl) = old(bus)@.io.read(0x48);
                &&& r == (ctrl & 0x80 != 0)
                &&& final(self)@ == (DmaView { dir: ctrl & 0x40 != 0, ..old(self)@ })
                &&& final(bus)@ == (MemView { io: io1, ..old(bus)@ })
            }),
            final(self).wf(),
            final(bus).wf(),
    {
        if !bus.io_bus.color_mode() {
            return false;
        }
        let ctrl = bus.io_bus.read_io(0x48);
        self.dir = ctrl & 0x40 != 0;
        ctrl & 0x80 != 0
    }

    /// Loads the counter, source and destination from the ports and starts a transfer if there is
    /// one to make.
    pub fn start_op(&mut self, bus: &mut MemBus)
        requires
            old(bus).wf(),
            old(self).wf(),
            old(self).cycles == 0,
        ensures
            (final(self)@, final(bus)@) == old(self)@.start(old(bus)@),
            final(self).wf(),
            final(bus).wf(),
    {
        self.counter = Self::read_port_word(bus, 0x46);
        if self.counter != 0 {
            let offset = Self::read_port_word(bus, 0x40);
            let seg = bus.io_bus.read_io(0x42);
            proof {
                lemma_byte_fields(seg);
            }
            self.src_addr = ((seg & 0x0F) as u32) * 0x10000 + offset as u32;
            if !(0x10000 <= self.src_addr && self.src_addr <= 0x1FFFF) {
                self.cycles = 7;
                self.dest_addr = Self::read_port_word(bus, 0x44);
                bus.owner = Owner::DMA;
            }
        }
    }

    fn copy_byte(&mut self, bus: &mut MemBus)
        requires
            old(bus).wf(),
            old(self).wf(),
            old(self).counter > 0,
        ensures
            (final(self)@, final(bus)@) == old(self)@.copied(old(bus)@),
            final(self).src_addr <= 0xFFFFF,
            final(bus).wf(),
    {
        let byte = bus.read_mem(self.src_addr);
        bus.write_mem(self.dest_addr as u32, byte);
        if self.dir {
            self.src_addr = (self.src_addr + 0xFFFFF) % 0x100000;
            self.dest_addr = self.dest_addr.wrapping_sub(1);
        } else {
            self.src_addr = (self.src_addr + 1) % 0x100000;
            self.dest_addr = self.dest_addr.wrapping_add(1);
        }
        if 0x10000 <= self.src_addr && self.src_addr <= 0x1FFFF {
            self.cycles = 0;
            bus.owner = Owner::NONE;
        } else {
            self.cycles = 2;
        }
        self.counter = self.counter - 1;
    }

    fn finish(&mut self, bus: &mut MemBus)
        requires
            old(bus).wf(),
        ensures
            (final(self)@, final(bus)@) == old(self)@.finished(old(bus)@),
            final(bus).wf(),
    {
        proof {
            reveal(DmaView::finished_io);
        }
        Self::write_port_word(bus, 0x40, (self.src_addr % 0x10000) as u16);
        bus.io_bus.write_io(0x42, (self.src_addr / 0x10000) as u8);
        Self::write_port_word(bus, 0x44, self.dest_addr);
        Self::write_port_word(bus, 0x46, 0);
        let ctrl = bus.io_bus.read_io(0x48);
        bus.io_bus.write_io(0x48, ctrl & 0x7F);
        self.cycles = 0;
        bus.owner = Owner::NONE;
    }

    /// One DMA cycle of a running transfer.
    pub fn tick(&mut self, bus: &mut MemBus)
        requires
            old(bus).wf(),
            old(self).wf(),
            old(self).cycles > 0,
        ensures
            (final(self)@, final(bus)@) == old(self)@.step(old(bus)@),
            final(self).wf(),
            final(bus).wf(),
    {
        self.cycles = self.cycles - 1;
        if self.cycles != 0 {
            return;
        }
        self.copy_byte(bus);
        if self.counter == 0 {
            self.finish(bus);
        }
    }
}

} // verus!
