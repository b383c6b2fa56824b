//! The sound DMA, which transfers 8-bit samples to channel 2, mainly for voice clips.
use vstd::prelude::*;
use crate::bus::io_bus::IOView;
use crate::bus::mem_bus::{MemBus, MemView};
use crate::dma::{read_port_word, write_port_word, step_addr};

verus! {

/// Sound DMA.
pub struct SDMA {
    /// Cycles until the current transfer completes
    pub cycles: u8,
    /// Source address, the address from which the DMA reads
    pub src_addr: u32,
    /// Amount of bytes to be transferred
    pub counter: u32,
    /// Shadow of the source address
    pub src_shadow: u32,
    /// Shadow of the counter
    pub counter_shadow: u32,
    /// If set the source address is decremented after each transfer, otherwise incremented
    pub dir: bool,
    /// If set, once the counter reaches 0 the counter and source are reloaded from their shadows
    pub rep: bool,
    /// If set, the counter and source do not change and the DMA outputs 0
    pub hold: bool,
    /// Samples change at 24kHz / rate, once every 128 * rate ticks
    pub rate: u8,
    /// Set while an operation runs; the shadows are loaded when it is clear
    pub running: bool,
}

/// The abstract state of the sound DMA.
pub struct SdmaView {
    pub cycles: u8,
    pub src_addr: u32,
    pub counter: u32,
    pub src_shadow: u32,
    pub counter_shadow: u32,
    pub dir: bool,
    pub rep: bool,
    pub hold: bool,
    pub rate: u8,
    pub running: bool,
}

impl View for SDMA {
    type V = SdmaView;

    open spec fn view(&self) -> SdmaView {
        SdmaView {
            cycles: self.cycles, src_addr: self.src_addr, counter: self.counter, src_shadow: self.src_shadow,
            counter_shadow: self.counter_shadow, dir: self.dir, rep: self.rep, hold: self.hold, rate: self.rate,
            running: self.running,
        }
    }
}

/// The 20-bit value ports `addr`, `addr + 1` and the low nibble of `high` give.
pub open spec fn read_port_20(io: IOView, addr: u16, high: u16) -> (IOView, u32) {
    let (io1, offset) = read_port_word(io, addr);
    let (io2, seg) = io1.read(high);
    (io2, (((seg & 0x0F) as u32) * 0x10000 + offset) as u32)
}

/// The ports after a 20-bit value is written to ports `addr`, `addr + 1` and `high`.
pub open spec fn write_port_20(io: IOView, addr: u16, high: u16, v: u32) -> IOView {
    write_port_word(io, addr, (v % 0x10000) as u16).write(high, ((v / 0x10000) % 0x10) as u8)
}

/// The rate the two low bits of the control port select.
pub open spec fn rate_of(ctrl: u8) -> u8 {
    let r = ctrl & 3;
    if r == 0 { 6 } else if r == 1 { 4 } else if r == 2 { 2 } else { 1 }
}

impl SdmaView {
    /// A transfer in progress has bytes left, a running one reloads a non-empty shadow, and the
    /// addresses stay within the address space.
    pub open spec fn wf(self) -> bool {
        &&& self.cycles > 0 ==> self.counter > 0 && self.running
        &&& self.running ==> self.counter_shadow > 0
        &&& self.src_addr <= 0xFFFFF
        &&& self.src_shadow <= 0xFFFFF
        &&& 1 <= self.rate <= 6
    }

    /// A transfer starts when the counter is not 0, and none goes on when it is; when none ran,
    /// the shadows take the values read.
    pub open spec fn start(self, m: MemView) -> (SdmaView, MemView) {
        let (io1, counter) = read_port_20(m.io, 0x4E, 0x50);
        let t = SdmaView { counter, counter_shadow: if self.running { self.counter_shadow } else { counter }, ..self };
        if counter == 0 {
            (SdmaView { cycles: 0, ..t }, MemView { io: io1, ..m })
        } else {
            let (io2, src) = read_port_20(io1, 0x4A, 0x4C);
            (SdmaView { src_addr: src, src_shadow: if self.running { self.src_shadow } else { src }, cycles: 7, running: true, ..t },
             MemView { io: io2, ..m })
        }
    }

    /// One cycle: when the transfer completes, the byte at the source goes to port 0x89 (0 when
    /// held), and the source and counter move on, are reloaded, or the transfer ends.
    pub open spec fn step(self, m: MemView) -> (SdmaView, MemView) {
        let c = (self.cycles - 1) as u8;
        let t = SdmaView { cycles: c, ..self };
        if c != 0 {
            (t, m)
        } else if self.hold {
            (t, MemView { io: m.io.write(0x89, 0), ..m })
        } else {
            let io1 = m.io.write(0x89, m.read(self.src_addr));
            let src = step_addr(self.src_addr, self.dir);
            let counter = (self.counter - 1) as u32;
            let (u, io2) = if counter != 0 {
                (SdmaView { src_addr: src, counter, ..t }, io1)
            } else if self.rep {
                (SdmaView { src_addr: self.src_shadow, counter: self.counter_shadow, ..t }, io1)
            } else {
                let (io_a, ctrl) = io1.read(0x52);
                (SdmaView { src_addr: src, counter, running: false, ..t }, io_a.write(0x52, ctrl & 0x7F))
            };
            let io3 = write_port_20(io2, 0x4E, 0x50, u.counter);
            let io4 = write_port_20(io3, 0x4A, 0x4C, u.src_addr);
            (u, MemView { io: io4, ..m })
        }
    }
}

impl SDMA {
    pub open spec fn wf(&self) -> bool {
        self@.wf()
    }

    /// An idle sound DMA.
    pub fn new() -> (r: Self)
        ensures
            r@ == (SdmaView {
                cycles: 0, src_addr: 0, counter: 0, src_shadow: 0, counter_shadow: 0,
                dir: false, rep: false, hold: false, rate: 1, running: false,
            }),
            r.wf(),
    {
        SDMA {
            cycles: 0,
            src_addr: 0, counter: 0,
            src_shadow: 0, counter_shadow: 0,
            dir: false, rep: false, hold: false,
            rate: 1,
            running: false,
        }
    }

    fn read_port_20(bus: &mut MemBus, addr: u16, high: u16) -> (r: u32)
        requires
            old(bus).wf(),
        ensures
            (final(bus)@.io, r) == read_port_20(old(bus)@.io, addr, high),
            final(bus)@ == (MemView { io: final(bus)@.io, ..old(bus)@ }),
            final(bus).wf(),
            r <= 0xFFFFF,
    {
        let (lo, hi) = bus.io_bus.read_io_16(addr);
        let offset = crate::bits::u16_from_le(lo, hi) as u32;
        let seg = bus.io_bus.read_io(high);
        proof {
            crate::bits::lemma_byte_fields(seg);
        }
        ((seg & 0x0F) as u32) * 0x10000 + offset
    }

    #[verifier::rlimit(50)]
    fn write_port_20(bus: &mut MemBus, addr: u16, high: u16, v: u32)
        requires
            old(bus).wf(),
        ensures
            final(bus)@ == (MemView { io: write_port_20(old(bus)@.io, addr, high, v), ..old(bus)@ }),
            final(bus).wf(),
    {
        bus.io_bus.write_io_16(addr, (v % 0x10000) as u16);
        bus.io_bus.write_io(high, ((v / 0x10000) % 0x10) as u8);
    }

    /// Reads the control port: direction, repeat, hold and rate; returns whether it is enabled.
    /// Only color models have the sound DMA.
    pub fn is_enabled(&mut self, bus: &mut MemBus) -> (r: bool)
        requires
            old(bus).wf(),
            old(self).wf(),
        ensures
            !old(bus)@.io.color() ==> !r && final(self)@ == old(self)@ && final(bus)@ == old(bus)@,
            old(bus)@.io.color() ==> ({
                let (io1, ctrl) = old(bus)@.io.read(0x52);
                &&& r == (ctrl & 0x80 != 0)
                &&& final(self)@ == (SdmaView { dir: ctrl & 0x40 != 0, rep: ctrl & 0x08 != 0, hold: ctrl & 0x04 != 0,
                        rate: rate_of(ctrl), ..old(self)@ })
                &&& final(bus)@ == (MemView { io: io1, ..old(bus)@ })
            }),
            final(self).wf(),
            final(bus).wf(),
            final(self).rate >= 1,
    {
        if !bus.io_bus.color_mode() {
            return false;
        }
        let ctrl = bus.io_bus.read_io(0x52);
        self.dir = ctrl & 0x40 != 0;
        self.rep = ctrl & 0x08 != 0;
        self.hold = ctrl & 0x04 != 0;
        let r = ctrl & 3;
        self.rate = if r == 0 { 6 } else if r == 1 { 4 } else if r == 2 { 2 } else { 1 };
        ctrl & 0x80 != 0
    }

    /// Loads the counter and source from the ports and starts a transfer if there is one to make.
    pub fn start_op(&mut self, bus: &mut MemBus)
        requires
            old(bus).wf(),
            old(self).wf(),
        ensures
            (final(self)@, final(bus)@) == old(self)@.start(old(bus)@),
            final(self).wf(),
            final(bus).wf(),
    {
        self.counter = Self::read_port_20(bus, 0x4E, 0x50);
        if !self.running {
            self.counter_shadow = self.counter;
        }
        if self.counter != 0 {
            self.src_addr = Self::read_port_20(bus, 0x4A, 0x4C);
            if !self.running {
                self.src_shadow = self.src_addr;
            }
            self.cycles = 7;
            self.running = true;
        } else {
            self.cycles = 0;
        }
    }

    /// One cycle of a running transfer.
    #[verifier::rlimit(60)]
    pub fn tick(&mut self, bus: &mut MemBus)
        requires
            old(bus).wf(),
            old(self).wf(),
            old(self).cycles > 0,
        ensures
            (final(self)@, final(bus)@) == old(self)@.step(old(bus)@),
            final(self).wf(),
            final(bus).wf(),
    {
        self.cycles = self.cycles - 1;
        if self.cycles != 0 {
            return;
        }
        if self.hold {
            bus.io_bus.write_io(0x89, 0x00);
            return;
        }
        let byte = bus.read_mem(self.src_addr);
        bus.io_bus.write_io(0x89, byte);
        self.src_addr = if self.dir { (self.src_addr + 0xFFFFF) % 0x100000 } else { (self.src_addr + 1) % 0x100000 };
        self.counter = self.counter - 1;
        if self.counter == 0 {
            if self.rep {
                self.counter = self.counter_shadow;
                self.src_addr = self.src_shadow;
            } else {
                let ctrl = bus.io_bus.read_io(0x52);
                bus.io_bus.write_io(0x52, ctrl & 0x7F);
                self.running = false;
            }
        }
        Self::write_port_20(bus, 0x4E, 0x50, self.counter);
        Self::write_port_20(bus, 0x4A, 0x4C, self.src_addr);
    }
}

} // verus!
