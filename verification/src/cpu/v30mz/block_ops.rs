//! Block (string) instructions of the V30MZ.
use vstd::prelude::*;
use crate::bits::{word, lo8, u16_from_le, u16_to_le};
use crate::bus::io_bus::IOView;
use crate::bus::mem_bus::{MemBus, MemView};
use crate::cpu::{Mode, swap_l, spec_swap_l};
use crate::cpu::flags::CpuStatus;
use crate::cpu::v30mz::{V30MZ, CpuView, add16, sub16, seg_addr, read_word};
use crate::cpu::v30mz::util::{flags_sub8, flags_sub16};

verus! {

/// The bytes a block instruction moves per element.
pub open spec fn elem_size(mode: Mode) -> u16 {
    if mode == Mode::M8 { 1 } else { 2 }
}

/// Byte difference, wrapping.
pub open spec fn diff8(x: u8, y: u8) -> u8 {
    ((x - y + 0x100) % 0x100) as u8
}

/// Word difference, wrapping.
pub open spec fn diff16(x: u16, y: u16) -> u16 {
    ((x - y + 0x10000) % 0x10000) as u16
}

/// A cycle count one higher.
pub open spec fn one_more(c: u8) -> u8 {
    (c + 1) as u8
}

fn wrapping_diff8(x: u8, y: u8) -> (r: u8)
    ensures r == diff8(x, y),
{
    ((x as u16 + 0x100 - y as u16) % 0x100) as u8
}

fn wrapping_diff16(x: u16, y: u16) -> (r: u16)
    ensures r == diff16(x, y),
{
    ((x as u32 + 0x10000 - y as u32) % 0x10000) as u16
}

impl CpuView {
    /// An index register after one element: it moves down when DIR is set, up otherwise.
    pub open spec fn next_index(self, mode: Mode, index: u16) -> u16 {
        if self.flag(CpuStatus::DIRECTION) { sub16(index, elem_size(mode)) } else { add16(index, elem_size(mode)) }
    }

    /// The source of a block instruction, DS0:IX with a segment override honored.
    pub open spec fn block_src(self) -> u32 {
        self.phys(self.IX, self.DS0)
    }

    /// The destination of a block instruction, always DS1:IY.
    pub open spec fn block_dst(self) -> u32 {
        seg_addr(self.IY, self.DS1)
    }

    /// The end of an element: IX and IY move as `x` and `y` say, a repeated instruction counts
    /// down CW, and the cycle count of the element is set. CW is the count of a repeat prefix, as
    /// on every x86-family part: the repetition ends when it reaches 0; a count that never moved
    /// would repeat the element forever.
    pub open spec fn block_done(self, mode: Mode, x: bool, y: bool, cycles: u8, rep_cycles: u8) -> CpuView {
        CpuView {
            IX: if x { self.next_index(mode, self.IX) } else { self.IX },
            IY: if y { self.next_index(mode, self.IY) } else { self.IY },
            CW: if self.rep { sub16(self.CW, 1) } else { self.CW },
            base: if self.rep { rep_cycles } else { cycles },
            cycles: if self.rep { rep_cycles } else { cycles },
            ..self
        }
    }

    /// MOVBK: copies an element from the source to the destination.
    pub open spec fn spec_movbk(self, m: MemView, mode: Mode, cycles: u8, rep_cycles: u8) -> CpuView {
        let t = if mode == Mode::M8 {
            self.buffered(self.block_dst(), m.read(self.block_src()))
        } else {
            self.buffered16(self.block_dst(), read_word(m, self.block_src()))
        };
        t.block_done(mode, true, true, cycles, rep_cycles)
    }

    /// STM: stores AL or AW at the destination.
    pub open spec fn spec_stm(self, mode: Mode, cycles: u8, rep_cycles: u8) -> CpuView {
        let t = if mode == Mode::M8 {
            self.buffered(self.block_dst(), lo8(self.AW))
        } else {
            self.buffered16(self.block_dst(), self.AW)
        };
        t.block_done(mode, false, true, cycles, rep_cycles)
    }

    /// LDM: loads AL or AW from the source.
    pub open spec fn spec_ldm(self, m: MemView, mode: Mode, cycles: u8, rep_cycles: u8) -> CpuView {
        let t = if mode == Mode::M8 {
            CpuView { AW: spec_swap_l(self.AW, m.read(self.block_src())), ..self }
        } else {
            CpuView { AW: read_word(m, self.block_src()), ..self }
        };
        t.block_done(mode, true, false, cycles, rep_cycles)
    }

    /// OUTM: queues an element of the source for port DW.
    pub open spec fn spec_outm(self, m: MemView, mode: Mode, cycles: u8, rep_cycles: u8) -> CpuView {
        let t = if mode == Mode::M8 {
            self.io_buffered(self.DW, m.read(self.block_src()))
        } else {
            let w = read_word(m, self.block_src());
            self.io_buffered(self.DW, lo8(w)).io_buffered(((self.DW + 1) % 0x10000) as u16, crate::bits::hi8(w))
        };
        t.block_done(mode, true, false, cycles, rep_cycles)
    }

    /// A repeated compare goes on while ZF matches the prefix: REPZ while equal, REPNZ while not.
    /// Without a prefix the compare runs once: ZF alone never starts a repetition.
    pub open spec fn rep_after_compare(self) -> CpuView {
        CpuView { rep: self.rep && self.flag(CpuStatus::ZERO) == self.rep_z, ..self }
    }

    /// CMPBK: compares the source element with the destination element.
    pub open spec fn spec_cmpbk(self, m: MemView, mode: Mode, cycles: u8, rep_cycles: u8) -> CpuView {
        let t = if mode == Mode::M8 {
            let x = m.read(self.block_src());
            let y = m.read(self.block_dst());
            self.with_psw(flags_sub8(self.PSW, x, y, diff8(x, y), 0))
        } else {
            let x = read_word(m, self.block_src());
            let y = read_word(m, self.block_dst());
            self.with_psw(flags_sub16(self.PSW, x, y, diff16(x, y), 0))
        };
        let r = t.rep_after_compare();
        let rc = if r.rep && r.rep_z { one_more(rep_cycles) } else { rep_cycles };
        r.block_done(mode, true, true, cycles, rc)
    }

    /// CMPM: compares AL or AW with the destination element.
    pub open spec fn spec_cmpm(self, m: MemView, mode: Mode, cycles: u8, rep_cycles: u8) -> CpuView {
        let t = if mode == Mode::M8 {
            let a = lo8(self.AW);
            let b = m.read(self.block_dst());
            self.with_psw(flags_sub8(self.PSW, a, b, diff8(a, b), 0))
        } else {
            let b = read_word(m, self.block_dst());
            self.with_psw(flags_sub16(self.PSW, self.AW, b, diff16(self.AW, b), 0))
        };
        t.rep_after_compare().block_done(mode, false, true, cycles, rep_cycles)
    }
}

/// INM: an element read from port DW is stored at the destination.
pub open spec fn spec_inm(s: CpuView, io: IOView, mode: Mode, cycles: u8, rep_cycles: u8) -> (CpuView, IOView) {
    if mode == Mode::M8 {
        let (io1, b) = io.read(s.DW);
        (s.buffered(s.block_dst(), b).block_done(mode, false, true, cycles, rep_cycles), io1)
    } else {
        let (io1, b1) = io.read(s.DW);
        let (io2, b2) = io1.read(((s.DW + 1) % 0x10000) as u16);
        (s.buffered16(s.block_dst(), word(b1, b2)).block_done(mode, false, true, cycles, rep_cycles), io2)
    }
}

impl V30MZ {
    /// An index register moved by one element.
    pub fn update_block_index(&self, mode: Mode, index: u16) -> (r: u16)
        ensures
            r == self@.next_index(mode, index),
    {
        let n: u16 = if mode == Mode::M8 { 1 } else { 2 };
        if self.PSW.contains(CpuStatus::DIRECTION) { index.wrapping_sub(n) } else { index.wrapping_add(n) }
    }

    fn block_done(&mut self, mode: Mode, x: bool, y: bool, cycles: u8, rep_cycles: u8)
        ensures
            final(self)@ == old(self)@.block_done(mode, x, y, cycles, rep_cycles),
    {
        if x {
            self.IX = self.update_block_index(mode, self.IX);
        }
        if y {
            self.IY = self.update_block_index(mode, self.IY);
        }
        if self.rep {
            self.CW = self.CW.wrapping_sub(1);
        }
        self.base = if self.rep { rep_cycles } else { cycles };
        self.cycles = self.base;
    }

    fn block_dst(&self) -> (r: u32)
        ensures
            r == self@.block_dst(),
            r <= 0xFFFFF,
    {
        self.apply_segment(self.IY, self.DS1)
    }

    /// MOVBK: copies an element from DS0:IX to DS1:IY.
    pub fn movbk(&mut self, bus: &MemBus, mode: Mode, cycles: u8, rep_cycles: u8)
        requires
            bus.wf(),
            old(self).wf(),
        ensures
            final(self)@ == old(self)@.spec_movbk(bus@, mode, cycles, rep_cycles),
            final(self).wf(),
    {
        let src = self.get_physical_address(self.IX, self.DS0);
        let dst = self.block_dst();
        if mode == Mode::M8 {
            let b = self.read_mem(bus, src);
            self.write_mem(dst, b);
        } else {
            let w = self.read_mem_16(bus, src);
            self.write_mem_16(dst, w);
        }
        self.block_done(mode, true, true, cycles, rep_cycles);
    }

    /// STM: stores AL or AW at DS1:IY.
    pub fn stm(&mut self, mode: Mode, cycles: u8, rep_cycles: u8)
        requires
            old(self).wf(),
        ensures
            final(self)@ == old(self)@.spec_stm(mode, cycles, rep_cycles),
            final(self).wf(),
    {
        let dst = self.block_dst();
        if mode == Mode::M8 {
            let al = u16_to_le(self.AW).0;
            self.write_mem(dst, al);
        } else {
            let aw = self.AW;
            self.write_mem_16(dst, aw);
        }
        self.block_done(mode, false, true, cycles, rep_cycles);
    }

    /// LDM: loads AL or AW from DS0:IX.
    pub fn ldm(&mut self, bus: &MemBus, mode: Mode, cycles: u8, rep_cycles: u8)
        requires
            bus.wf(),
        ensures
            final(self)@ == old(self)@.spec_ldm(bus@, mode, cycles, rep_cycles),
    {
        let src = self.get_physical_address(self.IX, self.DS0);
        if mode == Mode::M8 {
            let b = self.read_mem(bus, src);
            self.AW = swap_l(self.AW, b);
        } else {
            self.AW = self.read_mem_16(bus, src);
        }
        self.block_done(mode, true, false, cycles, rep_cycles);
    }

    /// OUTM: queues an element of DS0:IX for port DW.
    pub fn outm(&mut self, bus: &MemBus, mode: Mode, cycles: u8, rep_cycles: u8)
        requires
            bus.wf(),
        ensures
            final(self)@ == old(self)@.spec_outm(bus@, mode, cycles, rep_cycles),
    {
        let src = self.get_physical_address(self.IX, self.DS0);
        let dw = self.DW;
        if mode == Mode::M8 {
            let b = self.read_mem(bus, src);
            self.write_io(dw, b);
        } else {
            let w = self.read_mem_16(bus, src);
            self.write_io_16(dw, w);
        }
        self.block_done(mode, true, false, cycles, rep_cycles);
    }

    /// INM: stores an element read from port DW at DS1:IY.
    pub fn inm(&mut self, bus: &mut MemBus, mode: Mode, cycles: u8, rep_cycles: u8)
        requires
            old(bus).wf(),
            old(self).wf(),
        ensures
            (final(self)@, final(bus)@.io) == spec_inm(old(self)@, old(bus)@.io, mode, cycles, rep_cycles),
            final(bus)@ == (MemView { io: final(bus)@.io, ..old(bus)@ }),
            final(bus).wf(),
            final(self).wf(),
    {
        let dst = self.block_dst();
        let dw = self.DW;
        if mode == Mode::M8 {
            let b = self.read_io(bus, dw);
            self.write_mem(dst, b);
        } else {
            let (lo, hi) = self.read_io_16(bus, dw);
            self.write_mem_16(dst, u16_from_le(lo, hi));
        }
        self.block_done(mode, false, true, cycles, rep_cycles);
    }

    fn rep_after_compare(&mut self)
        ensures
            final(self)@ == old(self)@.rep_after_compare(),
    {
        self.rep = self.rep && self.PSW.contains(CpuStatus::ZERO) == self.rep_z;
    }

    /// CMPBK: compares the elements at DS0:IX and DS1:IY.
    pub fn cmpbk(&mut self, bus: &MemBus, mode: Mode, cycles: u8, rep_cycles: u8)
        requires
            bus.wf(),
            rep_cycles < 255,
        ensures
            final(self)@ == old(self)@.spec_cmpbk(bus@, mode, cycles, rep_cycles),
    {
        let src = self.get_physical_address(self.IX, self.DS0);
        let dst = self.block_dst();
        if mode == Mode::M8 {
            let x = self.read_mem(bus, src);
            let y = self.read_mem(bus, dst);
            let r = wrapping_diff8(x, y);
            self.update_flags_sub_8(x, y, r, 0);
        } else {
            let x = self.read_mem_16(bus, src);
            let y = self.read_mem_16(bus, dst);
            let r = wrapping_diff16(x, y);
            self.update_flags_sub_16(x, y, r, 0);
        }
        self.rep_after_compare();
        let rc = if self.rep && self.rep_z { rep_cycles + 1 } else { rep_cycles };
        self.block_done(mode, true, true, cycles, rc);
    }

    /// CMPM: compares AL or AW with the element at DS1:IY.
    pub fn cmpm(&mut self, bus: &MemBus, mode: Mode, cycles: u8, rep_cycles: u8)
        requires
            bus.wf(),
        ensures
            final(self)@ == old(self)@.spec_cmpm(bus@, mode, cycles, rep_cycles),
    {
        let dst = self.block_dst();
        if mode == Mode::M8 {
            let a = u16_to_le(self.AW).0;
            let b = self.read_mem(bus, dst);
            let r = wrapping_diff8(a, b);
            self.update_flags_sub_8(a, b, r, 0);
        } else {
            let a = self.AW;
            let b = self.read_mem_16(bus, dst);
            let r = wrapping_diff16(a, b);
            self.update_flags_sub_16(a, b, r, 0);
        }
        self.rep_after_compare();
        self.block_done(mode, false, true, cycles, rep_cycles);
    }
}

} // verus!
