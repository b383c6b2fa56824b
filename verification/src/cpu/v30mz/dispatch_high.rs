//! Execution of the opcodes 0x80 - 0xBF.
use vstd::prelude::*;
use crate::bits::{lo8, hi8};
use crate::bus::mem_bus::{MemBus, MemView};
use crate::cpu::{Mode, Operand, swap_h, swap_l, spec_swap_h, spec_swap_l};
use crate::cpu::flags::CpuStatus;
use crate::cpu::opcode::{OpCode, spec_op_info, spec_op_timing, spec_sub_op_timing, sub_op_timing};
use crate::cpu::v30mz::{V30MZ, CpuView, sub16, disp_len, is_reg_modrm, fixed};
use crate::cpu::v30mz::util::decode_len;
use crate::cpu::v30mz::bit_ops::{Logic, Shift};
use crate::cpu::v30mz::mem_ops::spec_in;
use crate::cpu::v30mz::block_ops::spec_inm;
use crate::cpu::v30mz::dispatch::{ready, spec_immediate_group, spec_group_high, spec_shift_group, spec_group_1, spec_group_2, spec_loop, spec_group_top};

verus! {

impl V30MZ {
    /// The immediate group.
    #[verifier::rlimit(100)]
    pub(crate) fn immediate_group(&mut self, bus: &MemBus, op: &OpCode)
        requires
            bus.wf(),
            0x80 <= op.code <= 0x83,
            ready(old(self)@, op.code, spec_op_timing(op.code).1),
            (op.op1, op.op2, op.mode, op.op3) == spec_op_info(op.code),
        ensures
            final(self)@ == spec_immediate_group(old(self)@, bus@, op.code),
            final(self).wf(),
    {
        let sub = (self.current_op[1] >> 3) & 7;
        let (b, e) = sub_op_timing(op.code, sub);
        self.base = b;
        self.cycles = b;
        if sub == 0 { self.add(bus, op.op1, op.op2, op.mode, e) }
        else if sub == 1 { self.or(bus, op.op1, op.op2, op.mode, e) }
        else if sub == 2 { self.addc(bus, op.op1, op.op2, op.mode, e) }
        else if sub == 3 { self.subc(bus, op.op1, op.op2, op.mode, e) }
        else if sub == 4 { self.and(bus, op.op1, op.op2, op.mode, e) }
        else if sub == 5 { self.sub(bus, op.op1, op.op2, op.mode, e) }
        else if sub == 6 { self.xor(bus, op.op1, op.op2, op.mode, e) }
        else { self.cmp(bus, op.op1, op.op2, op.mode, e) }
    }

    /// Opcodes 0x84 - 0x8F.
    #[verifier::rlimit(100)]
    pub(crate) fn group_high_8x(&mut self, bus: &MemBus, op: &OpCode, extra: u8)
        requires
            bus.wf(),
            0x84 <= op.code < 0x90,
            ready(old(self)@, op.code, extra),
            (op.op1, op.op2, op.mode, op.op3) == spec_op_info(op.code),
        ensures
            final(self)@ == spec_group_high(old(self)@, bus@, op.code, extra),
            final(self).wf(),
    {
        let c = op.code;
        if c == 0x84 || c == 0x85 { self.test(bus, op.op1, op.op2, op.mode, extra) }
        else if c == 0x86 || c == 0x87 { self.xch(bus, op.mode, op.op1, op.op2, extra) }
        else if c == 0x8D { self.ldea(extra) }
        else if c == 0x8F { self.pop_op(bus, Operand::MEMORY, extra) }
        else { self.mov(bus, op, extra) }
    }

    /// Opcodes 0x90 - 0x9F.
    #[verifier::rlimit(100)]
    pub(crate) fn group_high_9x(&mut self, bus: &MemBus, op: &OpCode, extra: u8)
        requires
            bus.wf(),
            0x90 <= op.code < 0xA0,
            ready(old(self)@, op.code, extra),
            (op.op1, op.op2, op.mode, op.op3) == spec_op_info(op.code),
        ensures
            final(self)@ == spec_group_high(old(self)@, bus@, op.code, extra),
            final(self).wf(),
    {
        let c = op.code;
        if 0x91 <= c && c <= 0x97 { self.xch(bus, op.mode, op.op1, op.op2, extra) }
        else if c == 0x98 { self.cvtbw() }
        else if c == 0x99 { self.cvtwl() }
        else if c == 0x9A { self.call(bus, Operand::IMMEDIATE, Mode::M32, extra) }
        else if c == 0x9C { self.push_op(bus, Operand::NONE, extra) }
        else if c == 0x9D { self.pop_op(bus, Operand::NONE, extra) }
        else if c == 0x9E { self.load_flags() }
        else if c == 0x9F { self.AW = swap_h(self.AW, crate::bits::u16_to_le(self.PSW.bits()).0) }
    }

    /// Opcodes 0xA0 - 0xA3, 0xA8, 0xA9 and 0xB0 - 0xBF.
    #[verifier::rlimit(100)]
    pub(crate) fn group_high_mov(&mut self, bus: &MemBus, op: &OpCode, extra: u8)
        requires
            bus.wf(),
            (0xA0 <= op.code <= 0xA3) || op.code == 0xA8 || op.code == 0xA9 || 0xB0 <= op.code < 0xC0,
            ready(old(self)@, op.code, extra),
            (op.op1, op.op2, op.mode, op.op3) == spec_op_info(op.code),
        ensures
            final(self)@ == spec_group_high(old(self)@, bus@, op.code, extra),
            final(self).wf(),
    {
        if op.code == 0xA8 || op.code == 0xA9 {
            self.test(bus, op.op1, op.op2, op.mode, extra);
        } else {
            self.mov(bus, op, extra);
        }
    }

    /// The block moves: MOVBK, STM and LDM.
    #[verifier::rlimit(100)]
    pub(crate) fn block_move(&mut self, bus: &MemBus, op: &OpCode, extra: u8)
        requires
            bus.wf(),
            op.code == 0xA4 || op.code == 0xA5 || (0xAA <= op.code <= 0xAD),
            !(old(self).rep && old(self).CW == 0),
            ready(old(self)@, op.code, extra),
            (op.op1, op.op2, op.mode, op.op3) == spec_op_info(op.code),
        ensures
            final(self)@ == spec_group_high(old(self)@, bus@, op.code, extra),
            final(self).wf(),
    {
        let c = op.code;
        let (cycles, _) = crate::cpu::opcode::op_timing(c);
        if c == 0xA4 || c == 0xA5 { self.movbk(bus, op.mode, cycles, extra) }
        else if c == 0xAA || c == 0xAB { self.stm(op.mode, cycles, extra) }
        else {
            self.ldm(bus, op.mode, cycles, extra);
        }
    }

    /// The block comparisons: CMPBK and CMPM.
    #[verifier::rlimit(100)]
    pub(crate) fn block_compare(&mut self, bus: &MemBus, op: &OpCode, extra: u8)
        requires
            bus.wf(),
            op.code == 0xA6 || op.code == 0xA7 || op.code == 0xAE || op.code == 0xAF,
            !(old(self).rep && old(self).CW == 0),
            ready(old(self)@, op.code, extra),
            (op.op1, op.op2, op.mode, op.op3) == spec_op_info(op.code),
        ensures
            final(self)@ == spec_group_high(old(self)@, bus@, op.code, extra),
            final(self).wf(),
    {
        let c = op.code;
        let (cycles, _) = crate::cpu::opcode::op_timing(c);
        if c == 0xA6 || c == 0xA7 { self.cmpbk(bus, op.mode, cycles, extra) }
        else { self.cmpm(bus, op.mode, cycles, extra) }
    }

    /// Opcodes 0x80 - 0xBF.
    pub(crate) fn group_high(&mut self, bus: &MemBus, op: &OpCode, extra: u8)
        requires
            bus.wf(),
            0x80 <= op.code < 0xC0,
            ready(old(self)@, op.code, extra),
            (op.op1, op.op2, op.mode, op.op3) == spec_op_info(op.code),
        ensures
            final(self)@ == spec_group_high(old(self)@, bus@, op.code, extra),
            final(self).wf(),
    {
        let c = op.code;
        if c <= 0x83 { self.immediate_group(bus, op) }
        else if c < 0x90 { self.group_high_8x(bus, op, extra) }
        else if c < 0xA0 { self.group_high_9x(bus, op, extra) }
        else if c <= 0xA3 || c == 0xA8 || c == 0xA9 || 0xB0 <= c { self.group_high_mov(bus, op, extra) }
        else if self.rep && self.CW == 0 {}
        else if c == 0xA4 || c == 0xA5 || (0xAA <= c && c <= 0xAD) { self.block_move(bus, op, extra) }
        else { self.block_compare(bus, op, extra) }
    }

    /// Loads the low byte of PSW from AH.
    pub(crate) fn load_flags(&mut self)
        ensures
            final(self)@ == old(self)@.with_psw(fixed(CpuStatus { bits: spec_swap_l(old(self).PSW.bits, hi8(old(self).AW)) })),
    {
        let ah = crate::bits::u16_to_le(self.AW).1;
        let psw = swap_l(self.PSW.bits(), ah);
        self.PSW = CpuStatus::from_bits_truncate(psw);
        self.PSW = self.PSW.union(CpuStatus::from_bits_truncate(0xF002));
        self.PSW.remove(CpuStatus::FIXED_OFF_1);
        self.PSW.remove(CpuStatus::FIXED_OFF_2);
    }

}

} // verus!
