//! Execution of the opcodes 0xC0 - 0xFF.
use vstd::prelude::*;
use crate::bits::{lo8, hi8};
use crate::bus::mem_bus::{MemBus, MemView};
use crate::cpu::{Mode, Operand, swap_h, swap_l, spec_swap_h, spec_swap_l};
use crate::cpu::flags::CpuStatus;
use crate::cpu::opcode::{OpCode, spec_op_info, spec_op_timing, spec_sub_op_timing, sub_op_timing};
use crate::cpu::v30mz::{V30MZ, CpuView, sub16, disp_len, is_reg_modrm, fixed};
use crate::cpu::v30mz::util::decode_len;
use crate::cpu::v30mz::bit_ops::{Logic, Shift};
use crate::cpu::v30mz::mem_ops::spec_in;
use crate::cpu::v30mz::block_ops::spec_inm;
use crate::cpu::v30mz::dispatch::{ready, spec_immediate_group, spec_group_high, spec_shift_group, spec_group_1, spec_group_2, spec_loop, spec_group_top};

verus! {

impl V30MZ {
    /// The shift group.
    #[verifier::rlimit(100)]
    pub(crate) fn shift_group(&mut self, bus: &MemBus, op: &OpCode, extra: u8)
        requires
            bus.wf(),
            op.code == 0xC0 || op.code == 0xC1 || (0xD0 <= op.code <= 0xD3),
            ready(old(self)@, op.code, extra),
            (op.op1, op.op2, op.mode, op.op3) == spec_op_info(op.code),
        ensures
            final(self)@ == spec_shift_group(old(self)@, bus@, op.code, extra),
            final(self).wf(),
    {
        let sub = (self.current_op[1] >> 3) & 7;
        let c = op.code;
        if sub == 0 { self.rol(bus, c, op.mode, extra) }
        else if sub == 1 { self.ror(bus, c, op.mode, extra) }
        else if sub == 2 { self.rolc(bus, c, op.mode, extra) }
        else if sub == 3 { self.rorc(bus, c, op.mode, extra) }
        else if sub == 4 { self.shl(bus, c, op.mode, extra) }
        else if sub == 5 { self.shr(bus, c, op.mode, extra) }
        else if sub == 6 {
            if op.mode == Mode::M8 { self.AW = self.AW & 0xFF00 } else { self.AW = 0 }
        }
        else { self.shra(bus, c, op.mode, extra) }
    }

    /// Group 1.
    #[verifier::rlimit(100)]
    pub(crate) fn group_1(&mut self, bus: &MemBus, op: &OpCode)
        requires
            bus.wf(),
            op.code == 0xF6 || op.code == 0xF7,
            ready(old(self)@, op.code, spec_op_timing(op.code).1),
            (op.op1, op.op2, op.mode, op.op3) == spec_op_info(op.code),
        ensures
            final(self)@ == spec_group_1(old(self)@, bus@, op.code),
            final(self).wf(),
    {
        let sub = (self.current_op[1] >> 3) & 7;
        let (b, e) = sub_op_timing(op.code, sub);
        if sub <= 5 {
            self.base = b;
            self.cycles = b;
        }
        if sub == 0 { self.test(bus, op.op1, op.op2, op.mode, e) }
        else if sub == 1 {}
        else if sub == 2 { self.not(bus, op.mode, e) }
        else if sub == 3 { self.neg(bus, op.mode, e) }
        else if sub == 4 { self.mulu(bus, op.mode, e) }
        else if sub == 5 { self.mul(bus, None, op.mode, e) }
        else if sub == 6 {
            self.base = if op.code == 0xF6 { 15 } else { 23 };
            self.cycles = self.base;
            self.divu(bus, op.mode, 1);
        } else {
            self.base = if op.code == 0xF6 { 17 } else { 24 };
            self.cycles = self.base;
            self.div(bus, op.mode, 1);
        }
    }

    /// Group 2. Sub-operations 3 and 5 are the far CALL and BR through a double word in memory,
    /// as the opcode table's M32 mode for them says; with a register operand they do nothing.
    #[verifier::rlimit(100)]
    pub(crate) fn group_2(&mut self, bus: &MemBus, op: &OpCode)
        requires
            bus.wf(),
            op.code == 0xFE || op.code == 0xFF,
            ready(old(self)@, op.code, spec_op_timing(op.code).1),
            (op.op1, op.op2, op.mode, op.op3) == spec_op_info(op.code),
        ensures
            final(self)@ == spec_group_2(old(self)@, bus@, op.code),
            final(self).wf(),
    {
        let modrm = self.current_op[1];
        let sub = (modrm >> 3) & 7;
        let (b, e) = sub_op_timing(op.code, sub);
        self.base = b;
        self.cycles = b;
        if sub == 0 { self.inc(bus, Operand::MEMORY, op.mode, e) }
        else if sub == 1 { self.dec(bus, Operand::MEMORY, op.mode, e) }
        else if sub == 2 { self.call(bus, Operand::MEMORY, Mode::M16, e) }
        else if sub == 3 { if modrm >> 6 != 3 { self.call(bus, Operand::MEMORY, Mode::M32, e) } }
        else if sub == 4 { self.branch_op(bus, Operand::MEMORY, Mode::M16, e) }
        else if sub == 5 { if modrm >> 6 != 3 { self.branch_op(bus, Operand::MEMORY, Mode::M32, e) } }
        else if sub == 6 { self.push_op(bus, Operand::MEMORY, e) }
    }

    /// The loops on CW.
    pub(crate) fn loop_op(&mut self, code: u8)
        requires
            0xE0 <= code <= 0xE3,
            old(self).current_op.len() >= 2,
        ensures
            final(self)@ == spec_loop(old(self)@, code),
    {
        if code == 0xE3 {
            let cond = self.CW == 0;
            self.branch(cond);
        } else {
            let z = self.PSW.contains(CpuStatus::ZERO);
            self.CW = self.CW.wrapping_sub(1);
            let cond = self.CW != 0 && (code == 0xE2 || (code == 0xE1) == z);
            self.branch(cond);
        }
    }

    /// The flag instructions, 0xF5 and 0xF8 - 0xFD.
    pub(crate) fn flag_op(&mut self, bus: &MemBus, code: u8, extra: u8)
        requires
            code == 0xF5 || (0xF8 <= code <= 0xFD),
        ensures
            (final(self)@, bus@) == spec_group_top(old(self)@, bus@, code, extra),
    {
        if code == 0xF5 { self.PSW.toggle(CpuStatus::CARRY) }
        else if code == 0xF8 { self.PSW.remove(CpuStatus::CARRY) }
        else if code == 0xF9 { self.PSW.insert(CpuStatus::CARRY) }
        else if code == 0xFA { self.PSW.remove(CpuStatus::INTERRUPT) }
        else if code == 0xFB { self.PSW.insert(CpuStatus::INTERRUPT) }
        else if code == 0xFC { self.PSW.remove(CpuStatus::DIRECTION) }
        else { self.PSW.insert(CpuStatus::DIRECTION) }
    }

    /// Opcodes 0xC0 - 0xFF.
    #[verifier::rlimit(100)]
    pub(crate) fn group_top(&mut self, bus: &mut MemBus, op: &OpCode, extra: u8)
        requires
            old(bus).wf(),
            0xC0 <= op.code,
            ready(old(self)@, op.code, extra),
            (op.op1, op.op2, op.mode, op.op3) == spec_op_info(op.code),
        ensures
            (final(self)@, final(bus)@) == spec_group_top(old(self)@, old(bus)@, op.code, extra),
            final(self).wf(),
            final(bus).wf(),
    {
        let c = op.code;
        if c == 0xC0 || c == 0xC1 || (0xD0 <= c && c <= 0xD3) { self.shift_group(bus, op, extra) }
        else if c == 0xC2 || c == 0xC3 { self.retn(bus, op.op2) }
        else if c == 0xC4 || c == 0xC5 { if self.current_op[1] >> 6 != 3 { self.mov(bus, op, extra) } }
        else if c == 0xC6 || c == 0xC7 { self.mov(bus, op, extra) }
        else if c == 0xC8 { self.prepare(bus) }
        else if c == 0xC9 { self.dispose(bus) }
        else if c == 0xCA || c == 0xCB { self.retf(bus, op.op2) }
        else if c == 0xCC || c == 0xCD { self.brk(bus, op.op2) }
        else if c == 0xCE { self.brkv(bus) }
        else if c == 0xCF { self.reti(bus) }
        else if c == 0xD4 { self.cvtbd(bus) }
        else if c == 0xD5 { self.cvtdb() }
        else if c == 0xD6 { self.salc() }
        else if c == 0xD7 { self.trans(bus) }
        else if 0xE0 <= c && c <= 0xE3 { self.loop_op(c) }
        else if c == 0xE4 || c == 0xE5 || c == 0xEC || c == 0xED { self.in_op(bus, op.mode, op.op2) }
        else if c == 0xE6 || c == 0xE7 || c == 0xEE || c == 0xEF { self.out_op(op.mode, op.op1) }
        else if c == 0xE8 { self.call(bus, Operand::IMMEDIATE_S, Mode::M16, extra) }
        else if 0xE9 <= c && c <= 0xEB { self.branch_op(bus, op.op1, op.mode, extra) }
        else if c == 0xF4 { self.halt = true }
        else if c == 0xF6 || c == 0xF7 { self.group_1(bus, op) }
        else if c == 0xF5 || (0xF8 <= c && c <= 0xFD) { self.flag_op(bus, c, extra) }
        else if c == 0xFE || c == 0xFF { self.group_2(bus, op) }
    }

}

} // verus!
