//! Selection of the operation that an opcode, and for the groups its mod/r/m byte, stands for.
use vstd::prelude::*;
use crate::bits::{lo8, hi8};
use crate::bus::mem_bus::{MemBus, MemView};
use crate::cpu::{Mode, Operand, swap_h, swap_l, spec_swap_h, spec_swap_l};
use crate::cpu::flags::CpuStatus;
use crate::cpu::opcode::{OpCode, spec_op_info, spec_op_timing, spec_sub_op_timing, sub_op_timing};
use crate::cpu::v30mz::{V30MZ, CpuView, sub16, disp_len, is_reg_modrm, fixed};
use crate::cpu::v30mz::util::decode_len;
use crate::cpu::v30mz::bit_ops::{Logic, Shift};
use crate::cpu::v30mz::mem_ops::spec_in;
use crate::cpu::v30mz::block_ops::spec_inm;

verus! {

/// The state an operation starts in: its bytes are fetched and its cycle count loaded.
pub open spec fn ready(s: CpuView, code: u8, extra: u8) -> bool {
    &&& s.wf()
    &&& 1 <= s.current_op.len() <= 10
    &&& s.op(0) == code
    &&& s.current_op.len() >= decode_len(code, s.op(1))
    &&& s.cycles == s.base
    &&& s.base == spec_op_timing(code).0
    &&& extra == spec_op_timing(code).1
}

/// The reg field of the mod/r/m byte, which selects the operation of a group.
pub open spec fn sub_op(s: CpuView) -> u8 {
    (s.op(1) >> 3) & 7
}

/// The state with the cycle count of a group operation loaded.
pub open spec fn with_base(s: CpuView, base: u8) -> CpuView {
    CpuView { base, cycles: base, ..s }
}

/// Whether the condition of a conditional branch holds.
pub open spec fn branch_taken(s: CpuView, code: u8) -> bool {
    let o = s.flag(CpuStatus::OVERFLOW);
    let c = s.flag(CpuStatus::CARRY);
    let z = s.flag(CpuStatus::ZERO);
    let sg = s.flag(CpuStatus::SIGN);
    let p = s.flag(CpuStatus::PARITY);
    let k = code & 0x0F;
    let base = if k < 2 { o } else if k < 4 { c } else if k < 6 { z } else if k < 8 { z || c }
        else if k < 10 { sg } else if k < 12 { p } else if k < 14 { sg != o } else { (sg != o) || z };
    if k % 2 == 0 { base } else { !base }
}

/// Opcodes 0x00 - 0x3F: the arithmetic and logic instructions, segment pushes and pops, and the
/// decimal adjustments.
pub open spec fn spec_group_low(d: CpuView, m: MemView, c: u8, extra: u8) -> CpuView {
    let (o1, o2, md, o3) = spec_op_info(c);
    if c <= 0x05 { d.spec_add(m, o1, o2, md, extra, false) }
    else if c == 0x06 || c == 0x0E || c == 0x16 || c == 0x1E { d.spec_push_op(m, o2, extra) }
    else if c == 0x07 || c == 0x17 || c == 0x1F { d.spec_pop_op(m, o2, extra) }
    else if 0x08 <= c <= 0x0D { d.spec_logic(m, o1, o2, md, extra, Logic::Or, true) }
    else if 0x10 <= c <= 0x15 { d.spec_add(m, o1, o2, md, extra, true) }
    else if 0x18 <= c <= 0x1D { d.spec_sub(m, o1, o2, md, extra, true, true) }
    else if 0x20 <= c <= 0x25 { d.spec_logic(m, o1, o2, md, extra, Logic::And, true) }
    else if c == 0x27 { d.spec_adj4(true) }
    else if 0x28 <= c <= 0x2D { d.spec_sub(m, o1, o2, md, extra, false, true) }
    else if c == 0x2F { d.spec_adj4(false) }
    else if 0x30 <= c <= 0x35 { d.spec_logic(m, o1, o2, md, extra, Logic::Xor, true) }
    else if c == 0x37 { d.spec_adjb(true) }
    else if 0x38 <= c <= 0x3D { d.spec_sub(m, o1, o2, md, extra, false, false) }
    else if c == 0x3F { d.spec_adjb(false) }
    else { d }
}

/// Opcodes 0x40 - 0x7F: INC, DEC, PUSH, POP, CHKIND, MUL, INM, OUTM and the conditional branches.
pub open spec fn spec_group_mid(d: CpuView, m: MemView, c: u8, extra: u8) -> (CpuView, MemView) {
    let (o1, o2, md, o3) = spec_op_info(c);
    if c <= 0x47 { (d.spec_incdec(m, Operand::REGISTER, Mode::M16, extra, true), m) }
    else if c <= 0x4F { (d.spec_incdec(m, Operand::REGISTER, Mode::M16, extra, false), m) }
    else if c == 0x54 { (d.pushed(sub16(d.SP, 2)), m) }
    else if c <= 0x57 { (d.spec_push_op(m, Operand::REGISTER, extra), m) }
    else if c <= 0x5F { (d.spec_pop_op(m, Operand::REGISTER, extra), m) }
    else if c == 0x60 { (d.spec_push_r(), m) }
    else if c == 0x61 { (d.spec_pop_r(m), m) }
    else if c == 0x62 { (if is_reg_modrm(d.op(1)) { d } else { d.spec_chkind(m, extra) }, m) }
    else if c == 0x68 || c == 0x6A { (d.spec_push_op(m, o2, extra), m) }
    else if c == 0x69 || c == 0x6B { (d.spec_mul(m, o3, Mode::M16, extra), m) }
    else if c == 0x6C || c == 0x6D {
        if d.rep && d.CW == 0 {
            (d, m)
        } else {
            let (s, io) = spec_inm(d, m.io, md, spec_op_timing(c).0, extra);
            (s, MemView { io, ..m })
        }
    }
    else if c == 0x6E || c == 0x6F {
        (if d.rep && d.CW == 0 { d } else { d.spec_outm(m, md, spec_op_timing(c).0, extra) }, m)
    }
    else if 0x70 <= c { (d.branched(branch_taken(d, c)), m) }
    else { (d, m) }
}

/// The immediate group, 0x80 - 0x83.
pub open spec fn spec_immediate_group(d: CpuView, m: MemView, c: u8) -> CpuView {
    let (o1, o2, md, o3) = spec_op_info(c);
    let sub = sub_op(d);
    let (b, e) = spec_sub_op_timing(c, sub);
    let t = with_base(d, b);
    if sub == 0 { t.spec_add(m, o1, o2, md, e, false) }
    else if sub == 1 { t.spec_logic(m, o1, o2, md, e, Logic::Or, true) }
    else if sub == 2 { t.spec_add(m, o1, o2, md, e, true) }
    else if sub == 3 { t.spec_sub(m, o1, o2, md, e, true, true) }
    else if sub == 4 { t.spec_logic(m, o1, o2, md, e, Logic::And, true) }
    else if sub == 5 { t.spec_sub(m, o1, o2, md, e, false, true) }
    else if sub == 6 { t.spec_logic(m, o1, o2, md, e, Logic::Xor, true) }
    else { t.spec_sub(m, o1, o2, md, e, false, false) }
}

/// Opcodes 0x80 - 0xBF: the immediate group, TEST, XCH, MOV, LDEA, the conversions, far CALL,
/// the flag transfers and the block instructions.
pub open spec fn spec_group_high(d: CpuView, m: MemView, c: u8, extra: u8) -> CpuView {
    let (o1, o2, md, o3) = spec_op_info(c);
    let cyc = spec_op_timing(c).0;
    if c <= 0x83 { spec_immediate_group(d, m, c) }
    else if c == 0x84 || c == 0x85 || c == 0xA8 || c == 0xA9 { d.spec_logic(m, o1, o2, md, extra, Logic::And, false) }
    else if c == 0x86 || c == 0x87 || (0x91 <= c <= 0x97) { d.spec_xch(m, md, o1, o2, extra) }
    else if (0x88 <= c <= 0x8C) || c == 0x8E || (0xA0 <= c <= 0xA3) || 0xB0 <= c { d.spec_mov(m, c, spec_op_info(c), extra) }
    else if c == 0x8D { d.spec_ldea(extra) }
    else if c == 0x8F { d.spec_pop_op(m, Operand::MEMORY, extra) }
    else if c == 0x98 { d.spec_cvtbw() }
    else if c == 0x99 { d.spec_cvtwl() }
    else if c == 0x9A { d.spec_call(m, Operand::IMMEDIATE, Mode::M32, extra) }
    else if c == 0x9C { d.spec_push_op(m, Operand::NONE, extra) }
    else if c == 0x9D { d.spec_pop_op(m, Operand::NONE, extra) }
    else if c == 0x9E { d.with_psw(fixed(CpuStatus { bits: spec_swap_l(d.PSW.bits, hi8(d.AW)) })) }
    else if c == 0x9F { CpuView { AW: spec_swap_h(d.AW, lo8(d.PSW.bits)), ..d } }
    else if 0xA4 <= c <= 0xAF && d.rep && d.CW == 0 { d }
    else if c == 0xA4 || c == 0xA5 { d.spec_movbk(m, md, cyc, extra) }
    else if c == 0xA6 || c == 0xA7 { d.spec_cmpbk(m, md, cyc, extra) }
    else if c == 0xAA || c == 0xAB { d.spec_stm(md, cyc, extra) }
    else if c == 0xAC || c == 0xAD { d.spec_ldm(m, md, cyc, extra) }
    else if c == 0xAE || c == 0xAF { d.spec_cmpm(m, md, cyc, extra) }
    else { d }
}

/// The shift group, 0xC0, 0xC1 and 0xD0 - 0xD3.
pub open spec fn spec_shift_group(d: CpuView, m: MemView, c: u8, extra: u8) -> CpuView {
    let md = spec_op_info(c).2;
    let sub = sub_op(d);
    if sub == 0 { d.spec_shift(m, Shift::Rol, c, md, extra) }
    else if sub == 1 { d.spec_shift(m, Shift::Ror, c, md, extra) }
    else if sub == 2 { d.spec_shift(m, Shift::Rolc, c, md, extra) }
    else if sub == 3 { d.spec_shift(m, Shift::Rorc, c, md, extra) }
    else if sub == 4 { d.spec_shift(m, Shift::Shl, c, md, extra) }
    else if sub == 5 { d.spec_shift(m, Shift::Shr, c, md, extra) }
    else if sub == 6 { CpuView { AW: if md == Mode::M8 { d.AW & 0xFF00 } else { 0 }, ..d } }
    else { d.spec_shift(m, Shift::Shra, c, md, extra) }
}

/// Group 1, 0xF6 and 0xF7.
pub open spec fn spec_group_1(d: CpuView, m: MemView, c: u8) -> CpuView {
    let (o1, o2, md, o3) = spec_op_info(c);
    let sub = sub_op(d);
    let (b, e) = spec_sub_op_timing(c, sub);
    let t = with_base(d, b);
    if sub == 0 { t.spec_logic(m, o1, o2, md, e, Logic::And, false) }
    else if sub == 1 { t }
    else if sub == 2 { t.spec_not(m, md, e) }
    else if sub == 3 { t.spec_neg(m, md, e) }
    else if sub == 4 { t.spec_mulu(m, md, e) }
    else if sub == 5 { t.spec_mul(m, None, md, e) }
    else if sub == 6 { with_base(d, if c == 0xF6 { 15 } else { 23 }).spec_divu(m, md, 1) }
    else { with_base(d, if c == 0xF6 { 17 } else { 24 }).spec_div(m, md, 1) }
}

/// Group 2, 0xFE and 0xFF. Sub-operations 3 and 5 are the far CALL and BR through a double word
/// in memory, as the opcode table's M32 mode for them says; with a register operand, which
/// cannot hold a far address, they do nothing.
pub open spec fn spec_group_2(d: CpuView, m: MemView, c: u8) -> CpuView {
    let md = spec_op_info(c).2;
    let sub = sub_op(d);
    let (b, e) = spec_sub_op_timing(c, sub);
    let t = with_base(d, b);
    if sub == 0 { t.spec_incdec(m, Operand::MEMORY, md, e, true) }
    else if sub == 1 { t.spec_incdec(m, Operand::MEMORY, md, e, false) }
    else if sub == 2 { t.spec_call(m, Operand::MEMORY, Mode::M16, e) }
    else if sub == 3 { if is_reg_modrm(d.op(1)) { t } else { t.spec_call(m, Operand::MEMORY, Mode::M32, e) } }
    else if sub == 4 { t.spec_branch_op(m, Operand::MEMORY, Mode::M16, e) }
    else if sub == 5 { if is_reg_modrm(d.op(1)) { t } else { t.spec_branch_op(m, Operand::MEMORY, Mode::M32, e) } }
    else if sub == 6 { t.spec_push_op(m, Operand::MEMORY, e) }
    else { t }
}

/// The loops on CW, 0xE0 - 0xE3.
pub open spec fn spec_loop(d: CpuView, c: u8) -> CpuView {
    if c == 0xE3 {
        d.branched(d.CW == 0)
    } else {
        let t = CpuView { CW: sub16(d.CW, 1), ..d };
        let z = d.flag(CpuStatus::ZERO);
        t.branched(t.CW != 0 && (c == 0xE2 || (c == 0xE1) == z))
    }
}

/// Opcodes 0xC0 - 0xFF: the shift group, returns, PREPARE and DISPOSE, the exceptions, the loops,
/// IN and OUT, CALL and BR, HALT, the flag instructions and groups 1 and 2.
pub open spec fn spec_group_top(d: CpuView, m: MemView, c: u8, extra: u8) -> (CpuView, MemView) {
    let (o1, o2, md, o3) = spec_op_info(c);
    if c == 0xC0 || c == 0xC1 || (0xD0 <= c <= 0xD3) { (spec_shift_group(d, m, c, extra), m) }
    else if c == 0xC2 || c == 0xC3 { (d.spec_retn(m, o2), m) }
    else if c == 0xC4 || c == 0xC5 { (if is_reg_modrm(d.op(1)) { d } else { d.spec_mov(m, c, spec_op_info(c), extra) }, m) }
    else if c == 0xC6 || c == 0xC7 { (d.spec_mov(m, c, spec_op_info(c), extra), m) }
    else if c == 0xC8 { (d.spec_prepare(m), m) }
    else if c == 0xC9 { (d.spec_dispose(m), m) }
    else if c == 0xCA || c == 0xCB { (d.spec_retf(m, o2), m) }
    else if c == 0xCC || c == 0xCD { (d.spec_brk(m, o2), m) }
    else if c == 0xCE { (d.spec_brkv(m), m) }
    else if c == 0xCF { (d.spec_reti(m), m) }
    else if c == 0xD4 { (d.spec_cvtbd(m), m) }
    else if c == 0xD5 { (d.spec_cvtdb(), m) }
    else if c == 0xD6 { (d.spec_salc(), m) }
    else if c == 0xD7 { (d.spec_trans(m), m) }
    else if 0xE0 <= c <= 0xE3 { (spec_loop(d, c), m) }
    else if c == 0xE4 || c == 0xE5 || c == 0xEC || c == 0xED {
        let (s, io) = spec_in(d, m.io, md, o2);
        (s, MemView { io, ..m })
    }
    else if c == 0xE6 || c == 0xE7 || c == 0xEE || c == 0xEF { (d.spec_out(md, o1), m) }
    else if c == 0xE8 { (d.spec_call(m, Operand::IMMEDIATE_S, Mode::M16, extra), m) }
    else if 0xE9 <= c <= 0xEB { (d.spec_branch_op(m, o1, md, extra), m) }
    else if c == 0xF4 { (CpuView { halt: true, ..d }, m) }
    else if c == 0xF5 { (d.with_psw(CpuStatus { bits: d.PSW.bits ^ CpuStatus::CARRY }), m) }
    else if c == 0xF6 || c == 0xF7 { (spec_group_1(d, m, c), m) }
    else if c == 0xF8 { (d.with_psw(d.PSW.with(CpuStatus::CARRY, false)), m) }
    else if c == 0xF9 { (d.with_psw(d.PSW.with(CpuStatus::CARRY, true)), m) }
    else if c == 0xFA { (d.with_psw(d.PSW.with(CpuStatus::INTERRUPT, false)), m) }
    else if c == 0xFB { (d.with_psw(d.PSW.with(CpuStatus::INTERRUPT, true)), m) }
    else if c == 0xFC { (d.with_psw(d.PSW.with(CpuStatus::DIRECTION, false)), m) }
    else if c == 0xFD { (d.with_psw(d.PSW.with(CpuStatus::DIRECTION, true)), m) }
    else if c == 0xFE || c == 0xFF { (spec_group_2(d, m, c), m) }
    else { (d, m) }
}

/// The operation an opcode stands for, from the state it starts in.
pub open spec fn spec_dispatch(d: CpuView, m: MemView, c: u8, extra: u8) -> (CpuView, MemView) {
    if c < 0x40 { (spec_group_low(d, m, c, extra), m) }
    else if c < 0x80 { spec_group_mid(d, m, c, extra) }
    else if c < 0xC0 { (spec_group_high(d, m, c, extra), m) }
    else { spec_group_top(d, m, c, extra) }
}

impl V30MZ {
    /// Opcodes 0x00 - 0x3F.
    #[verifier::rlimit(100)]
    fn group_low(&mut self, bus: &MemBus, op: &OpCode, extra: u8)
        requires
            bus.wf(),
            op.code < 0x40,
            ready(old(self)@, op.code, extra),
            (op.op1, op.op2, op.mode, op.op3) == spec_op_info(op.code),
        ensures
            final(self)@ == spec_group_low(old(self)@, bus@, op.code, extra),
            final(self).wf(),
    {
        let c = op.code;
        if c <= 0x05 { self.add(bus, op.op1, op.op2, op.mode, extra) }
        else if c == 0x06 || c == 0x0E || c == 0x16 || c == 0x1E { self.push_op(bus, op.op2, extra) }
        else if c == 0x07 || c == 0x17 || c == 0x1F { self.pop_op(bus, op.op2, extra) }
        else if 0x08 <= c && c <= 0x0D { self.or(bus, op.op1, op.op2, op.mode, extra) }
        else if 0x10 <= c && c <= 0x15 { self.addc(bus, op.op1, op.op2, op.mode, extra) }
        else if 0x18 <= c && c <= 0x1D { self.subc(bus, op.op1, op.op2, op.mode, extra) }
        else if 0x20 <= c && c <= 0x25 { self.and(bus, op.op1, op.op2, op.mode, extra) }
        else if c == 0x27 { self.adj4a() }
        else if 0x28 <= c && c <= 0x2D { self.sub(bus, op.op1, op.op2, op.mode, extra) }
        else if c == 0x2F { self.adj4s() }
        else if 0x30 <= c && c <= 0x35 { self.xor(bus, op.op1, op.op2, op.mode, extra) }
        else if c == 0x37 { self.adjba() }
        else if 0x38 <= c && c <= 0x3D { self.cmp(bus, op.op1, op.op2, op.mode, extra) }
        else if c == 0x3F { self.adjbs() }
    }

    /// PUSH SP: the value stored is SP after the decrement.
    fn push_sp(&mut self)
        requires
            old(self).wf(),
        ensures
            final(self)@ == old(self)@.pushed(sub16(old(self).SP, 2)),
            final(self).wf(),
    {
        self.SP = self.SP.wrapping_sub(2);
        let addr = self.get_stack_address();
        let sp = self.SP;
        self.write_mem_16(addr, sp);
    }

    /// Opcodes 0x40 - 0x4F.
    #[verifier::rlimit(100)]
    fn group_incdec(&mut self, bus: &MemBus, op: &OpCode, extra: u8)
        requires
            bus.wf(),
            0x40 <= op.code < 0x50,
            ready(old(self)@, op.code, extra),
            (op.op1, op.op2, op.mode, op.op3) == spec_op_info(op.code),
        ensures
            (final(self)@, bus@) == spec_group_mid(old(self)@, bus@, op.code, extra),
            final(self).wf(),
    {
        if op.code <= 0x47 { self.inc(bus, Operand::REGISTER, Mode::M16, extra) }
        else { self.dec(bus, Operand::REGISTER, Mode::M16, extra) }
    }

    /// Opcodes 0x50 - 0x5F.
    #[verifier::rlimit(100)]
    fn group_push_pop(&mut self, bus: &MemBus, op: &OpCode, extra: u8)
        requires
            bus.wf(),
            0x50 <= op.code < 0x60,
            ready(old(self)@, op.code, extra),
            (op.op1, op.op2, op.mode, op.op3) == spec_op_info(op.code),
        ensures
            (final(self)@, bus@) == spec_group_mid(old(self)@, bus@, op.code, extra),
            final(self).wf(),
    {
        let c = op.code;
        if c == 0x54 { self.push_sp() }
        else if c <= 0x57 { self.push_op(bus, Operand::REGISTER, extra) }
        else { self.pop_op(bus, Operand::REGISTER, extra) }
    }

    /// Opcodes 0x60 - 0x6F.
    #[verifier::rlimit(100)]
    fn group_mid_misc(&mut self, bus: &mut MemBus, op: &OpCode, extra: u8)
        requires
            old(bus).wf(),
            0x60 <= op.code < 0x70,
            ready(old(self)@, op.code, extra),
            (op.op1, op.op2, op.mode, op.op3) == spec_op_info(op.code),
        ensures
            (final(self)@, final(bus)@) == spec_group_mid(old(self)@, old(bus)@, op.code, extra),
            final(self).wf(),
            final(bus).wf(),
    {
        let c = op.code;
        if c == 0x60 { self.push_r() }
        else if c == 0x61 { self.pop_r(bus) }
        else if c == 0x62 {
            if self.current_op[1] >> 6 != 3 {
                self.chkind(bus, extra);
            }
        }
        else if c == 0x68 || c == 0x6A { self.push_op(bus, op.op2, extra) }
        else if c == 0x69 || c == 0x6B { self.mul(bus, op.op3, Mode::M16, extra) }
        else if c == 0x6C || c == 0x6D {
            if !(self.rep && self.CW == 0) {
                let (cycles, _) = crate::cpu::opcode::op_timing(c);
                self.inm(bus, op.mode, cycles, extra);
            }
        }
        else if c == 0x6E || c == 0x6F {
            if !(self.rep && self.CW == 0) {
                let (cycles, _) = crate::cpu::opcode::op_timing(c);
                self.outm(bus, op.mode, cycles, extra);
            }
        }
    }

    /// Opcodes 0x40 - 0x7F.
    fn group_mid(&mut self, bus: &mut MemBus, op: &OpCode, extra: u8)
        requires
            old(bus).wf(),
            0x40 <= op.code < 0x80,
            ready(old(self)@, op.code, extra),
            (op.op1, op.op2, op.mode, op.op3) == spec_op_info(op.code),
        ensures
            (final(self)@, final(bus)@) == spec_group_mid(old(self)@, old(bus)@, op.code, extra),
            final(self).wf(),
            final(bus).wf(),
    {
        let c = op.code;
        if c < 0x50 {
            self.group_incdec(bus, op, extra);
        } else if c < 0x60 {
            self.group_push_pop(bus, op, extra);
        } else if c < 0x70 {
            self.group_mid_misc(bus, op, extra);
        } else {
            let cond = self.branch_condition(c);
            self.branch(cond);
        }
    }

    /// Whether the condition of a conditional branch holds.
    fn branch_condition(&self, code: u8) -> (r: bool)
        ensures
            r == branch_taken(self@, code),
    {
        let o = self.PSW.contains(CpuStatus::OVERFLOW);
        let c = self.PSW.contains(CpuStatus::CARRY);
        let z = self.PSW.contains(CpuStatus::ZERO);
        let sg = self.PSW.contains(CpuStatus::SIGN);
        let p = self.PSW.contains(CpuStatus::PARITY);
        let k = code & 0x0F;
        let base = if k < 2 { o } else if k < 4 { c } else if k < 6 { z } else if k < 8 { z || c }
            else if k < 10 { sg } else if k < 12 { p } else if k < 14 { sg != o } else { (sg != o) || z };
        if k % 2 == 0 { base } else { !base }
    }

    /// Runs the operation an opcode stands for.
    pub fn dispatch(&mut self, bus: &mut MemBus, op: &OpCode, extra: u8)
        requires
            old(bus).wf(),
            ready(old(self)@, op.code, extra),
            (op.op1, op.op2, op.mode, op.op3) == spec_op_info(op.code),
        ensures
            (final(self)@, final(bus)@) == spec_dispatch(old(self)@, old(bus)@, op.code, extra),
            final(self).wf(),
            final(bus).wf(),
    {
        if op.code < 0x40 { self.group_low(bus, op, extra) }
        else if op.code < 0x80 { self.group_mid(bus, op, extra) }
        else if op.code < 0xC0 { self.group_high(bus, op, extra) }
        else { self.group_top(bus, op, extra) }
    }
}

} // verus!
