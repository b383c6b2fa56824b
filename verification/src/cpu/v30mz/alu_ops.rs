//! Arithmetic instructions of the V30MZ.
use vstd::prelude::*;
use crate::bits::{word, lo8, hi8, low16, u16_to_le};
use crate::bus::mem_bus::{MemBus, MemView};
use crate::cpu::{Mode, Operand, swap_h, swap_l, spec_swap_h, spec_swap_l, parity, even_parity};
use crate::cpu::flags::CpuStatus;
use crate::cpu::v30mz::{V30MZ, CpuView, sext8, sub16};
use crate::cpu::v30mz::util::{flags_add8, flags_add16, flags_sub8, flags_sub16, sign_extend};

verus! {

/// The signed value of a byte.
pub open spec fn signed8(b: u8) -> int {
    if b < 0x80 { b as int } else { b - 0x100 }
}

/// The signed value of a word.
pub open spec fn signed16(w: u16) -> int {
    if w < 0x8000 { w as int } else { w - 0x10000 }
}

/// The signed value of the double word `hi:lo`.
pub open spec fn signed32(hi: u16, lo: u16) -> int {
    if hi < 0x8000 { hi * 0x10000 + lo } else { hi * 0x10000 + lo - 0x1_0000_0000 }
}

pub open spec fn abs(x: int) -> int {
    if x < 0 { -x } else { x }
}

/// Division rounding toward zero.
pub open spec fn tdiv(n: int, d: int) -> int {
    if (n < 0) != (d < 0) { -(abs(n) / abs(d)) } else { abs(n) / abs(d) }
}

/// Remainder of the division rounding toward zero; it has the sign of the dividend.
pub open spec fn trem(n: int, d: int) -> int {
    if n < 0 { -(abs(n) % abs(d)) } else { abs(n) % abs(d) }
}

/// The low byte of the two's complement representation of an integer.
pub open spec fn wrap8(x: int) -> u8 {
    (x % 0x100) as u8
}

/// The low word of the two's complement representation of an integer.
pub open spec fn wrap16(x: int) -> u16 {
    (x % 0x10000) as u16
}

/// Whether the high half of a product is not the sign extension of its low half.
pub open spec fn not_sign_ext8(aw: u16) -> bool {
    (aw & 0x80 == 0 && aw >> 8 != 0) || (aw & 0x80 != 0 && aw >> 8 != 0xFF)
}

pub open spec fn not_sign_ext16(lo: u16, hi: u16) -> bool {
    (lo & 0x8000 == 0 && hi != 0) || (lo & 0x8000 != 0 && hi != 0xFFFF)
}

pub open spec fn flags_neg8(psw: CpuStatus, src: u8, res: u8) -> CpuStatus {
    psw.with(CpuStatus::ZERO, res == 0)
        .with(CpuStatus::SIGN, res & 0x80 != 0)
        .with(CpuStatus::OVERFLOW, src == 0x80)
        .with(CpuStatus::CARRY, src != 0)
        .with(CpuStatus::PARITY, even_parity(res))
        .with(CpuStatus::AUX_CARRY, src & 0xF != 0)
}

pub open spec fn flags_neg16(psw: CpuStatus, src: u16, res: u16) -> CpuStatus {
    psw.with(CpuStatus::ZERO, res == 0)
        .with(CpuStatus::SIGN, res & 0x8000 != 0)
        .with(CpuStatus::OVERFLOW, src == 0x8000)
        .with(CpuStatus::CARRY, src != 0)
        .with(CpuStatus::PARITY, even_parity(lo8(res)))
        .with(CpuStatus::AUX_CARRY, src & 0xF != 0)
}

/// The flags a multiplication leaves: OV and CY tell whether the result overflowed its low half.
pub open spec fn flags_mul(psw: CpuStatus, overflow: bool) -> CpuStatus {
    psw.with(CpuStatus::OVERFLOW, overflow).with(CpuStatus::CARRY, overflow)
        .with(CpuStatus::ZERO, true).with(CpuStatus::SIGN, false)
        .with(CpuStatus::PARITY, false).with(CpuStatus::AUX_CARRY, false)
}

/// The flags a division leaves when it raises the divide error, for a byte and a word division.
pub open spec fn flags_div_error(psw: CpuStatus, word_sized: bool) -> CpuStatus {
    let p = if word_sized { psw.with(CpuStatus::CARRY, false).with(CpuStatus::OVERFLOW, false) } else { psw };
    p.with(CpuStatus::AUX_CARRY, false).with(CpuStatus::SIGN, false).with(CpuStatus::PARITY, false)
}

/// The flags a decimal adjustment leaves.
pub open spec fn flags_szp(psw: CpuStatus, al: u8) -> CpuStatus {
    psw.with(CpuStatus::ZERO, al == 0).with(CpuStatus::SIGN, al & 0x80 != 0).with(CpuStatus::PARITY, even_parity(al))
}

/// The flags NEG leaves on a word.
fn neg_flags16(psw: CpuStatus, src: u16, res: u16) -> (r: CpuStatus)
    ensures
        r == flags_neg16(psw, src, res),
{
    let mut p = psw;
    p.set(CpuStatus::ZERO, res == 0);
    p.set(CpuStatus::SIGN, res & 0x8000 != 0);
    p.set(CpuStatus::OVERFLOW, src == 0x8000);
    p.set(CpuStatus::CARRY, src != 0);
    p.set(CpuStatus::PARITY, parity(u16_to_le(res).0));
    p.set(CpuStatus::AUX_CARRY, src & 0xF != 0);
    p
}

/// The flags ZERO, SIGN and PARITY set from a byte.
fn szp_flags(psw: CpuStatus, al: u8) -> (r: CpuStatus)
    ensures
        r == flags_szp(psw, al),
{
    let mut p = psw;
    p.set(CpuStatus::ZERO, al == 0);
    p.set(CpuStatus::SIGN, al & 0x80 != 0);
    p.set(CpuStatus::PARITY, parity(al));
    p
}

impl CpuView {
    /// Whether an instruction on the mod/r/m operand can run: its bytes are present and the cycle
    /// counter can take the memory penalty.
    pub open spec fn rm_ok(self, extra: u8) -> bool {
        &&& self.wf()
        &&& self.operand_present(Operand::MEMORY, Mode::M8)
        &&& self.can_charge(extra)
    }

    /// Whether a two-operand arithmetic or logic instruction can run on its operands.
    pub open spec fn alu_ok(self, op1: Operand, op2: Operand, mode: Mode, extra: u8) -> bool {
        &&& self.wf()
        &&& mode != Mode::M32
        &&& (mode == Mode::M8 ==> (op1 == Operand::MEMORY || op1 == Operand::REGISTER || op1 == Operand::ACCUMULATOR
                || op1 == Operand::DIRECT)
            && (op2 == Operand::MEMORY || op2 == Operand::REGISTER || op2 == Operand::ACCUMULATOR
                || op2 == Operand::IMMEDIATE || op2 == Operand::DIRECT))
        &&& (mode == Mode::M16 ==> (op1 == Operand::MEMORY || op1 == Operand::REGISTER || op1 == Operand::ACCUMULATOR
                || op1 == Operand::SEGMENT || op1 == Operand::DIRECT) && op2 != Operand::NONE)
        &&& self.operand_present(op1, mode)
        &&& self.operand_present(op2, mode)
        &&& self.current_op.len() >= 2
        &&& self.can_charge(extra)
    }

    /// The source of an 8-bit operation: the trailing immediate when the destination is a mod/r/m operand.
    pub open spec fn alu_src8(self, m: MemView, op1: Operand, op2: Operand) -> u8 {
        if op2 == Operand::IMMEDIATE && op1 == Operand::MEMORY { self.imm8() } else { self.src8(m, op2) }
    }

    /// The source of a 16-bit operation.
    pub open spec fn alu_src16(self, m: MemView, op1: Operand, op2: Operand) -> u16 {
        if op2 == Operand::IMMEDIATE_S {
            sext8(self.imm8())
        } else if op2 == Operand::IMMEDIATE && op1 == Operand::MEMORY {
            self.imm16()
        } else {
            self.src16(m, op2)
        }
    }

    pub open spec fn carry_in(self, use_carry: bool) -> int {
        if use_carry && self.flag(CpuStatus::CARRY) { 1 } else { 0 }
    }

    /// ADD, and ADDC when `use_carry`.
    pub open spec fn spec_add(self, m: MemView, op1: Operand, op2: Operand, mode: Mode, extra: u8, use_carry: bool) -> CpuView {
        let c = self.charge_ops(op1, op2, extra);
        let carry = self.carry_in(use_carry);
        if mode == Mode::M8 {
            let a = self.src8(m, op1);
            let b = self.alu_src8(m, op1, op2);
            let r = (a + b + carry) as u16;
            c.with_psw(flags_add8(self.PSW, a as u16, b as u16, r, carry as u16)).dest8(op1, lo8(r))
        } else {
            let a = self.src16(m, op1);
            let b = self.alu_src16(m, op1, op2);
            let r = (a + b + carry) as u32;
            c.with_psw(flags_add16(self.PSW, a as u32, b as u32, r, carry as u32)).dest16(op1, (r % 0x10000) as u16)
        }
    }

    /// SUB, and SUBC when `use_carry`; CMP when `!store`.
    pub open spec fn spec_sub(self, m: MemView, op1: Operand, op2: Operand, mode: Mode, extra: u8, use_carry: bool, store: bool) -> CpuView {
        let c = self.charge_ops(op1, op2, extra);
        let carry = self.carry_in(use_carry);
        if mode == Mode::M8 {
            let a = self.src8(m, op1);
            let b = self.alu_src8(m, op1, op2);
            let r = ((a - b - carry + 0x200) % 0x100) as u8;
            let t = c.with_psw(flags_sub8(self.PSW, a, b, r, carry as u8));
            if store { t.dest8(op1, r) } else { t }
        } else {
            let a = self.src16(m, op1);
            let b = self.alu_src16(m, op1, op2);
            let r = ((a - b - carry + 0x20000) % 0x10000) as u16;
            let t = c.with_psw(flags_sub16(self.PSW, a, b, r, carry as u16));
            if store { t.dest16(op1, r) } else { t }
        }
    }

    /// INC or DEC of the register named by the low bits of the opcode.
    pub open spec fn spec_incdec_reg(self, inc: bool) -> CpuView {
        let i = self.op(0) & 7;
        let a = self.reg16(i);
        if inc {
            let r = (a + 1) as u32;
            self.set_reg16(i, (r % 0x10000) as u16).with_psw(flags_add16(self.PSW, a as u32, 1, r, 0))
        } else {
            let r = sub16(a, 1);
            self.set_reg16(i, r).with_psw(flags_sub16(self.PSW, a, 1, r, 0))
        }
    }

    /// INC or DEC of a byte mod/r/m operand.
    pub open spec fn spec_incdec_rm8(self, m: MemView, extra: u8, inc: bool) -> CpuView {
        let c = self.charge(self.op(1), extra);
        let a = self.rm8(m, self.op(1));
        if inc {
            let r = (a + 1) as u16;
            c.with_psw(flags_add8(self.PSW, a as u16, 1, r, 0)).with_rm8(self.op(1), lo8(r))
        } else {
            let r = ((a - 1 + 0x100) % 0x100) as u8;
            c.with_psw(flags_sub8(self.PSW, a, 1, r, 0)).with_rm8(self.op(1), r)
        }
    }

    /// INC or DEC of a word mod/r/m operand.
    pub open spec fn spec_incdec_rm16(self, m: MemView, extra: u8, inc: bool) -> CpuView {
        let c = self.charge(self.op(1), extra);
        let a = self.rm16(m, self.op(1));
        if inc {
            let r = (a + 1) as u32;
            c.with_psw(flags_add16(self.PSW, a as u32, 1, r, 0)).with_rm16(self.op(1), (r % 0x10000) as u16)
        } else {
            let r = sub16(a, 1);
            c.with_psw(flags_sub16(self.PSW, a, 1, r, 0)).with_rm16(self.op(1), r)
        }
    }

    /// INC when `inc`, DEC otherwise; CY is kept.
    pub open spec fn spec_incdec(self, m: MemView, op: Operand, mode: Mode, extra: u8, inc: bool) -> CpuView {
        let t = if op == Operand::REGISTER {
            self.spec_incdec_reg(inc)
        } else if mode == Mode::M8 {
            self.spec_incdec_rm8(m, extra, inc)
        } else {
            self.spec_incdec_rm16(m, extra, inc)
        };
        t.with_psw(t.PSW.with(CpuStatus::CARRY, self.flag(CpuStatus::CARRY)))
    }

    /// NEG: the mod/r/m operand is replaced by its two's complement.
    pub open spec fn spec_neg(self, m: MemView, mode: Mode, extra: u8) -> CpuView {
        let c = self.charge(self.op(1), extra);
        if mode == Mode::M8 {
            let src = self.rm8(m, self.op(1));
            let res = ((0x100 - src) % 0x100) as u8;
            c.with_rm8(self.op(1), res).with_psw(flags_neg8(self.PSW, src, res))
        } else {
            let src = self.rm16(m, self.op(1));
            let res = ((0x10000 - src) % 0x10000) as u16;
            c.with_rm16(self.op(1), res).with_psw(flags_neg16(self.PSW, src, res))
        }
    }

    /// MUL: signed multiplication of AL or AW by the mod/r/m operand, or, with a third operand, of
    /// the mod/r/m word by an immediate into AW.
    pub open spec fn spec_mul(self, m: MemView, op3: Option<Operand>, mode: Mode, extra: u8) -> CpuView {
        let c = self.charge(self.op(1), extra);
        match op3 {
            None => {
                if mode == Mode::M8 {
                    let aw = wrap16(signed8(lo8(self.AW)) * signed8(self.rm8(m, self.op(1))));
                    CpuView { AW: aw, ..c }.with_psw(flags_mul(self.PSW, not_sign_ext8(aw)))
                } else {
                    let p = (signed16(self.rm16(m, self.op(1))) * signed16(self.AW)) % 0x1_0000_0000;
                    let aw = (p % 0x10000) as u16;
                    let dw = (p / 0x10000) as u16;
                    CpuView { AW: aw, DW: dw, ..c }.with_psw(flags_mul(self.PSW, not_sign_ext16(aw, dw)))
                }
            }
            Some(o3) => {
                let f2 = if o3 == Operand::IMMEDIATE_S { signed8(self.imm8()) } else { signed16(self.imm16()) };
                let p = (signed16(self.rm16(m, self.op(1))) * f2) % 0x1_0000_0000;
                let aw = (p % 0x10000) as u16;
                let hi = (p / 0x10000) as u16;
                CpuView { AW: aw, ..c }.with_psw(flags_mul(self.PSW, not_sign_ext16(aw, hi)))
            }
        }
    }

    /// MULU: unsigned multiplication of AL by a byte into AW, or of AW by a word into DW:AW.
    pub open spec fn spec_mulu(self, m: MemView, mode: Mode, extra: u8) -> CpuView {
        let c = self.charge(self.op(1), extra);
        if mode == Mode::M8 {
            let r = (lo8(self.AW) * self.rm8(m, self.op(1))) as u16;
            CpuView { AW: r, ..c }.with_psw(flags_mul(self.PSW, r > 0xFF))
        } else {
            let r = self.AW * self.rm16(m, self.op(1));
            let dw = (r / 0x10000) as u16;
            CpuView { AW: (r % 0x10000) as u16, DW: dw, ..c }.with_psw(flags_mul(self.PSW, dw != 0))
        }
    }

    /// DIV: signed division of AW by a byte or of DW:AW by a word; a zero divisor or a quotient
    /// that does not fit raises exception 0.
    pub open spec fn spec_div(self, m: MemView, mode: Mode, extra: u8) -> CpuView {
        let c = self.charge(self.op(1), extra);
        if mode == Mode::M8 {
            let d = signed8(self.rm8(m, self.op(1)));
            let n = signed16(self.AW);
            if d == 0 || tdiv(n, d) > 0x7F || tdiv(n, d) < -0x7F {
                c.with_psw(flags_div_error(self.PSW, false)).exception(m, 0)
            } else {
                let q = tdiv(n, d);
                let r = trem(n, d);
                let t = c.with_psw(self.PSW.with(CpuStatus::AUX_CARRY, false).with(CpuStatus::CARRY, false)
                    .with(CpuStatus::OVERFLOW, false).with(CpuStatus::ZERO, q == 0)
                    .with(CpuStatus::PARITY, even_parity(wrap8(q))).with(CpuStatus::SIGN, q < 0));
                CpuView { AW: spec_swap_l(spec_swap_h(self.AW, wrap8(r)), wrap8(q)), ..t }
            }
        } else {
            let d = signed16(self.rm16(m, self.op(1)));
            let n = signed32(self.DW, self.AW);
            if d == 0 || tdiv(n, d) > 0x7FFF || tdiv(n, d) < -0x7FFF {
                c.with_psw(flags_div_error(self.PSW, true)).exception(m, 0)
            } else {
                let q = tdiv(n, d);
                let r = trem(n, d);
                let t = c.with_psw(self.PSW.with(CpuStatus::AUX_CARRY, false).with(CpuStatus::CARRY, false)
                    .with(CpuStatus::OVERFLOW, false).with(CpuStatus::ZERO, q == 0)
                    .with(CpuStatus::PARITY, even_parity(wrap8(q))).with(CpuStatus::SIGN, q < 0));
                CpuView { DW: wrap16(r), AW: wrap16(q), ..t }
            }
        }
    }

    /// DIVU: unsigned division of AW by a byte or by a word; a zero divisor or a byte quotient
    /// that does not fit raises exception 0.
    pub open spec fn spec_divu(self, m: MemView, mode: Mode, extra: u8) -> CpuView {
        let c = self.charge(self.op(1), extra);
        if mode == Mode::M8 {
            let d = self.rm8(m, self.op(1)) as int;
            if d == 0 || self.AW as int / d > 0xFF {
                c.with_psw(flags_div_error(self.PSW, false)).exception(m, 0)
            } else {
                let q = self.AW as int / d;
                let r = self.AW as int % d;
                let t = c.with_psw(self.PSW.with(CpuStatus::AUX_CARRY, false).with(CpuStatus::SIGN, false)
                    .with(CpuStatus::PARITY, false).with(CpuStatus::ZERO, r == 0 && q % 2 == 1));
                CpuView { AW: spec_swap_l(spec_swap_h(self.AW, r as u8), q as u8), ..t }
            }
        } else {
            let d = self.rm16(m, self.op(1)) as int;
            if d == 0 {
                c.with_psw(flags_div_error(self.PSW, true)).exception(m, 0)
            } else {
                let q = self.AW as int / d;
                let r = self.AW as int % d;
                let t = c.with_psw(flags_div_error(self.PSW, true).with(CpuStatus::ZERO, r == 0 && q % 2 == 1));
                CpuView { DW: r as u16, AW: q as u16, ..t }
            }
        }
    }

    /// ADJ4A and ADJ4S: decimal adjustment of AL after an addition or, when `!add`, a subtraction.
    pub open spec fn spec_adj4(self, add: bool) -> CpuView {
        let al0 = lo8(self.AW);
        let low = al0 & 0x0F > 0x09 || self.flag(CpuStatus::AUX_CARRY);
        let al1 = if low { if add { ((al0 + 6) % 0x100) as u8 } else { ((al0 - 6 + 0x100) % 0x100) as u8 } } else { al0 };
        let p1 = if low { self.PSW.with(CpuStatus::AUX_CARRY, true) } else { self.PSW };
        let high = al1 > 0x9F || self.flag(CpuStatus::CARRY);
        let al2 = if high { if add { ((al1 + 0x60) % 0x100) as u8 } else { ((al1 - 0x60 + 0x100) % 0x100) as u8 } } else { al1 };
        let p2 = if high { p1.with(CpuStatus::CARRY, true) } else { p1 };
        CpuView { AW: spec_swap_l(self.AW, al2), PSW: flags_szp(p2, al2), ..self }
    }

    /// ADJBA and ADJBS: unpacked decimal adjustment after an addition or, when `!add`, a subtraction.
    pub open spec fn spec_adjb(self, add: bool) -> CpuView {
        let al0 = lo8(self.AW);
        if self.flag(CpuStatus::AUX_CARRY) {
            let al = if add { ((al0 + 6) % 0x100) as u8 & 0x0F } else { ((al0 - 6 + 0x100) % 0x100) as u8 & 0x0F };
            let aw = if add { ((self.AW + 0x100) % 0x10000) as u16 } else { spec_swap_h(self.AW, ((hi8(self.AW) - 1 + 0x100) % 0x100) as u8) };
            let p = self.PSW.with(CpuStatus::AUX_CARRY, true).with(CpuStatus::CARRY, true).with(CpuStatus::SIGN, false)
                .with(CpuStatus::ZERO, true).with(CpuStatus::OVERFLOW, false).with(CpuStatus::PARITY, true);
            CpuView { AW: spec_swap_l(aw, al), PSW: p, ..self }
        } else {
            let p = self.PSW.with(CpuStatus::AUX_CARRY, false).with(CpuStatus::CARRY, false).with(CpuStatus::SIGN, true)
                .with(CpuStatus::ZERO, false).with(CpuStatus::OVERFLOW, false).with(CpuStatus::PARITY, true);
            CpuView { AW: spec_swap_l(self.AW, al0 & 0x0F), PSW: p, ..self }
        }
    }

    /// CVTBD: AL is split into AH = AL / imm and AL = AL % imm; a zero immediate raises exception 0.
    pub open spec fn spec_cvtbd(self, m: MemView) -> CpuView {
        let src = self.op(1);
        if src == 0 {
            self.exception(m, 0)
        } else {
            let al = lo8(self.AW) / src;
            let ah = lo8(self.AW) % src;
            CpuView { AW: spec_swap_l(spec_swap_h(self.AW, ah), al), PSW: flags_szp(self.PSW, al), ..self }
        }
    }

    /// CVTDB: AL = AH * imm + AL, AH = 0.
    pub open spec fn spec_cvtdb(self) -> CpuView {
        let src = self.op(1) as u16;
        let mul = (hi8(self.AW) * src) as u16;
        let result = (mul + lo8(self.AW)) as u16;
        CpuView { AW: lo8(result) as u16, PSW: flags_add8(self.PSW, lo8(self.AW) as u16, mul, result, 0), ..self }
    }
}

/// Byte subtraction with borrow, wrapping.
fn wsub8(a: u8, b: u8, c: u8) -> (r: u8)
    requires
        c <= 1,
    ensures
        r == ((a - b - c + 0x200) % 0x100) as u8,
{
    a.wrapping_sub(b).wrapping_sub(c)
}

/// Word subtraction with borrow, wrapping.
fn wsub16(a: u16, b: u16, c: u16) -> (r: u16)
    requires
        c <= 1,
    ensures
        r == ((a - b - c + 0x20000) % 0x10000) as u16,
{
    a.wrapping_sub(b).wrapping_sub(c)
}

/// The signed value of a byte.
fn signed_8(b: u8) -> (r: i64)
    ensures
        r == signed8(b),
{
    if b < 0x80 { b as i64 } else { b as i64 - 0x100 }
}

/// The signed value of a word.
fn signed_16(w: u16) -> (r: i64)
    ensures
        r == signed16(w),
{
    if w < 0x8000 { w as i64 } else { w as i64 - 0x10000 }
}

/// The two halves of the 32-bit two's complement representation of a product.
fn split_product(p: i64) -> (r: (u16, u16))
    requires
        -0x4000_0000 <= p <= 0x4000_0000,
    ensures
        r.0 == (p % 0x1_0000_0000) % 0x10000,
        r.1 == (p % 0x1_0000_0000) / 0x10000,
{
    let q: u64 = (p + 0x1_0000_0000_0000) as u64;
    proof {
        vstd::arithmetic::div_mod::lemma_mod_multiples_vanish(0x10000, p as int, 0x1_0000_0000);
    }
    let w = q % 0x1_0000_0000;
    ((w % 0x10000) as u16, (w / 0x10000) as u16)
}

/// Division rounding toward zero, with its remainder.
fn trunc_divrem(n: i64, d: i64) -> (r: (i64, i64))
    requires
        d != 0,
        -0x1_0000_0000 <= n <= 0x1_0000_0000,
        -0x10000 <= d <= 0x10000,
    ensures
        r.0 == tdiv(n as int, d as int),
        r.1 == trem(n as int, d as int),
{
    let un: u64 = if n < 0 { (0 - n) as u64 } else { n as u64 };
    let ud: u64 = if d < 0 { (0 - d) as u64 } else { d as u64 };
    let q = un / ud;
    let r = un % ud;
    assert(q <= un) by (nonlinear_arith) requires ud >= 1, q == un / ud;
    let q: i64 = if (n < 0) != (d < 0) { 0 - (q as i64) } else { q as i64 };
    let r: i64 = if n < 0 { 0 - (r as i64) } else { r as i64 };
    (q, r)
}

impl V30MZ {
    fn alu_operands_8(&self, bus: &MemBus, op1: Operand, op2: Operand) -> (r: (u8, u8))
        requires
            bus.wf(),
            self@.alu_ok(op1, op2, Mode::M8, 0),
        ensures
            r == (self@.src8(bus@, op1), self@.alu_src8(bus@, op1, op2)),
    {
        let a = self.resolve_src_8(bus, op1);
        let b = if op2 == Operand::IMMEDIATE && op1 == Operand::MEMORY { self.get_imm8() } else { self.resolve_src_8(bus, op2) };
        (a, b)
    }

    fn alu_operands_16(&self, bus: &MemBus, op1: Operand, op2: Operand) -> (r: (u16, u16))
        requires
            bus.wf(),
            self@.alu_ok(op1, op2, Mode::M16, 0),
        ensures
            r == (self@.src16(bus@, op1), self@.alu_src16(bus@, op1, op2)),
    {
        let a = self.resolve_src_16(bus, op1);
        let b = if op2 == Operand::IMMEDIATE_S {
            sign_extend(self.get_imm8())
        } else if op2 == Operand::IMMEDIATE && op1 == Operand::MEMORY {
            self.get_imm16()
        } else {
            self.resolve_src_16(bus, op2)
        };
        (a, b)
    }

    fn carry_value(&self, use_carry: bool) -> (r: u8)
        ensures
            r == self@.carry_in(use_carry),
    {
        if use_carry && self.PSW.contains(CpuStatus::CARRY) { 1 } else { 0 }
    }

    fn add_with(&mut self, bus: &MemBus, op1: Operand, op2: Operand, mode: Mode, extra: u8, use_carry: bool)
        requires
            bus.wf(),
            old(self)@.alu_ok(op1, op2, mode, extra),
        ensures
            final(self)@ == old(self)@.spec_add(bus@, op1, op2, mode, extra, use_carry),
            final(self).wf(),
    {
        let carry = self.carry_value(use_carry);
        match mode {
            Mode::M8 => {
                let (a, b) = self.alu_operands_8(bus, op1, op2);
                self.charge_operands(op1, op2, extra);
                let result = a as u16 + b as u16 + carry as u16;
                self.update_flags_add_8(a as u16, b as u16, result, carry as u16);
                self.write_src_to_dest_8(op1, u16_to_le(result).0);
            }
            _ => {
                let (a, b) = self.alu_operands_16(bus, op1, op2);
                self.charge_operands(op1, op2, extra);
                let result = a as u32 + b as u32 + carry as u32;
                self.update_flags_add_16(a as u32, b as u32, result, carry as u32);
                self.write_src_to_dest_16(op1, low16(result));
            }
        }
    }

    #[verifier::rlimit(60)]
    fn sub_with(&mut self, bus: &MemBus, op1: Operand, op2: Operand, mode: Mode, extra: u8, use_carry: bool, store: bool)
        requires
            bus.wf(),
            old(self)@.alu_ok(op1, op2, mode, extra),
        ensures
            final(self)@ == old(self)@.spec_sub(bus@, op1, op2, mode, extra, use_carry, store),
            final(self).wf(),
    {
        let carry = self.carry_value(use_carry);
        match mode {
            Mode::M8 => {
                let (a, b) = self.alu_operands_8(bus, op1, op2);
                self.charge_operands(op1, op2, extra);
                let result = wsub8(a, b, carry);
                self.update_flags_sub_8(a, b, result, carry);
                if store {
                    self.write_src_to_dest_8(op1, result);
                }
            }
            _ => {
                let (a, b) = self.alu_operands_16(bus, op1, op2);
                self.charge_operands(op1, op2, extra);
                let result = wsub16(a, b, carry as u16);
                self.update_flags_sub_16(a, b, result, carry as u16);
                if store {
                    self.write_src_to_dest_16(op1, result);
                }
            }
        }
    }

    /// ADD: adds the source to the destination.
    pub fn add(&mut self, bus: &MemBus, op1: Operand, op2: Operand, mode: Mode, extra: u8)
        requires
            bus.wf(),
            old(self)@.alu_ok(op1, op2, mode, extra),
        ensures
            final(self)@ == old(self)@.spec_add(bus@, op1, op2, mode, extra, false),
            final(self).wf(),
    {
        self.add_with(bus, op1, op2, mode, extra, false);
    }

    /// ADDC: adds the source and the carry to the destination.
    pub fn addc(&mut self, bus: &MemBus, op1: Operand, op2: Operand, mode: Mode, extra: u8)
        requires
            bus.wf(),
            old(self)@.alu_ok(op1, op2, mode, extra),
        ensures
            final(self)@ == old(self)@.spec_add(bus@, op1, op2, mode, extra, true),
            final(self).wf(),
    {
        self.add_with(bus, op1, op2, mode, extra, true);
    }

    /// SUB: subtracts the source from the destination.
    pub fn sub(&mut self, bus: &MemBus, op1: Operand, op2: Operand, mode: Mode, extra: u8)
        requires
            bus.wf(),
            old(self)@.alu_ok(op1, op2, mode, extra),
        ensures
            final(self)@ == old(self)@.spec_sub(bus@, op1, op2, mode, extra, false, true),
            final(self).wf(),
    {
        self.sub_with(bus, op1, op2, mode, extra, false, true);
    }

    /// SUBC: subtracts the source and the carry from the destination.
    pub fn subc(&mut self, bus: &MemBus, op1: Operand, op2: Operand, mode: Mode, extra: u8)
        requires
            bus.wf(),
            old(self)@.alu_ok(op1, op2, mode, extra),
        ensures
            final(self)@ == old(self)@.spec_sub(bus@, op1, op2, mode, extra, true, true),
            final(self).wf(),
    {
        self.sub_with(bus, op1, op2, mode, extra, true, true);
    }

    /// CMP: sets the flags of a subtraction without storing it.
    pub fn cmp(&mut self, bus: &MemBus, op1: Operand, op2: Operand, mode: Mode, extra: u8)
        requires
            bus.wf(),
            old(self)@.alu_ok(op1, op2, mode, extra),
        ensures
            final(self)@ == old(self)@.spec_sub(bus@, op1, op2, mode, extra, false, false),
            final(self).wf(),
    {
        self.sub_with(bus, op1, op2, mode, extra, false, false);
    }

    fn incdec_reg(&mut self, inc: bool)
        requires
            old(self).wf(),
            old(self).current_op.len() >= 1,
        ensures
            final(self)@ == old(self)@.spec_incdec_reg(inc),
            final(self).wf(),
    {
        let bits = self.current_op[0] & 0b111;
        let a = self.get_reg16(bits);
        if inc {
            let result = a as u32 + 1;
            self.set_reg16(bits, low16(result));
            self.update_flags_add_16(a as u32, 1, result, 0);
        } else {
            let result = wsub16(a, 1, 0);
            self.set_reg16(bits, result);
            self.update_flags_sub_16(a, 1, result, 0);
        }
    }

    #[verifier::spinoff_prover]
    #[verifier::rlimit(100)]
    fn incdec_rm8(&mut self, bus: &MemBus, extra: u8, inc: bool)
        requires
            bus.wf(),
            old(self).wf(),
            old(self)@.operand_present(Operand::MEMORY, Mode::M8),
            old(self)@.can_charge(extra),
        ensures
            final(self)@ == old(self)@.spec_incdec_rm8(bus@, extra, inc),
            final(self).wf(),
    {
        let ghost s0 = self@;
        let byte = self.current_op[1];
        let a = self.resolve_src_8(bus, Operand::MEMORY);
        assert(a == s0.rm8(bus@, s0.op(1)));
        self.charge_memory_operand(byte, extra);
        let ghost c = s0.charge(s0.op(1), extra);
        assert(self@ == c && c.PSW == s0.PSW);
        if inc {
            let result = a as u16 + 1;
            self.update_flags_add_8(a as u16, 1, result, 0);
            assert(self@ == c.with_psw(flags_add8(s0.PSW, a as u16, 1, result, 0)));
            self.write_src_to_dest_8(Operand::MEMORY, u16_to_le(result).0);
        } else {
            let result = wsub8(a, 1, 0);
            self.update_flags_sub_8(a, 1, result, 0);
            assert(self@ == c.with_psw(flags_sub8(s0.PSW, a, 1, result, 0)));
            self.write_src_to_dest_8(Operand::MEMORY, result);
        }
    }

    #[verifier::spinoff_prover]
    #[verifier::rlimit(100)]
    fn inc_rm16(&mut self, bus: &MemBus, extra: u8)
        requires
            bus.wf(),
            old(self).wf(),
            old(self)@.operand_present(Operand::MEMORY, Mode::M16),
            old(self)@.can_charge(extra),
        ensures
            final(self)@ == old(self)@.spec_incdec_rm16(bus@, extra, true),
            final(self).wf(),
    {
        let ghost s0 = self@;
        let byte = self.current_op[1];
        let a = self.resolve_src_16(bus, Operand::MEMORY);
        assert(a == s0.rm16(bus@, s0.op(1)));
        self.charge_memory_operand(byte, extra);
        let ghost c = s0.charge(s0.op(1), extra);
        assert(self@ == c && c.PSW == s0.PSW);
        let result = a as u32 + 1;
        self.update_flags_add_16(a as u32, 1, result, 0);
        assert(self@ == c.with_psw(flags_add16(s0.PSW, a as u32, 1, result, 0)));
        self.write_src_to_dest_16(Operand::MEMORY, low16(result));
    }

    #[verifier::spinoff_prover]
    #[verifier::rlimit(100)]
    fn dec_rm16(&mut self, bus: &MemBus, extra: u8)
        requires
            bus.wf(),
            old(self).wf(),
            old(self)@.operand_present(Operand::MEMORY, Mode::M16),
            old(self)@.can_charge(extra),
        ensures
            final(self)@ == old(self)@.spec_incdec_rm16(bus@, extra, false),
            final(self).wf(),
    {
        let ghost s0 = self@;
        let byte = self.current_op[1];
        let a = self.resolve_src_16(bus, Operand::MEMORY);
        assert(a == s0.rm16(bus@, s0.op(1)));
        self.charge_memory_operand(byte, extra);
        let ghost c = s0.charge(s0.op(1), extra);
        assert(self@ == c && c.PSW == s0.PSW);
        let result = wsub16(a, 1, 0);
        self.update_flags_sub_16(a, 1, result, 0);
        assert(self@ == c.with_psw(flags_sub16(s0.PSW, a, 1, result, 0)));
        self.write_src_to_dest_16(Operand::MEMORY, result);
    }

    fn incdec(&mut self, bus: &MemBus, op: Operand, mode: Mode, extra: u8, inc: bool)
        requires
            bus.wf(),
            old(self).wf(),
            op == Operand::REGISTER || op == Operand::MEMORY,
            op == Operand::REGISTER ==> old(self).current_op.len() >= 1,
            op == Operand::MEMORY ==> mode != Mode::M32 && old(self)@.operand_present(Operand::MEMORY, mode)
                && old(self)@.can_charge(extra),
        ensures
            final(self)@ == old(self)@.spec_incdec(bus@, op, mode, extra, inc),
            final(self).wf(),
    {
        let carry = self.PSW.contains(CpuStatus::CARRY);
        if op == Operand::REGISTER {
            self.incdec_reg(inc);
        } else if mode == Mode::M8 {
            self.incdec_rm8(bus, extra, inc);
        } else {
            if inc { self.inc_rm16(bus, extra) } else { self.dec_rm16(bus, extra) }
        }
        self.PSW.set(CpuStatus::CARRY, carry);
    }

    /// INC: increments a register or the mod/r/m operand; CY is kept.
    pub fn inc(&mut self, bus: &MemBus, op: Operand, mode: Mode, extra: u8)
        requires
            bus.wf(),
            old(self).wf(),
            op == Operand::REGISTER || op == Operand::MEMORY,
            op == Operand::REGISTER ==> old(self).current_op.len() >= 1,
            op == Operand::MEMORY ==> mode != Mode::M32 && old(self)@.operand_present(Operand::MEMORY, mode)
                && old(self)@.can_charge(extra),
        ensures
            final(self)@ == old(self)@.spec_incdec(bus@, op, mode, extra, true),
            final(self).wf(),
    {
        self.incdec(bus, op, mode, extra, true);
    }

    /// DEC: decrements a register or the mod/r/m operand; CY is kept.
    pub fn dec(&mut self, bus: &MemBus, op: Operand, mode: Mode, extra: u8)
        requires
            bus.wf(),
            old(self).wf(),
            op == Operand::REGISTER || op == Operand::MEMORY,
            op == Operand::REGISTER ==> old(self).current_op.len() >= 1,
            op == Operand::MEMORY ==> mode != Mode::M32 && old(self)@.operand_present(Operand::MEMORY, mode)
                && old(self)@.can_charge(extra),
        ensures
            final(self)@ == old(self)@.spec_incdec(bus@, op, mode, extra, false),
            final(self).wf(),
    {
        self.incdec(bus, op, mode, extra, false);
    }

    #[verifier::rlimit(80)]
    fn neg8(&mut self, bus: &MemBus, extra: u8)
        requires
            bus.wf(),
            old(self)@.rm_ok(extra),
        ensures
            final(self)@ == old(self)@.spec_neg(bus@, Mode::M8, extra),
            final(self).wf(),
    {
        let byte = self.current_op[1];
        let src = self.resolve_mem_src_8(bus, byte);
        self.charge_memory_operand(byte, extra);
        let res = 0u8.wrapping_sub(src);
        let mut psw = self.PSW;
        psw.set(CpuStatus::ZERO, res == 0);
        psw.set(CpuStatus::SIGN, res & 0x80 != 0);
        psw.set(CpuStatus::OVERFLOW, src == 0x80);
        psw.set(CpuStatus::CARRY, src != 0);
        psw.set(CpuStatus::PARITY, parity(res));
        psw.set(CpuStatus::AUX_CARRY, src & 0xF != 0);
        self.write_mem_operand_8(res);
        self.PSW = psw;
    }

    #[verifier::spinoff_prover]
    fn neg16(&mut self, bus: &MemBus, extra: u8)
        requires
            bus.wf(),
            old(self)@.rm_ok(extra),
        ensures
            final(self)@ == old(self)@.spec_neg(bus@, Mode::M16, extra),
            final(self).wf(),
    {
        let ghost s0 = self@;
        let byte = self.current_op[1];
        let src = self.resolve_mem_src_16(bus, byte);
        self.charge_memory_operand(byte, extra);
        let ghost c = s0.charge(s0.op(1), extra);
        assert(self@ == c && c.PSW == s0.PSW);
        let res = 0u16.wrapping_sub(src);
        assert(res == ((0x10000 - src) % 0x10000) as u16);
        let psw = neg_flags16(self.PSW, src, res);
        self.write_mem_operand_16(res);
        assert(self@ == c.with_rm16(s0.op(1), res));
        self.PSW = psw;
    }

    /// NEG: replaces the mod/r/m operand by its two's complement.
    pub fn neg(&mut self, bus: &MemBus, mode: Mode, extra: u8)
        requires
            bus.wf(),
            old(self)@.rm_ok(extra),
        ensures
            final(self)@ == old(self)@.spec_neg(bus@, mode, extra),
            final(self).wf(),
    {
        if mode == Mode::M8 {
            self.neg8(bus, extra);
        } else {
            self.neg16(bus, extra);
        }
    }

    fn set_mul_flags(&mut self, overflow: bool)
        ensures
            final(self)@ == old(self)@.with_psw(flags_mul(old(self).PSW, overflow)),
    {
        self.PSW.set(CpuStatus::OVERFLOW, overflow);
        self.PSW.set(CpuStatus::CARRY, overflow);
        self.PSW.insert(CpuStatus::ZERO);
        self.PSW.remove(CpuStatus::SIGN);
        self.PSW.remove(CpuStatus::PARITY);
        self.PSW.remove(CpuStatus::AUX_CARRY);
    }

    /// MUL: signed multiplication; with a third operand, of the mod/r/m word by an immediate into AW.
    pub fn mul(&mut self, bus: &MemBus, op3: Option<Operand>, mode: Mode, extra: u8)
        requires
            bus.wf(),
            old(self)@.rm_ok(extra),
            op3.is_some() ==> old(self).current_op.len() >= 3,
        ensures
            final(self)@ == old(self)@.spec_mul(bus@, op3, mode, extra),
            final(self).wf(),
    {
        let byte = self.current_op[1];
        match op3 {
            None => {
                if mode == Mode::M8 {
                    let factor = signed_8(self.resolve_mem_src_8(bus, byte));
                    self.charge_memory_operand(byte, extra);
                    let al = signed_8(u16_to_le(self.AW).0);
                    assert(-0x4000 <= al * factor <= 0x4000) by (nonlinear_arith)
                        requires -0x80 <= al <= 0x7F, -0x80 <= factor <= 0x7F;
                    let p = al * factor;
                    proof {
                        vstd::arithmetic::div_mod::lemma_mod_multiples_vanish(1, p as int, 0x10000);
                    }
                    let aw = (((p + 0x10000) as u64) % 0x10000) as u16;
                    self.AW = aw;
                    let overflow = (aw & 0x80 == 0 && aw >> 8 != 0) || (aw & 0x80 != 0 && aw >> 8 != 0xFF);
                    self.set_mul_flags(overflow);
                } else {
                    let f1 = signed_16(self.resolve_mem_src_16(bus, byte));
                    self.charge_memory_operand(byte, extra);
                    let f2 = signed_16(self.AW);
                    assert(-0x4000_0000 <= f1 * f2 <= 0x4000_0000) by (nonlinear_arith)
                        requires -0x8000 <= f1 <= 0x7FFF, -0x8000 <= f2 <= 0x7FFF;
                    let (aw, dw) = split_product(f1 * f2);
                    self.AW = aw;
                    self.DW = dw;
                    let overflow = (aw & 0x8000 == 0 && dw != 0) || (aw & 0x8000 != 0 && dw != 0xFFFF);
                    self.set_mul_flags(overflow);
                }
            }
            Some(o3) => {
                let f1 = signed_16(self.resolve_mem_src_16(bus, byte));
                self.charge_memory_operand(byte, extra);
                let f2 = if o3 == Operand::IMMEDIATE_S { signed_8(self.get_imm8()) } else { signed_16(self.get_imm16()) };
                assert(-0x4000_0000 <= f1 * f2 <= 0x4000_0000) by (nonlinear_arith)
                    requires -0x8000 <= f1 <= 0x7FFF, -0x8000 <= f2 <= 0x7FFF;
                let (aw, hi) = split_product(f1 * f2);
                self.AW = aw;
                let overflow = (aw & 0x8000 == 0 && hi != 0) || (aw & 0x8000 != 0 && hi != 0xFFFF);
                self.set_mul_flags(overflow);
            }
        }
    }

    /// MULU: unsigned multiplication of AL or AW by the mod/r/m operand.
    pub fn mulu(&mut self, bus: &MemBus, mode: Mode, extra: u8)
        requires
            bus.wf(),
            old(self)@.rm_ok(extra),
        ensures
            final(self)@ == old(self)@.spec_mulu(bus@, mode, extra),
            final(self).wf(),
    {
        let byte = self.current_op[1];
        if mode == Mode::M8 {
            let factor = self.resolve_mem_src_8(bus, byte) as u16;
            self.charge_memory_operand(byte, extra);
            let al = u16_to_le(self.AW).0 as u16;
            assert(al * factor <= 0xFE01) by (nonlinear_arith) requires al <= 0xFF, factor <= 0xFF;
            let result = al * factor;
            self.AW = result;
            self.set_mul_flags(result > 0xFF);
        } else {
            let src = self.resolve_mem_src_16(bus, byte) as u32;
            self.charge_memory_operand(byte, extra);
            let aw = self.AW as u32;
            assert(aw * src <= 0xFFFE_0001) by (nonlinear_arith) requires aw <= 0xFFFF, src <= 0xFFFF;
            let result = aw * src;
            self.AW = (result % 0x10000) as u16;
            self.DW = (result / 0x10000) as u16;
            self.set_mul_flags(result / 0x10000 != 0);
        }
    }

    fn set_div_flags(&mut self, q: i64)
        requires
            -0x8000 <= q <= 0x7FFF,
        ensures
            final(self)@ == old(self)@.with_psw(old(self).PSW.with(CpuStatus::AUX_CARRY, false)
                .with(CpuStatus::CARRY, false).with(CpuStatus::OVERFLOW, false).with(CpuStatus::ZERO, q == 0)
                .with(CpuStatus::PARITY, even_parity(wrap8(q as int))).with(CpuStatus::SIGN, q < 0)),
    {
        self.PSW.remove(CpuStatus::AUX_CARRY);
        self.PSW.remove(CpuStatus::CARRY);
        self.PSW.remove(CpuStatus::OVERFLOW);
        self.PSW.set(CpuStatus::ZERO, q == 0);
        let low = (((q + 0x10000) as u64) % 0x100) as u8;
        proof {
            vstd::arithmetic::div_mod::lemma_mod_multiples_vanish(0x100, q as int, 0x100);
        }
        self.PSW.set(CpuStatus::PARITY, parity(low));
        self.PSW.set(CpuStatus::SIGN, q < 0);
    }

    fn set_div_error_flags(&mut self, word_sized: bool)
        ensures
            final(self)@ == old(self)@.with_psw(flags_div_error(old(self).PSW, word_sized)),
    {
        if word_sized {
            self.PSW.remove(CpuStatus::CARRY);
            self.PSW.remove(CpuStatus::OVERFLOW);
        }
        self.PSW.remove(CpuStatus::AUX_CARRY);
        self.PSW.remove(CpuStatus::SIGN);
        self.PSW.remove(CpuStatus::PARITY);
    }

    /// DIV: signed division; a zero divisor or a quotient out of range raises exception 0.
    #[verifier::rlimit(60)]
    pub fn div(&mut self, bus: &MemBus, mode: Mode, extra: u8)
        requires
            bus.wf(),
            old(self)@.rm_ok(extra),
        ensures
            final(self)@ == old(self)@.spec_div(bus@, mode, extra),
            final(self).wf(),
    {
        let byte = self.current_op[1];
        if mode == Mode::M8 {
            let d = signed_8(self.resolve_mem_src_8(bus, byte));
            self.charge_memory_operand(byte, extra);
            let n = signed_16(self.AW);
            if d == 0 {
                self.set_div_error_flags(false);
                self.raise_exception(bus, 0);
                return;
            }
            let (q, r) = trunc_divrem(n, d);
            if q > 0x7F || q < -0x7F {
                self.set_div_error_flags(false);
                self.raise_exception(bus, 0);
                return;
            }
            assert(-0x80 <= r <= 0x7F) by {
                assert(abs(n as int) % abs(d as int) < abs(d as int));
            }
            self.set_div_flags(q);
            let qb = (((q + 0x100) as u64) % 0x100) as u8;
            let rb = (((r + 0x100) as u64) % 0x100) as u8;
            proof {
                vstd::arithmetic::div_mod::lemma_mod_multiples_vanish(1, q as int, 0x100);
                vstd::arithmetic::div_mod::lemma_mod_multiples_vanish(1, r as int, 0x100);
            }
            self.AW = swap_l(swap_h(self.AW, rb), qb);
        } else {
            let d = signed_16(self.resolve_mem_src_16(bus, byte));
            self.charge_memory_operand(byte, extra);
            let n = if self.DW < 0x8000 {
                self.DW as i64 * 0x10000 + self.AW as i64
            } else {
                self.DW as i64 * 0x10000 + self.AW as i64 - 0x1_0000_0000
            };
            if d == 0 {
                self.set_div_error_flags(true);
                self.raise_exception(bus, 0);
                return;
            }
            let (q, r) = trunc_divrem(n, d);
            if q > 0x7FFF || q < -0x7FFF {
                self.set_div_error_flags(true);
                self.raise_exception(bus, 0);
                return;
            }
            assert(-0x8000 <= r <= 0x7FFF) by {
                assert(abs(n as int) % abs(d as int) < abs(d as int));
            }
            self.set_div_flags(q);
            proof {
                vstd::arithmetic::div_mod::lemma_mod_multiples_vanish(1, q as int, 0x10000);
                vstd::arithmetic::div_mod::lemma_mod_multiples_vanish(1, r as int, 0x10000);
            }
            self.DW = (((r + 0x10000) as u64) % 0x10000) as u16;
            self.AW = (((q + 0x10000) as u64) % 0x10000) as u16;
        }
    }

    /// DIVU: unsigned division; a zero divisor or a byte quotient out of range raises exception 0.
    #[verifier::rlimit(60)]
    pub fn divu(&mut self, bus: &MemBus, mode: Mode, extra: u8)
        requires
            bus.wf(),
            old(self)@.rm_ok(extra),
        ensures
            final(self)@ == old(self)@.spec_divu(bus@, mode, extra),
            final(self).wf(),
    {
        let byte = self.current_op[1];
        if mode == Mode::M8 {
            let d = self.resolve_mem_src_8(bus, byte) as u16;
            self.charge_memory_operand(byte, extra);
            if d == 0 || self.AW / d > 0xFF {
                self.set_div_error_flags(false);
                self.raise_exception(bus, 0);
                return;
            }
            let q = self.AW / d;
            let r = self.AW % d;
            assert(r < 0x100) by { assert(self.AW % d < d); }
            self.PSW.remove(CpuStatus::AUX_CARRY);
            self.PSW.remove(CpuStatus::SIGN);
            self.PSW.remove(CpuStatus::PARITY);
            self.PSW.set(CpuStatus::ZERO, r == 0 && q % 2 == 1);
            self.AW = swap_l(swap_h(self.AW, r as u8), q as u8);
        } else {
            let d = self.resolve_mem_src_16(bus, byte);
            self.charge_memory_operand(byte, extra);
            if d == 0 {
                self.set_div_error_flags(true);
                self.raise_exception(bus, 0);
                return;
            }
            let q = self.AW / d;
            let r = self.AW % d;
            self.set_div_error_flags(true);
            self.PSW.set(CpuStatus::ZERO, r == 0 && q % 2 == 1);
            self.DW = r;
            self.AW = q;
        }
    }

    #[verifier::spinoff_prover]
    fn adj4(&mut self, add: bool)
        ensures
            final(self)@ == old(self)@.spec_adj4(add),
    {
        let al0 = u16_to_le(self.AW).0;
        let psw = self.PSW;
        let low = al0 & 0x0F > 0x09 || psw.contains(CpuStatus::AUX_CARRY);
        let al1 = if !low { al0 } else if add { ((al0 as u16 + 6) % 0x100) as u8 } else { ((al0 as u16 + 0x100 - 6) % 0x100) as u8 };
        let mut p = psw;
        if low {
            p.insert(CpuStatus::AUX_CARRY);
        }
        let high = al1 > 0x9F || psw.contains(CpuStatus::CARRY);
        let al2 = if !high { al1 } else if add { ((al1 as u16 + 0x60) % 0x100) as u8 } else { ((al1 as u16 + 0x100 - 0x60) % 0x100) as u8 };
        if high {
            p.insert(CpuStatus::CARRY);
        }
        let aw = swap_l(self.AW, al2);
        let p2 = szp_flags(p, al2);
        self.AW = aw;
        self.PSW = p2;
    }

    /// ADJ4A: decimal adjustment of AL after an addition.
    pub fn adj4a(&mut self)
        ensures
            final(self)@ == old(self)@.spec_adj4(true),
    {
        self.adj4(true);
    }

    /// ADJ4S: decimal adjustment of AL after a subtraction.
    pub fn adj4s(&mut self)
        ensures
            final(self)@ == old(self)@.spec_adj4(false),
    {
        self.adj4(false);
    }

    #[verifier::spinoff_prover]
    fn adjb(&mut self, add: bool)
        ensures
            final(self)@ == old(self)@.spec_adjb(add),
    {
        let al = u16_to_le(self.AW).0;
        let mut p = self.PSW;
        let aux = p.contains(CpuStatus::AUX_CARRY);
        let aw = if aux {
            let nal = if add { al.wrapping_add(6) & 0x0F } else { al.wrapping_sub(6) & 0x0F };
            let high = if add { self.AW.wrapping_add(0x100) } else { swap_h(self.AW, u16_to_le(self.AW).1.wrapping_sub(1)) };
            swap_l(high, nal)
        } else {
            swap_l(self.AW, al & 0x0F)
        };
        p.set(CpuStatus::AUX_CARRY, aux);
        p.set(CpuStatus::CARRY, aux);
        p.set(CpuStatus::SIGN, !aux);
        p.set(CpuStatus::ZERO, aux);
        p.remove(CpuStatus::OVERFLOW);
        p.insert(CpuStatus::PARITY);
        self.AW = aw;
        self.PSW = p;
    }

    /// ADJBA: unpacked decimal adjustment after an addition.
    pub fn adjba(&mut self)
        ensures
            final(self)@ == old(self)@.spec_adjb(true),
    {
        self.adjb(true);
    }

    /// ADJBS: unpacked decimal adjustment after a subtraction.
    pub fn adjbs(&mut self)
        ensures
            final(self)@ == old(self)@.spec_adjb(false),
    {
        self.adjb(false);
    }

    /// CVTBD: splits AL into decimal digits by the immediate base; a zero base raises exception 0.
    pub fn cvtbd(&mut self, bus: &MemBus)
        requires
            bus.wf(),
            old(self).wf(),
            old(self).current_op.len() >= 2,
        ensures
            final(self)@ == old(self)@.spec_cvtbd(bus@),
            final(self).wf(),
    {
        let src = self.current_op[1];
        if src == 0 {
            self.raise_exception(bus, 0);
            return;
        }
        let al0 = u16_to_le(self.AW).0;
        let al = al0 / src;
        let ah = al0 % src;
        self.PSW.set(CpuStatus::ZERO, al == 0);
        self.PSW.set(CpuStatus::SIGN, al & 0x80 != 0);
        self.PSW.set(CpuStatus::PARITY, parity(al));
        self.AW = swap_l(swap_h(self.AW, ah), al);
    }

    /// CVTDB: AL becomes AH times the immediate base plus AL, and AH is cleared.
    pub fn cvtdb(&mut self)
        requires
            old(self).current_op.len() >= 2,
        ensures
            final(self)@ == old(self)@.spec_cvtdb(),
    {
        let src = self.current_op[1] as u16;
        let (al, ah) = u16_to_le(self.AW);
        assert(ah as u16 * src <= 0xFE01) by (nonlinear_arith) requires ah <= 0xFF, src <= 0xFF;
        let mul = ah as u16 * src;
        let result = mul + al as u16;
        self.AW = u16_to_le(result).0 as u16;
        self.update_flags_add_8(al as u16, mul, result, 0);
    }
}

} // verus!
