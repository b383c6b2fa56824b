//! Logic, rotation and shift instructions of the V30MZ.
use vstd::prelude::*;
use crate::bits::lo8;
use crate::bus::mem_bus::{MemBus, MemView};
use crate::cpu::{Mode, Operand, parity, even_parity};
use crate::cpu::flags::CpuStatus;
use crate::cpu::v30mz::{V30MZ, CpuView};
use crate::cpu::v30mz::util::{flags_bitwise8, flags_bitwise16, spec_rot_src, sign_extend};

verus! {

/// The bitwise operations of the logic instructions.
#[derive(Clone, Copy, PartialEq, Eq, Structural, Debug)]
pub enum Logic {
    And,
    Or,
    Xor,
}

pub open spec fn logic8(k: Logic, a: u8, b: u8) -> u8 {
    match k { Logic::And => a & b, Logic::Or => a | b, Logic::Xor => a ^ b }
}

pub open spec fn logic16(k: Logic, a: u16, b: u16) -> u16 {
    match k { Logic::And => a & b, Logic::Or => a | b, Logic::Xor => a ^ b }
}

/// Left shift of a byte; counts of 8 and more shift every bit out.
pub open spec fn shl8(d: u8, n: u8) -> u8 {
    if n >= 8 { 0 } else { d << n }
}

pub open spec fn shl16(d: u16, n: u8) -> u16 {
    if n >= 16 { 0 } else { d << n }
}

/// Logical right shift of a byte; counts of 8 and more shift every bit out.
pub open spec fn shr8(d: u8, n: u8) -> u8 {
    if n >= 8 { 0 } else { d >> n }
}

pub open spec fn shr16(d: u16, n: u8) -> u16 {
    if n >= 16 { 0 } else { d >> n }
}

/// Arithmetic right shift of a byte: the sign bit is copied into the vacated bits.
pub open spec fn sar8(d: u8, n: u8) -> u8 {
    if d < 0x80 { shr8(d, n) } else { !shr8(!d, n) }
}

pub open spec fn sar16(d: u16, n: u8) -> u16 {
    if d < 0x8000 { shr16(d, n) } else { !shr16(!d, n) }
}

/// Rotation of a byte to the left.
pub open spec fn rotl8(d: u8, n: u8) -> u8 {
    let k = n % 8;
    if k == 0 { d } else { (d << k) | (d >> ((8 - k) as u8)) }
}

pub open spec fn rotl16(d: u16, n: u8) -> u16 {
    let k = n % 16;
    if k == 0 { d } else { (d << k) | (d >> ((16 - k) as u8)) }
}

/// Rotation of a byte to the right.
pub open spec fn rotr8(d: u8, n: u8) -> u8 {
    let k = n % 8;
    if k == 0 { d } else { (d >> k) | (d << ((8 - k) as u8)) }
}

pub open spec fn rotr16(d: u16, n: u8) -> u16 {
    let k = n % 16;
    if k == 0 { d } else { (d >> k) | (d << ((16 - k) as u8)) }
}

pub open spec fn bit(b: bool) -> u8 {
    if b { 1 } else { 0 }
}

/// `n` rotations of a byte to the left through the carry.
pub open spec fn rolc8(d: u8, cy: bool, n: nat) -> (u8, bool)
    decreases n,
{
    if n == 0 { (d, cy) } else { rolc8((d << 1u8) | bit(cy), d & 0x80 != 0, (n - 1) as nat) }
}

pub open spec fn rolc16(d: u16, cy: bool, n: nat) -> (u16, bool)
    decreases n,
{
    if n == 0 { (d, cy) } else { rolc16((d << 1u8) | bit(cy) as u16, d & 0x8000 != 0, (n - 1) as nat) }
}

/// `n` rotations of a byte to the right through the carry.
pub open spec fn rorc8(d: u8, cy: bool, n: nat) -> (u8, bool)
    decreases n,
{
    if n == 0 { (d, cy) } else { rorc8((bit(cy) << 7u8) | (d >> 1u8), d & 1 != 0, (n - 1) as nat) }
}

pub open spec fn rorc16(d: u16, cy: bool, n: nat) -> (u16, bool)
    decreases n,
{
    if n == 0 { (d, cy) } else { rorc16(((bit(cy) as u16) << 15u16) | (d >> 1u16), d & 1 != 0, (n - 1) as nat) }
}

/// The flags the right shifts leave. `prev` is the operand shifted by one place less
/// than `n`, so that its bit 0 is the last bit shifted out: CY when anything was shifted.
pub open spec fn flags_shr8(psw: CpuStatus, d: u8, r: u8, n: u8, prev: u8) -> CpuStatus {
    let p = psw.with(CpuStatus::ZERO, r == 0).with(CpuStatus::SIGN, r & 0x80 != 0)
        .with(CpuStatus::OVERFLOW, d & 0x80 != r & 0x80);
    let q = if n == 0 { p } else { p.with(CpuStatus::CARRY, prev & 1 != 0) };
    q.with(CpuStatus::PARITY, even_parity(r))
}

pub open spec fn flags_shr16(psw: CpuStatus, d: u16, r: u16, n: u8, prev: u16) -> CpuStatus {
    let p = psw.with(CpuStatus::ZERO, r == 0).with(CpuStatus::SIGN, r & 0x8000 != 0)
        .with(CpuStatus::OVERFLOW, d & 0x8000 != r & 0x8000);
    let q = if n == 0 { p } else { p.with(CpuStatus::CARRY, prev & 1 != 0) };
    q.with(CpuStatus::PARITY, even_parity(lo8(r)))
}

/// The bit SHL shifts out last: bit `8 - n` of the operand, none once `n` passes 8.
pub open spec fn shl_out8(d: u8, n: u8) -> bool {
    1 <= n <= 8 && (d >> ((8 - n) as u8)) & 1 != 0
}

pub open spec fn shl_out16(d: u16, n: u8) -> bool {
    1 <= n <= 16 && (d >> ((16 - n) as u16)) & 1 != 0
}

/// The flags SHL leaves: CY is the last bit shifted out, when anything was shifted.
pub open spec fn flags_shl8(psw: CpuStatus, d: u8, r: u8, n: u8) -> CpuStatus {
    let p = if n == 0 { psw } else { psw.with(CpuStatus::CARRY, shl_out8(d, n)) };
    p.with(CpuStatus::ZERO, r == 0).with(CpuStatus::SIGN, r & 0x80 != 0)
        .with(CpuStatus::OVERFLOW, (r >> 7u8) ^ bit(p.has(CpuStatus::CARRY)) != 0)
        .with(CpuStatus::PARITY, even_parity(r)).with(CpuStatus::AUX_CARRY, false)
}

pub open spec fn flags_shl16(psw: CpuStatus, d: u16, r: u16, n: u8) -> CpuStatus {
    let p = if n == 0 { psw } else { psw.with(CpuStatus::CARRY, shl_out16(d, n)) };
    p.with(CpuStatus::ZERO, r == 0).with(CpuStatus::SIGN, r & 0x8000 != 0)
        .with(CpuStatus::OVERFLOW, (r >> 15u16) ^ bit(p.has(CpuStatus::CARRY)) as u16 != 0)
        .with(CpuStatus::PARITY, even_parity(lo8(r))).with(CpuStatus::AUX_CARRY, false)
}

/// The flags ROL leaves: CY is the bit rotated into bit 0, when anything was rotated.
pub open spec fn flags_rol8(psw: CpuStatus, r: u8, n: u8) -> CpuStatus {
    let p = if n == 0 { psw } else { psw.with(CpuStatus::CARRY, r & 1 != 0) };
    p.with(CpuStatus::OVERFLOW, (r >> 7u8) ^ bit(p.has(CpuStatus::CARRY)) != 0)
}

pub open spec fn flags_rol16(psw: CpuStatus, r: u16, n: u8) -> CpuStatus {
    let p = if n == 0 { psw } else { psw.with(CpuStatus::CARRY, r & 1 != 0) };
    p.with(CpuStatus::OVERFLOW, (r >> 15u16) ^ bit(p.has(CpuStatus::CARRY)) as u16 != 0)
}

/// The flags ROR leaves: CY is the bit rotated into the top bit, when anything was rotated.
pub open spec fn flags_ror8(psw: CpuStatus, r: u8, n: u8) -> CpuStatus {
    let p = if n == 0 { psw } else { psw.with(CpuStatus::CARRY, r & 0x80 != 0) };
    p.with(CpuStatus::OVERFLOW, ((r >> 6u8) ^ (r >> 7u8)) & 1 != 0)
}

pub open spec fn flags_ror16(psw: CpuStatus, r: u16, n: u8) -> CpuStatus {
    let p = if n == 0 { psw } else { psw.with(CpuStatus::CARRY, r & 0x8000 != 0) };
    p.with(CpuStatus::OVERFLOW, ((r >> 14u16) ^ (r >> 15u16)) & 1 != 0)
}

/// The shift-group operations.
#[derive(Clone, Copy, PartialEq, Eq, Structural, Debug)]
pub enum Shift {
    Rol,
    Ror,
    Rolc,
    Rorc,
    Shl,
    Shr,
    Shra,
}

/// The result and flags of a byte shift-group operation.
pub open spec fn shift8(k: Shift, psw: CpuStatus, d: u8, n: u8) -> (u8, CpuStatus) {
    match k {
        Shift::Rol => (rotl8(d, n), flags_rol8(psw, rotl8(d, n), n)),
        Shift::Ror => (rotr8(d, n), flags_ror8(psw, rotr8(d, n), n)),
        Shift::Rolc => {
            let (r, cy) = rolc8(d, psw.has(CpuStatus::CARRY), n as nat);
            (r, psw.with(CpuStatus::CARRY, cy).with(CpuStatus::OVERFLOW, (r >> 7u8) & 1 != bit(cy)))
        }
        Shift::Rorc => {
            let (r, cy) = rorc8(d, psw.has(CpuStatus::CARRY), n as nat);
            (r, psw.with(CpuStatus::CARRY, cy).with(CpuStatus::OVERFLOW, ((r >> 6u8) ^ (r >> 7u8)) & 1 != 0))
        }
        Shift::Shl => (shl8(d, n), flags_shl8(psw, d, shl8(d, n), n)),
        Shift::Shr => (shr8(d, n), flags_shr8(psw, d, shr8(d, n), n, shr8(d, (n - 1) as u8))),
        Shift::Shra => (sar8(d, n), flags_shr8(psw, d, sar8(d, n), n, sar8(d, (n - 1) as u8))),
    }
}

/// The result and flags of a word shift-group operation.
pub open spec fn shift16(k: Shift, psw: CpuStatus, d: u16, n: u8) -> (u16, CpuStatus) {
    match k {
        Shift::Rol => (rotl16(d, n), flags_rol16(psw, rotl16(d, n), n)),
        Shift::Ror => (rotr16(d, n), flags_ror16(psw, rotr16(d, n), n)),
        Shift::Rolc => {
            let (r, cy) = rolc16(d, psw.has(CpuStatus::CARRY), n as nat);
            (r, psw.with(CpuStatus::CARRY, cy).with(CpuStatus::OVERFLOW, (r >> 15u16) & 1 != bit(cy) as u16))
        }
        Shift::Rorc => {
            let (r, cy) = rorc16(d, psw.has(CpuStatus::CARRY), n as nat);
            (r, psw.with(CpuStatus::CARRY, cy).with(CpuStatus::OVERFLOW, ((r >> 14u16) ^ (r >> 15u16)) & 1 != 0))
        }
        Shift::Shl => (shl16(d, n), flags_shl16(psw, d, shl16(d, n), n)),
        Shift::Shr => (shr16(d, n), flags_shr16(psw, d, shr16(d, n), n, shr16(d, (n - 1) as u8))),
        Shift::Shra => (sar16(d, n), flags_shr16(psw, d, sar16(d, n), n, sar16(d, (n - 1) as u8))),
    }
}

impl CpuView {
    /// AND, OR and XOR; TEST when `!store`.
    pub open spec fn spec_logic(self, m: MemView, op1: Operand, op2: Operand, mode: Mode, extra: u8, k: Logic, store: bool) -> CpuView {
        let c = self.charge_ops(op1, op2, extra);
        if mode == Mode::M8 {
            let r = logic8(k, self.src8(m, op1), self.alu_src8(m, op1, op2));
            let t = c.with_psw(flags_bitwise8(self.PSW, r));
            if store { t.dest8(op1, r) } else { t }
        } else {
            let r = logic16(k, self.src16(m, op1), self.alu_src16(m, op1, op2));
            let t = c.with_psw(flags_bitwise16(self.PSW, r));
            if store { t.dest16(op1, r) } else { t }
        }
    }

    /// NOT: the mod/r/m operand is complemented; the flags are kept.
    pub open spec fn spec_not(self, m: MemView, mode: Mode, extra: u8) -> CpuView {
        let c = self.charge(self.op(1), extra);
        if mode == Mode::M8 {
            c.with_rm8(self.op(1), !self.rm8(m, self.op(1)))
        } else {
            c.with_rm16(self.op(1), !self.rm16(m, self.op(1)))
        }
    }

    /// A shift-group operation on the mod/r/m operand, by the count `code` selects.
    pub open spec fn spec_shift(self, m: MemView, k: Shift, code: u8, mode: Mode, extra: u8) -> CpuView {
        let c = self.charge(self.op(1), extra);
        let n = spec_rot_src(self, code);
        if mode == Mode::M8 {
            let (r, psw) = shift8(k, self.PSW, self.rm8(m, self.op(1)), n);
            c.with_psw(psw).with_rm8(self.op(1), r)
        } else {
            let (r, psw) = shift16(k, self.PSW, self.rm16(m, self.op(1)), n);
            c.with_psw(psw).with_rm16(self.op(1), r)
        }
    }
}

fn do_shl8(d: u8, n: u8) -> (r: u8)
    ensures r == shl8(d, n),
{
    if n >= 8 { 0 } else { d << n }
}

fn do_shl16(d: u16, n: u8) -> (r: u16)
    ensures r == shl16(d, n),
{
    if n >= 16 { 0 } else { d << n }
}

fn do_shl_out8(d: u8, n: u8) -> (r: bool)
    ensures r == shl_out8(d, n),
{
    1 <= n && n <= 8 && (d >> (8 - n)) & 1 != 0
}

fn do_shl_out16(d: u16, n: u8) -> (r: bool)
    ensures r == shl_out16(d, n),
{
    1 <= n && n <= 16 && (d >> (16 - n) as u16) & 1 != 0
}

fn do_shr8(d: u8, n: u8) -> (r: u8)
    ensures r == shr8(d, n),
{
    if n >= 8 { 0 } else { d >> n }
}

fn do_shr16(d: u16, n: u8) -> (r: u16)
    ensures r == shr16(d, n),
{
    if n >= 16 { 0 } else { d >> n }
}

fn do_rotl8(d: u8, n: u8) -> (r: u8)
    ensures r == rotl8(d, n),
{
    let k = n % 8;
    if k == 0 { d } else { (d << k) | (d >> (8 - k)) }
}

fn do_rotl16(d: u16, n: u8) -> (r: u16)
    ensures r == rotl16(d, n),
{
    let k = n % 16;
    if k == 0 { d } else { (d << k) | (d >> (16 - k)) }
}

fn do_rotr8(d: u8, n: u8) -> (r: u8)
    ensures r == rotr8(d, n),
{
    let k = n % 8;
    if k == 0 { d } else { (d >> k) | (d << (8 - k)) }
}

fn do_rotr16(d: u16, n: u8) -> (r: u16)
    ensures r == rotr16(d, n),
{
    let k = n % 16;
    if k == 0 { d } else { (d >> k) | (d << (16 - k)) }
}

fn do_bit(b: bool) -> (r: u8)
    ensures r == bit(b),
{
    if b { 1 } else { 0 }
}

fn do_rolc8(d: u8, cy: bool, n: u8) -> (r: (u8, bool))
    ensures r == rolc8(d, cy, n as nat),
{
    let mut res = d;
    let mut c = cy;
    let mut i: u8 = 0;
    while i < n
        invariant
            i <= n,
            rolc8(res, c, (n - i) as nat) == rolc8(d, cy, n as nat),
        decreases n - i,
    {
        let old_carry = do_bit(c);
        c = res & 0x80 != 0;
        res = (res << 1) | old_carry;
        i = i + 1;
    }
    (res, c)
}

fn do_rolc16(d: u16, cy: bool, n: u8) -> (r: (u16, bool))
    ensures r == rolc16(d, cy, n as nat),
{
    let mut res = d;
    let mut c = cy;
    let mut i: u8 = 0;
    while i < n
        invariant
            i <= n,
            rolc16(res, c, (n - i) as nat) == rolc16(d, cy, n as nat),
        decreases n - i,
    {
        let old_carry = do_bit(c) as u16;
        c = res & 0x8000 != 0;
        res = (res << 1) | old_carry;
        i = i + 1;
    }
    (res, c)
}

fn do_rorc8(d: u8, cy: bool, n: u8) -> (r: (u8, bool))
    ensures r == rorc8(d, cy, n as nat),
{
    let mut res = d;
    let mut c = cy;
    let mut i: u8 = 0;
    while i < n
        invariant
            i <= n,
            rorc8(res, c, (n - i) as nat) == rorc8(d, cy, n as nat),
        decreases n - i,
    {
        let old_carry = do_bit(c);
        c = res & 1 != 0;
        res = (old_carry << 7) | (res >> 1);
        i = i + 1;
    }
    (res, c)
}

fn do_rorc16(d: u16, cy: bool, n: u8) -> (r: (u16, bool))
    ensures r == rorc16(d, cy, n as nat),
{
    let mut res = d;
    let mut c = cy;
    let mut i: u8 = 0;
    while i < n
        invariant
            i <= n,
            rorc16(res, c, (n - i) as nat) == rorc16(d, cy, n as nat),
        decreases n - i,
    {
        let old_carry = do_bit(c) as u16;
        c = res & 1 != 0;
        res = (old_carry << 15) | (res >> 1);
        i = i + 1;
    }
    (res, c)
}

/// The result and flags of a byte shift-group operation.
fn do_shift8(k: Shift, psw: CpuStatus, d: u8, n: u8) -> (r: (u8, CpuStatus))
    ensures r == shift8(k, psw, d, n),
{
    let mut p = psw;
    match k {
        Shift::Rol => {
            let r = do_rotl8(d, n);
            if n != 0 { p.set(CpuStatus::CARRY, r & 1 != 0); }
            let c = do_bit(p.contains(CpuStatus::CARRY));
            p.set(CpuStatus::OVERFLOW, (r >> 7) ^ c != 0);
            (r, p)
        }
        Shift::Ror => {
            let r = do_rotr8(d, n);
            if n != 0 { p.set(CpuStatus::CARRY, r & 0x80 != 0); }
            p.set(CpuStatus::OVERFLOW, ((r >> 6) ^ (r >> 7)) & 1 != 0);
            (r, p)
        }
        Shift::Rolc => {
            let (r, cy) = do_rolc8(d, p.contains(CpuStatus::CARRY), n);
            p.set(CpuStatus::CARRY, cy);
            p.set(CpuStatus::OVERFLOW, (r >> 7) & 1 != do_bit(cy));
            (r, p)
        }
        Shift::Rorc => {
            let (r, cy) = do_rorc8(d, p.contains(CpuStatus::CARRY), n);
            p.set(CpuStatus::CARRY, cy);
            p.set(CpuStatus::OVERFLOW, ((r >> 6) ^ (r >> 7)) & 1 != 0);
            (r, p)
        }
        Shift::Shl => {
            let r = do_shl8(d, n);
            if n != 0 { p.set(CpuStatus::CARRY, do_shl_out8(d, n)); }
            let c = do_bit(p.contains(CpuStatus::CARRY));
            p.set(CpuStatus::ZERO, r == 0);
            p.set(CpuStatus::SIGN, r & 0x80 != 0);
            p.set(CpuStatus::OVERFLOW, (r >> 7) ^ c != 0);
            p.set(CpuStatus::PARITY, parity(r));
            p.remove(CpuStatus::AUX_CARRY);
            (r, p)
        }
        _ => {
            let r = if k == Shift::Shr { do_shr8(d, n) } else if d < 0x80 { do_shr8(d, n) } else { !do_shr8(!d, n) };
            p.set(CpuStatus::ZERO, r == 0);
            p.set(CpuStatus::SIGN, r & 0x80 != 0);
            p.set(CpuStatus::OVERFLOW, d & 0x80 != r & 0x80);
            if n != 0 {
                let m = n - 1;
                let prev = if k == Shift::Shr { do_shr8(d, m) } else if d < 0x80 { do_shr8(d, m) } else { !do_shr8(!d, m) };
                p.set(CpuStatus::CARRY, prev & 1 != 0);
            }
            p.set(CpuStatus::PARITY, parity(r));
            (r, p)
        }
    }
}

/// The result and flags of a word shift-group operation.
fn do_shift16(k: Shift, psw: CpuStatus, d: u16, n: u8) -> (r: (u16, CpuStatus))
    ensures r == shift16(k, psw, d, n),
{
    let mut p = psw;
    match k {
        Shift::Rol => {
            let r = do_rotl16(d, n);
            if n != 0 { p.set(CpuStatus::CARRY, r & 1 != 0); }
            let c = do_bit(p.contains(CpuStatus::CARRY)) as u16;
            p.set(CpuStatus::OVERFLOW, (r >> 15) ^ c != 0);
            (r, p)
        }
        Shift::Ror => {
            let r = do_rotr16(d, n);
            if n != 0 { p.set(CpuStatus::CARRY, r & 0x8000 != 0); }
            p.set(CpuStatus::OVERFLOW, ((r >> 14) ^ (r >> 15)) & 1 != 0);
            (r, p)
        }
        Shift::Rolc => {
            let (r, cy) = do_rolc16(d, p.contains(CpuStatus::CARRY), n);
            p.set(CpuStatus::CARRY, cy);
            p.set(CpuStatus::OVERFLOW, (r >> 15) & 1 != do_bit(cy) as u16);
            (r, p)
        }
        Shift::Rorc => {
            let (r, cy) = do_rorc16(d, p.contains(CpuStatus::CARRY), n);
            p.set(CpuStatus::CARRY, cy);
            p.set(CpuStatus::OVERFLOW, ((r >> 14) ^ (r >> 15)) & 1 != 0);
            (r, p)
        }
        Shift::Shl => {
            let r = do_shl16(d, n);
            if n != 0 { p.set(CpuStatus::CARRY, do_shl_out16(d, n)); }
            let c = do_bit(p.contains(CpuStatus::CARRY)) as u16;
            p.set(CpuStatus::ZERO, r == 0);
            p.set(CpuStatus::SIGN, r & 0x8000 != 0);
            p.set(CpuStatus::OVERFLOW, (r >> 15) ^ c != 0);
            p.set(CpuStatus::PARITY, parity(crate::bits::u16_to_le(r).0));
            p.remove(CpuStatus::AUX_CARRY);
            (r, p)
        }
        _ => {
            let r = if k == Shift::Shr { do_shr16(d, n) } else if d < 0x8000 { do_shr16(d, n) } else { !do_shr16(!d, n) };
            p.set(CpuStatus::ZERO, r == 0);
            p.set(CpuStatus::SIGN, r & 0x8000 != 0);
            p.set(CpuStatus::OVERFLOW, d & 0x8000 != r & 0x8000);
            if n != 0 {
                let m = n - 1;
                let prev = if k == Shift::Shr { do_shr16(d, m) } else if d < 0x8000 { do_shr16(d, m) } else { !do_shr16(!d, m) };
                p.set(CpuStatus::CARRY, prev & 1 != 0);
            }
            p.set(CpuStatus::PARITY, parity(crate::bits::u16_to_le(r).0));
            (r, p)
        }
    }
}

fn do_logic8(k: Logic, a: u8, b: u8) -> (r: u8)
    ensures r == logic8(k, a, b),
{
    match k { Logic::And => a & b, Logic::Or => a | b, Logic::Xor => a ^ b }
}

fn do_logic16(k: Logic, a: u16, b: u16) -> (r: u16)
    ensures r == logic16(k, a, b),
{
    match k { Logic::And => a & b, Logic::Or => a | b, Logic::Xor => a ^ b }
}

impl V30MZ {
    fn logic_with(&mut self, bus: &MemBus, op1: Operand, op2: Operand, mode: Mode, extra: u8, k: Logic, store: bool)
        requires
            bus.wf(),
            old(self)@.alu_ok(op1, op2, mode, extra),
        ensures
            final(self)@ == old(self)@.spec_logic(bus@, op1, op2, mode, extra, k, store),
            final(self).wf(),
    {
        if mode == Mode::M8 {
            let a = self.resolve_src_8(bus, op1);
            let b = if op2 == Operand::IMMEDIATE && op1 == Operand::MEMORY { self.get_imm8() } else { self.resolve_src_8(bus, op2) };
            self.charge_operands(op1, op2, extra);
            let res = do_logic8(k, a, b);
            self.update_flags_bitwise_8(res);
            if store {
                self.write_src_to_dest_8(op1, res);
            }
        } else {
            let a = self.resolve_src_16(bus, op1);
            let b = if op2 == Operand::IMMEDIATE_S {
                sign_extend(self.get_imm8())
            } else if op2 == Operand::IMMEDIATE && op1 == Operand::MEMORY {
                self.get_imm16()
            } else {
                self.resolve_src_16(bus, op2)
            };
            self.charge_operands(op1, op2, extra);
            let res = do_logic16(k, a, b);
            self.update_flags_bitwise_16(res);
            if store {
                self.write_src_to_dest_16(op1, res);
            }
        }
    }

    /// AND: the destination becomes the bitwise and of both operands.
    pub fn and(&mut self, bus: &MemBus, op1: Operand, op2: Operand, mode: Mode, extra: u8)
        requires
            bus.wf(),
            old(self)@.alu_ok(op1, op2, mode, extra),
        ensures
            final(self)@ == old(self)@.spec_logic(bus@, op1, op2, mode, extra, Logic::And, true),
            final(self).wf(),
    {
        self.logic_with(bus, op1, op2, mode, extra, Logic::And, true);
    }

    /// OR: the destination becomes the bitwise or of both operands.
    pub fn or(&mut self, bus: &MemBus, op1: Operand, op2: Operand, mode: Mode, extra: u8)
        requires
            bus.wf(),
            old(self)@.alu_ok(op1, op2, mode, extra),
        ensures
            final(self)@ == old(self)@.spec_logic(bus@, op1, op2, mode, extra, Logic::Or, true),
            final(self).wf(),
    {
        self.logic_with(bus, op1, op2, mode, extra, Logic::Or, true);
    }

    /// XOR: the destination becomes the bitwise exclusive or of both operands.
    pub fn xor(&mut self, bus: &MemBus, op1: Operand, op2: Operand, mode: Mode, extra: u8)
        requires
            bus.wf(),
            old(self)@.alu_ok(op1, op2, mode, extra),
        ensures
            final(self)@ == old(self)@.spec_logic(bus@, op1, op2, mode, extra, Logic::Xor, true),
            final(self).wf(),
    {
        self.logic_with(bus, op1, op2, mode, extra, Logic::Xor, true);
    }

    /// TEST: sets the flags of AND without storing the result.
    pub fn test(&mut self, bus: &MemBus, op1: Operand, op2: Operand, mode: Mode, extra: u8)
        requires
            bus.wf(),
            old(self)@.alu_ok(op1, op2, mode, extra),
        ensures
            final(self)@ == old(self)@.spec_logic(bus@, op1, op2, mode, extra, Logic::And, false),
            final(self).wf(),
    {
        self.logic_with(bus, op1, op2, mode, extra, Logic::And, false);
    }

    /// NOT: complements the mod/r/m operand.
    pub fn not(&mut self, bus: &MemBus, mode: Mode, extra: u8)
        requires
            bus.wf(),
            old(self)@.rm_ok(extra),
        ensures
            final(self)@ == old(self)@.spec_not(bus@, mode, extra),
            final(self).wf(),
    {
        let byte = self.current_op[1];
        if mode == Mode::M8 {
            let src = self.resolve_mem_src_8(bus, byte);
            self.charge_memory_operand(byte, extra);
            self.write_mem_operand_8(!src);
        } else {
            let src = self.resolve_mem_src_16(bus, byte);
            self.charge_memory_operand(byte, extra);
            self.write_mem_operand_16(!src);
        }
    }

    /// A shift-group operation on the mod/r/m operand.
    pub fn shift(&mut self, bus: &MemBus, k: Shift, code: u8, mode: Mode, extra: u8)
        requires
            bus.wf(),
            old(self)@.rm_ok(extra),
        ensures
            final(self)@ == old(self)@.spec_shift(bus@, k, code, mode, extra),
            final(self).wf(),
    {
        let byte = self.current_op[1];
        let n = self.get_rot_src(code);
        if mode == Mode::M8 {
            let d = self.resolve_mem_src_8(bus, byte);
            self.charge_memory_operand(byte, extra);
            let (r, psw) = do_shift8(k, self.PSW, d, n);
            self.PSW = psw;
            self.write_mem_operand_8(r);
        } else {
            let d = self.resolve_mem_src_16(bus, byte);
            self.charge_memory_operand(byte, extra);
            let (r, psw) = do_shift16(k, self.PSW, d, n);
            self.PSW = psw;
            self.write_mem_operand_16(r);
        }
    }

    /// ROL: rotates the mod/r/m operand to the left.
    pub fn rol(&mut self, bus: &MemBus, code: u8, mode: Mode, extra: u8)
        requires bus.wf(), old(self)@.rm_ok(extra),
        ensures final(self)@ == old(self)@.spec_shift(bus@, Shift::Rol, code, mode, extra), final(self).wf(),
    {
        self.shift(bus, Shift::Rol, code, mode, extra);
    }

    /// ROR: rotates the mod/r/m operand to the right.
    pub fn ror(&mut self, bus: &MemBus, code: u8, mode: Mode, extra: u8)
        requires bus.wf(), old(self)@.rm_ok(extra),
        ensures final(self)@ == old(self)@.spec_shift(bus@, Shift::Ror, code, mode, extra), final(self).wf(),
    {
        self.shift(bus, Shift::Ror, code, mode, extra);
    }

    /// ROLC: rotates the mod/r/m operand to the left through the carry.
    pub fn rolc(&mut self, bus: &MemBus, code: u8, mode: Mode, extra: u8)
        requires bus.wf(), old(self)@.rm_ok(extra),
        ensures final(self)@ == old(self)@.spec_shift(bus@, Shift::Rolc, code, mode, extra), final(self).wf(),
    {
        self.shift(bus, Shift::Rolc, code, mode, extra);
    }

    /// RORC: rotates the mod/r/m operand to the right through the carry.
    pub fn rorc(&mut self, bus: &MemBus, code: u8, mode: Mode, extra: u8)
        requires bus.wf(), old(self)@.rm_ok(extra),
        ensures final(self)@ == old(self)@.spec_shift(bus@, Shift::Rorc, code, mode, extra), final(self).wf(),
    {
        self.shift(bus, Shift::Rorc, code, mode, extra);
    }

    /// SHL: shifts the mod/r/m operand to the left.
    pub fn shl(&mut self, bus: &MemBus, code: u8, mode: Mode, extra: u8)
        requires bus.wf(), old(self)@.rm_ok(extra),
        ensures final(self)@ == old(self)@.spec_shift(bus@, Shift::Shl, code, mode, extra), final(self).wf(),
    {
        self.shift(bus, Shift::Shl, code, mode, extra);
    }

    /// SHR: shifts the mod/r/m operand to the right.
    pub fn shr(&mut self, bus: &MemBus, code: u8, mode: Mode, extra: u8)
        requires bus.wf(), old(self)@.rm_ok(extra),
        ensures final(self)@ == old(self)@.spec_shift(bus@, Shift::Shr, code, mode, extra), final(self).wf(),
    {
        self.shift(bus, Shift::Shr, code, mode, extra);
    }

    /// SHRA: shifts the mod/r/m operand to the right, keeping its sign.
    pub fn shra(&mut self, bus: &MemBus, code: u8, mode: Mode, extra: u8)
        requires bus.wf(), old(self)@.rm_ok(extra),
        ensures final(self)@ == old(self)@.spec_shift(bus@, Shift::Shra, code, mode, extra), final(self).wf(),
    {
        self.shift(bus, Shift::Shra, code, mode, extra);
    }
}

} // verus!
