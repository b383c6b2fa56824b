//! What single instructions and operations compute, stated over their operands and results:
//! arithmetic, division, conditional branches after a compare, tile map elements and EEPROM
//! erasure.
use vstd::prelude::*;
use crate::bits::{word, lo8, hi8};
use crate::bus::mem_bus::MemView;
use crate::bus::eeprom::{EepromView, word_mask};
use crate::display::display_control::{screen_element_at, layer_pixel, Rgb};
use crate::display::screen::ScreenElement;
use crate::laws::{eeprom_command, wram_word, law_push_then_top};
use crate::cpu::v30mz::{spec_commit, add16};
use crate::cpu::v30mz::dispatch::spec_loop;
use crate::cpu::v30mz::bit_ops::{Shift, shift8};
use crate::cpu::{Mode, Operand, spec_swap_l, spec_swap_h};
use crate::cpu::flags::CpuStatus;
use crate::cpu::v30mz::{CpuView, is_reg_modrm, read_word};
use crate::cpu::v30mz::util::{flags_sub8, flags_sub16, flags_add8};
use crate::cpu::v30mz::dispatch::branch_taken;
use crate::cpu::flags::lemma_with_flag;
use crate::cpu::v30mz::alu_ops::{signed8, signed16, signed32, abs, tdiv, trem, wrap8, wrap16};

verus! {

/// Whether an operand is a register: the accumulator, the register field, or a mod/r/m byte that
/// names a register.
pub open spec fn register_operand(s: CpuView, op: Operand) -> bool {
    op == Operand::ACCUMULATOR || op == Operand::REGISTER || (op == Operand::MEMORY && is_reg_modrm(s.op(1)))
}

/// The carry an instruction adds in: CY when it uses the carry and CY is set.
pub open spec fn carry_bit(s: CpuView, use_carry: bool) -> int {
    if use_carry && s.PSW.has(CpuStatus::CARRY) { 1 } else { 0 }
}

/// The register fields of a mod/r/m byte name one of eight registers.
proof fn lemma_fields(x: u8)
    by (bit_vector)
    ensures
        x & 7 < 8,
        (x >> 3) & 7 < 8,
        (0xD0u8 & 0xFEu8) == 0xD0u8,
{
}

/// The flags are distinct single bits.
proof fn lemma_flag_masks()
    by (bit_vector)
    ensures
        (0x2u16 & 0x40u16) == 0,
        (0x2u16 & 0x80u16) == 0,
        (0x2u16 & 0x800u16) == 0,
        (0x2u16 & 0x1u16) == 0,
        (0x2u16 & 0x4u16) == 0,
        (0x2u16 & 0x10u16) == 0,
        (0x40u16 & 0x2u16) == 0,
        (0x40u16 & 0x80u16) == 0,
        (0x40u16 & 0x800u16) == 0,
        (0x40u16 & 0x1u16) == 0,
        (0x40u16 & 0x4u16) == 0,
        (0x40u16 & 0x10u16) == 0,
        (0x80u16 & 0x2u16) == 0,
        (0x80u16 & 0x40u16) == 0,
        (0x80u16 & 0x800u16) == 0,
        (0x80u16 & 0x1u16) == 0,
        (0x80u16 & 0x4u16) == 0,
        (0x80u16 & 0x10u16) == 0,
        (0x800u16 & 0x2u16) == 0,
        (0x800u16 & 0x40u16) == 0,
        (0x800u16 & 0x80u16) == 0,
        (0x800u16 & 0x1u16) == 0,
        (0x800u16 & 0x4u16) == 0,
        (0x800u16 & 0x10u16) == 0,
        (0x1u16 & 0x2u16) == 0,
        (0x1u16 & 0x40u16) == 0,
        (0x1u16 & 0x80u16) == 0,
        (0x1u16 & 0x800u16) == 0,
        (0x1u16 & 0x4u16) == 0,
        (0x1u16 & 0x10u16) == 0,
        (0x4u16 & 0x2u16) == 0,
        (0x4u16 & 0x40u16) == 0,
        (0x4u16 & 0x80u16) == 0,
        (0x4u16 & 0x800u16) == 0,
        (0x4u16 & 0x1u16) == 0,
        (0x4u16 & 0x10u16) == 0,
        (0x10u16 & 0x2u16) == 0,
        (0x10u16 & 0x40u16) == 0,
        (0x10u16 & 0x80u16) == 0,
        (0x10u16 & 0x800u16) == 0,
        (0x10u16 & 0x1u16) == 0,
        (0x10u16 & 0x4u16) == 0,
{
}

proof fn lemma_reg8_read_back(s: CpuView, i: u8, v: u8)
    requires
        i < 8,
    ensures
        s.set_reg8(i, v).reg8(i) == v,
{
}

proof fn lemma_reg16_read_back(s: CpuView, i: u8, v: u16)
    requires
        i < 8,
    ensures
        s.set_reg16(i, v).reg16(i) == v,
{
}

/// The byte a SUB or SUBC stores, from the destination `a`, the source `b` and the carry.
spec fn sub_result8(a: u8, b: u8, cy: int) -> u8 {
    ((a - b - cy + 0x200) % 0x100) as u8
}

proof fn lemma_sub_result8(a: u8, b: u8, cy: int)
    requires
        0 <= cy <= 1,
    ensures
        (sub_result8(a, b, cy) + b + cy) % 256 == a,
{
}

#[verifier::spinoff_prover]
proof fn lemma_sub_byte_reg_op(s: CpuView, m: MemView, op1: Operand, op2: Operand, extra: u8, use_carry: bool, i: u8)
    requires
        i < 8,
        op1 == Operand::ACCUMULATOR ==> i == 0,
        op1 == Operand::REGISTER ==> i == s.reg_field(),
        op1 == Operand::MEMORY ==> is_reg_modrm(s.op(1)) && i == s.op(1) & 7,
        op1 == Operand::ACCUMULATOR || op1 == Operand::REGISTER || op1 == Operand::MEMORY,
    ensures
        ({
            let a = s.reg8(i);
            let b = s.alu_src8(m, op1, op2);
            let cy = carry_bit(s, use_carry);
            &&& s.src8(m, op1) == a
            &&& s.spec_sub(m, op1, op2, Mode::M8, extra, use_carry, true).reg8(i) == sub_result8(a, b, cy)
            &&& s.spec_sub(m, op1, op2, Mode::M8, extra, use_carry, false).reg8(i) == a
        }),
{
    let v = sub_result8(s.reg8(i), s.alu_src8(m, op1, op2), carry_bit(s, use_carry));
    lemma_reg8_read_back(s, i, v);
}

#[verifier::spinoff_prover]
proof fn lemma_sub_byte_register(s: CpuView, m: MemView, op1: Operand, op2: Operand, extra: u8, use_carry: bool)
    requires
        register_operand(s, op1),
    ensures
        ({
            let a = s.src8(m, op1);
            let b = s.alu_src8(m, op1, op2);
            let cy = carry_bit(s, use_carry);
            &&& s.spec_sub(m, op1, op2, Mode::M8, extra, use_carry, true).src8(m, op1) == sub_result8(a, b, cy)
            &&& s.spec_sub(m, op1, op2, Mode::M8, extra, use_carry, false).src8(m, op1) == a
        }),
{
    let x = s.op(1);
    lemma_fields(x);
    let i: u8 = if op1 == Operand::ACCUMULATOR { 0 } else if op1 == Operand::REGISTER { s.reg_field() } else { x & 7 };
    lemma_sub_byte_reg_op(s, m, op1, op2, extra, use_carry, i);
}

#[verifier::spinoff_prover]
proof fn lemma_sub_byte_memory(s: CpuView, m: MemView, op2: Operand, extra: u8, use_carry: bool)
    requires
        !is_reg_modrm(s.op(1)),
    ensures
        ({
            let op1 = Operand::MEMORY;
            let r = s.spec_sub(m, op1, op2, Mode::M8, extra, use_carry, true);
            let v = sub_result8(s.src8(m, op1), s.alu_src8(m, op1, op2), carry_bit(s, use_carry));
            &&& r.mem_writes == s.mem_writes.push((s.rm_addr(s.op(1)), v))
            &&& s.spec_sub(m, op1, op2, Mode::M8, extra, use_carry, false).mem_writes == s.mem_writes
        }),
{
}

/// SUB and SUBC on bytes store the first operand minus the second and the carry, modulo 256: the
/// byte stored plus the source and the carry gives back the old destination. It is stored in a
/// register destination, or queued as one write to the address of a memory destination. CMP
/// computes the same and leaves the destination alone.
#[verifier::spinoff_prover]
pub proof fn law_sub_byte(s: CpuView, m: MemView, op1: Operand, op2: Operand, extra: u8, use_carry: bool)
    requires
        register_operand(s, op1) || op1 == Operand::MEMORY,
    ensures
        ({
            let a = s.src8(m, op1);
            let b = s.alu_src8(m, op1, op2);
            let cy = carry_bit(s, use_carry);
            let r = s.spec_sub(m, op1, op2, Mode::M8, extra, use_carry, true);
            let k = s.spec_sub(m, op1, op2, Mode::M8, extra, use_carry, false);
            &&& register_operand(s, op1) ==> (r.src8(m, op1) + b + cy) % 256 == a && k.src8(m, op1) == a
            &&& !register_operand(s, op1) ==> {
                &&& r.mem_writes.len() == s.mem_writes.len() + 1
                &&& r.mem_writes.last().0 == s.rm_addr(s.op(1))
                &&& (r.mem_writes.last().1 + b + cy) % 256 == a
                &&& k.mem_writes == s.mem_writes
            }
        }),
{
    lemma_sub_result8(s.src8(m, op1), s.alu_src8(m, op1, op2), carry_bit(s, use_carry));
    if register_operand(s, op1) {
        lemma_sub_byte_register(s, m, op1, op2, extra, use_carry);
    } else {
        lemma_sub_byte_memory(s, m, op2, extra, use_carry);
    }
}

#[verifier::spinoff_prover]
proof fn lemma_add_byte_reg_op(s: CpuView, m: MemView, op1: Operand, op2: Operand, extra: u8, use_carry: bool, i: u8)
    requires
        i < 8,
        op1 == Operand::ACCUMULATOR ==> i == 0,
        op1 == Operand::REGISTER ==> i == s.reg_field(),
        op1 == Operand::MEMORY ==> is_reg_modrm(s.op(1)) && i == s.op(1) & 7,
        op1 == Operand::ACCUMULATOR || op1 == Operand::REGISTER || op1 == Operand::MEMORY,
    ensures
        s.src8(m, op1) == s.reg8(i),
        s.spec_add(m, op1, op2, Mode::M8, extra, use_carry).reg8(i)
            == lo8((s.reg8(i) + s.alu_src8(m, op1, op2) + carry_bit(s, use_carry)) as u16),
{
    let v = lo8((s.reg8(i) + s.alu_src8(m, op1, op2) + carry_bit(s, use_carry)) as u16);
    lemma_reg8_read_back(s, i, v);
}

#[verifier::spinoff_prover]
proof fn lemma_add_byte_register(s: CpuView, m: MemView, op1: Operand, op2: Operand, extra: u8, use_carry: bool)
    requires
        register_operand(s, op1),
    ensures
        s.spec_add(m, op1, op2, Mode::M8, extra, use_carry).src8(m, op1)
            == lo8((s.src8(m, op1) + s.alu_src8(m, op1, op2) + carry_bit(s, use_carry)) as u16),
{
    let x = s.op(1);
    lemma_fields(x);
    let i: u8 = if op1 == Operand::ACCUMULATOR { 0 } else if op1 == Operand::REGISTER { s.reg_field() } else { x & 7 };
    lemma_add_byte_reg_op(s, m, op1, op2, extra, use_carry, i);
}

#[verifier::spinoff_prover]
proof fn lemma_add_byte_memory(s: CpuView, m: MemView, op2: Operand, extra: u8, use_carry: bool)
    requires
        !is_reg_modrm(s.op(1)),
    ensures
        s.spec_add(m, Operand::MEMORY, op2, Mode::M8, extra, use_carry).mem_writes == s.mem_writes.push((s.rm_addr(s.op(1)),
            lo8((s.src8(m, Operand::MEMORY) + s.alu_src8(m, Operand::MEMORY, op2) + carry_bit(s, use_carry)) as u16))),
{
}

/// ADD and ADDC on bytes store the sum of the two operands and the carry, modulo 256.
#[verifier::spinoff_prover]
pub proof fn law_add_byte(s: CpuView, m: MemView, op1: Operand, op2: Operand, extra: u8, use_carry: bool)
    requires
        register_operand(s, op1) || op1 == Operand::MEMORY,
    ensures
        ({
            let a = s.src8(m, op1);
            let b = s.alu_src8(m, op1, op2);
            let cy = carry_bit(s, use_carry);
            let r = s.spec_add(m, op1, op2, Mode::M8, extra, use_carry);
            &&& register_operand(s, op1) ==> r.src8(m, op1) == (a + b + cy) % 256
            &&& !register_operand(s, op1) ==> {
                &&& r.mem_writes.len() == s.mem_writes.len() + 1
                &&& r.mem_writes.last().0 == s.rm_addr(s.op(1))
                &&& r.mem_writes.last().1 == (a + b + cy) % 256
            }
        }),
{
    if register_operand(s, op1) {
        lemma_add_byte_register(s, m, op1, op2, extra, use_carry);
    } else {
        lemma_add_byte_memory(s, m, op2, extra, use_carry);
    }
}

/// The word a SUB or SUBC stores, from the destination `a`, the source `b` and the carry.
spec fn sub_result16(a: u16, b: u16, cy: int) -> u16 {
    ((a - b - cy + 0x20000) % 0x10000) as u16
}

proof fn lemma_word_bytes(v: u16)
    ensures
        word(lo8(v), hi8(v)) == v,
{
    assert(word(lo8(v), hi8(v)) == v) by (bit_vector);
}

#[verifier::spinoff_prover]
proof fn lemma_sub_word_reg_op(s: CpuView, m: MemView, op1: Operand, op2: Operand, extra: u8, use_carry: bool, i: u8)
    requires
        i < 8,
        op1 == Operand::ACCUMULATOR ==> i == 0,
        op1 == Operand::REGISTER ==> i == s.reg_field(),
        op1 == Operand::MEMORY ==> is_reg_modrm(s.op(1)) && i == s.op(1) & 7,
        op1 == Operand::ACCUMULATOR || op1 == Operand::REGISTER || op1 == Operand::MEMORY,
    ensures
        ({
            let a = s.reg16(i);
            let b = s.alu_src16(m, op1, op2);
            let cy = carry_bit(s, use_carry);
            &&& s.src16(m, op1) == a
            &&& s.spec_sub(m, op1, op2, Mode::M16, extra, use_carry, true).reg16(i) == sub_result16(a, b, cy)
            &&& s.spec_sub(m, op1, op2, Mode::M16, extra, use_carry, false).reg16(i) == a
        }),
{
}

#[verifier::spinoff_prover]
proof fn lemma_sub_word_register(s: CpuView, m: MemView, op1: Operand, op2: Operand, extra: u8, use_carry: bool)
    requires
        register_operand(s, op1),
    ensures
        ({
            let a = s.src16(m, op1);
            let b = s.alu_src16(m, op1, op2);
            let cy = carry_bit(s, use_carry);
            &&& s.spec_sub(m, op1, op2, Mode::M16, extra, use_carry, true).src16(m, op1) == sub_result16(a, b, cy)
            &&& s.spec_sub(m, op1, op2, Mode::M16, extra, use_carry, false).src16(m, op1) == a
        }),
{
    let x = s.op(1);
    lemma_fields(x);
    let i: u8 = if op1 == Operand::ACCUMULATOR { 0 } else if op1 == Operand::REGISTER { s.reg_field() } else { x & 7 };
    lemma_sub_word_reg_op(s, m, op1, op2, extra, use_carry, i);
}

#[verifier::spinoff_prover]
proof fn lemma_sub_word_memory(s: CpuView, m: MemView, op2: Operand, extra: u8, use_carry: bool)
    requires
        !is_reg_modrm(s.op(1)),
    ensures
        ({
            let op1 = Operand::MEMORY;
            let r = s.spec_sub(m, op1, op2, Mode::M16, extra, use_carry, true);
            let v = sub_result16(s.src16(m, op1), s.alu_src16(m, op1, op2), carry_bit(s, use_carry));
            let a = s.rm_addr(s.op(1));
            &&& r.mem_writes == s.mem_writes.push((a, lo8(v))).push((crate::cpu::v30mz::next_addr(a, 1), hi8(v)))
            &&& s.spec_sub(m, op1, op2, Mode::M16, extra, use_carry, false).mem_writes == s.mem_writes
        }),
{
}

proof fn lemma_sub_result16(a: u16, b: u16, cy: int)
    requires
        0 <= cy <= 1,
    ensures
        (sub_result16(a, b, cy) + b + cy) % 65536 == a,
{
}

/// SUB and SUBC on words store the first operand minus the second and the carry, modulo 65536:
/// the word stored plus the source and the carry gives back the old destination. A memory
/// destination gets it as two queued writes, low byte first. CMP leaves the destination alone.
#[verifier::spinoff_prover]
pub proof fn law_sub_word(s: CpuView, m: MemView, op1: Operand, op2: Operand, extra: u8, use_carry: bool)
    requires
        register_operand(s, op1) || op1 == Operand::MEMORY,
    ensures
        ({
            let a = s.src16(m, op1);
            let b = s.alu_src16(m, op1, op2);
            let cy = carry_bit(s, use_carry);
            let r = s.spec_sub(m, op1, op2, Mode::M16, extra, use_carry, true);
            let k = s.spec_sub(m, op1, op2, Mode::M16, extra, use_carry, false);
            let n = s.mem_writes.len();
            &&& register_operand(s, op1) ==> (r.src16(m, op1) + b + cy) % 65536 == a && k.src16(m, op1) == a
            &&& !register_operand(s, op1) ==> {
                &&& r.mem_writes.len() == n + 2
                &&& r.mem_writes[n as int].0 == s.rm_addr(s.op(1))
                &&& (word(r.mem_writes[n as int].1, r.mem_writes[n as int + 1].1) + b + cy) % 65536 == a
                &&& k.mem_writes == s.mem_writes
            }
        }),
{
    let a = s.src16(m, op1);
    let b = s.alu_src16(m, op1, op2);
    let cy = carry_bit(s, use_carry);
    lemma_sub_result16(a, b, cy);
    lemma_word_bytes(sub_result16(a, b, cy));
    if register_operand(s, op1) {
        lemma_sub_word_register(s, m, op1, op2, extra, use_carry);
    } else {
        lemma_sub_word_memory(s, m, op2, extra, use_carry);
    }
}

#[verifier::spinoff_prover]
proof fn lemma_add_word_reg_op(s: CpuView, m: MemView, op1: Operand, op2: Operand, extra: u8, use_carry: bool, i: u8)
    requires
        i < 8,
        op1 == Operand::ACCUMULATOR ==> i == 0,
        op1 == Operand::REGISTER ==> i == s.reg_field(),
        op1 == Operand::MEMORY ==> is_reg_modrm(s.op(1)) && i == s.op(1) & 7,
        op1 == Operand::ACCUMULATOR || op1 == Operand::REGISTER || op1 == Operand::MEMORY,
    ensures
        s.src16(m, op1) == s.reg16(i),
        s.spec_add(m, op1, op2, Mode::M16, extra, use_carry).reg16(i)
            == ((s.reg16(i) + s.alu_src16(m, op1, op2) + carry_bit(s, use_carry)) % 65536) as u16,
{
}

#[verifier::spinoff_prover]
proof fn lemma_add_word_register(s: CpuView, m: MemView, op1: Operand, op2: Operand, extra: u8, use_carry: bool)
    requires
        register_operand(s, op1),
    ensures
        s.spec_add(m, op1, op2, Mode::M16, extra, use_carry).src16(m, op1)
            == ((s.src16(m, op1) + s.alu_src16(m, op1, op2) + carry_bit(s, use_carry)) % 65536) as u16,
{
    let x = s.op(1);
    lemma_fields(x);
    let i: u8 = if op1 == Operand::ACCUMULATOR { 0 } else if op1 == Operand::REGISTER { s.reg_field() } else { x & 7 };
    lemma_add_word_reg_op(s, m, op1, op2, extra, use_carry, i);
}

#[verifier::spinoff_prover]
proof fn lemma_add_word_memory(s: CpuView, m: MemView, op2: Operand, extra: u8, use_carry: bool)
    requires
        !is_reg_modrm(s.op(1)),
    ensures
        ({
            let v = ((s.src16(m, Operand::MEMORY) + s.alu_src16(m, Operand::MEMORY, op2) + carry_bit(s, use_carry)) % 65536) as u16;
            let a = s.rm_addr(s.op(1));
            s.spec_add(m, Operand::MEMORY, op2, Mode::M16, extra, use_carry).mem_writes
                == s.mem_writes.push((a, lo8(v))).push((crate::cpu::v30mz::next_addr(a, 1), hi8(v)))
        }),
{
}

/// ADD and ADDC on words store the sum of the two operands and the carry, modulo 65536.
#[verifier::spinoff_prover]
pub proof fn law_add_word(s: CpuView, m: MemView, op1: Operand, op2: Operand, extra: u8, use_carry: bool)
    requires
        register_operand(s, op1) || op1 == Operand::MEMORY,
    ensures
        ({
            let a = s.src16(m, op1);
            let b = s.alu_src16(m, op1, op2);
            let cy = carry_bit(s, use_carry);
            let r = s.spec_add(m, op1, op2, Mode::M16, extra, use_carry);
            let n = s.mem_writes.len();
            &&& register_operand(s, op1) ==> r.src16(m, op1) == (a + b + cy) % 65536
            &&& !register_operand(s, op1) ==> {
                &&& r.mem_writes.len() == n + 2
                &&& r.mem_writes[n as int].0 == s.rm_addr(s.op(1))
                &&& word(r.mem_writes[n as int].1, r.mem_writes[n as int + 1].1) == (a + b + cy) % 65536
            }
        }),
{
    let v = ((s.src16(m, op1) + s.alu_src16(m, op1, op2) + carry_bit(s, use_carry)) % 65536) as u16;
    lemma_word_bytes(v);
    if register_operand(s, op1) {
        lemma_add_word_register(s, m, op1, op2, extra, use_carry);
    } else {
        lemma_add_word_memory(s, m, op2, extra, use_carry);
    }
}

/// DIVU: a word divisor `d` other than 0 divides AW, leaving the quotient in AW and the
/// remainder in DW: `AW * d + DW` gives back the old AW, and `DW < d`. A byte divisor divides AW
/// when the quotient fits in a byte, leaving the quotient in AL and the remainder in AH.
/// Otherwise exception 0 is raised: execution goes on at the vector read from address 0.
#[verifier::spinoff_prover]
pub proof fn law_divu(s: CpuView, m: MemView, extra: u8)
    ensures
        ({
            let d = s.rm16(m, s.op(1));
            let r = s.spec_divu(m, Mode::M16, extra);
            &&& d != 0 ==> r.AW * d + r.DW == s.AW && r.DW < d
            &&& d == 0 ==> r.PC == crate::cpu::v30mz::read_word(m, 0) && r.PS == crate::cpu::v30mz::read_word(m, 2)
        }),
        ({
            let d = s.rm8(m, s.op(1));
            let r = s.spec_divu(m, Mode::M8, extra);
            &&& d != 0 && s.AW < 256 * d ==> lo8(r.AW) * d + hi8(r.AW) == s.AW && hi8(r.AW) < d
            &&& d == 0 || s.AW >= 256 * d ==> r.PC == crate::cpu::v30mz::read_word(m, 0) && r.PS == crate::cpu::v30mz::read_word(m, 2)
        }),
{
    let n = s.AW as int;
    let d16 = s.rm16(m, s.op(1)) as int;
    if d16 != 0 {
        assert(n / d16 * d16 + n % d16 == n && 0 <= n % d16 < d16 && 0 <= n / d16 <= n) by (nonlinear_arith)
            requires d16 > 0, n >= 0;
    }
    let d8 = s.rm8(m, s.op(1)) as int;
    if d8 != 0 {
        assert(n / d8 * d8 + n % d8 == n && 0 <= n % d8 < d8 && 0 <= n / d8) by (nonlinear_arith)
            requires d8 > 0, n >= 0;
        assert(n < 256 * d8 <==> n / d8 <= 0xFF) by (nonlinear_arith)
            requires d8 > 0, n >= 0;
    }
}

/// MULU: AL times a byte gives AW; AW times a word gives DW:AW.
#[verifier::spinoff_prover]
pub proof fn law_mulu(s: CpuView, m: MemView, extra: u8)
    ensures
        s.spec_mulu(m, Mode::M8, extra).AW == lo8(s.AW) * s.rm8(m, s.op(1)),
        ({
            let r = s.spec_mulu(m, Mode::M16, extra);
            r.DW * 0x10000 + r.AW == s.AW * s.rm16(m, s.op(1))
        }),
{
    let a = lo8(s.AW) as int;
    let b = s.rm8(m, s.op(1)) as int;
    assert(0 <= a * b <= 0xFF * 0xFF) by (nonlinear_arith) requires 0 <= a <= 0xFF, 0 <= b <= 0xFF;
    let x = s.AW as int;
    let y = s.rm16(m, s.op(1)) as int;
    assert(0 <= x * y <= 0xFFFF * 0xFFFF) by (nonlinear_arith) requires 0 <= x <= 0xFFFF, 0 <= y <= 0xFFFF;
    let p = x * y;
    assert(p / 0x10000 * 0x10000 + p % 0x10000 == p && p / 0x10000 <= 0xFFFF) by (nonlinear_arith)
        requires 0 <= p <= 0xFFFF * 0xFFFF;
}

/// Division rounding toward zero: quotient times divisor plus remainder gives the dividend, the
/// remainder is smaller than the divisor and has the dividend's sign, and the quotient's size
/// stays below `k` exactly when the dividend's does below `k` times the divisor's.
proof fn lemma_tdiv(n: int, d: int, k: int)
    requires
        d != 0,
        k > 0,
    ensures
        tdiv(n, d) * d + trem(n, d) == n,
        abs(trem(n, d)) < abs(d),
        trem(n, d) == 0 || (trem(n, d) < 0) == (n < 0),
        (abs(tdiv(n, d)) < k) == (abs(n) < k * abs(d)),
{
    let a = abs(n);
    let b = abs(d);
    assert(a / b * b + a % b == a && 0 <= a % b < b && a / b >= 0) by (nonlinear_arith)
        requires a >= 0, b > 0;
    assert((a / b < k) == (a < k * b)) by (nonlinear_arith)
        requires a >= 0, b > 0, k > 0, a / b * b + a % b == a, 0 <= a % b < b;
    let q = a / b;
    if n < 0 && d < 0 {
        assert(q * d == -(q * b)) by (nonlinear_arith) requires d == -b;
    } else if n < 0 {
        assert(-q * d == -(q * b)) by (nonlinear_arith) requires d == b;
    } else if d < 0 {
        assert(-q * d == q * b) by (nonlinear_arith) requires d == -b;
    }
}

proof fn lemma_wrap8(x: int)
    requires
        -0x80 <= x < 0x80,
    ensures
        signed8(wrap8(x)) == x,
{
}

proof fn lemma_wrap16(x: int)
    requires
        -0x8000 <= x < 0x8000,
    ensures
        signed16(wrap16(x)) == x,
{
}

#[verifier::spinoff_prover]
proof fn lemma_div_word(s: CpuView, m: MemView, extra: u8)
    ensures
        ({
            let d = signed16(s.rm16(m, s.op(1)));
            let n = signed32(s.DW, s.AW);
            let r = s.spec_div(m, Mode::M16, extra);
            let q = signed16(r.AW);
            let rem = signed16(r.DW);
            &&& d != 0 && abs(n) < 0x8000 * abs(d) ==> q * d + rem == n && abs(rem) < abs(d) && (rem == 0 || (rem < 0) == (n < 0))
            &&& !(d != 0 && abs(n) < 0x8000 * abs(d)) ==> r.PC == read_word(m, 0) && r.PS == read_word(m, 2)
        }),
{
    let d16 = signed16(s.rm16(m, s.op(1)));
    let n32 = signed32(s.DW, s.AW);
    if d16 != 0 {
        lemma_tdiv(n32, d16, 0x8000);
        if abs(n32) < 0x8000 * abs(d16) {
            lemma_wrap16(tdiv(n32, d16));
            lemma_wrap16(trem(n32, d16));
        }
    }
}

proof fn lemma_swap_bytes(w: u16, h: u8, l: u8)
    ensures
        lo8(spec_swap_l(spec_swap_h(w, h), l)) == l,
        hi8(spec_swap_l(spec_swap_h(w, h), l)) == h,
{
}

#[verifier::spinoff_prover]
proof fn lemma_div_byte(s: CpuView, m: MemView, extra: u8)
    ensures
        ({
            let d = signed8(s.rm8(m, s.op(1)));
            let n = signed16(s.AW);
            let r = s.spec_div(m, Mode::M8, extra);
            let q = signed8(lo8(r.AW));
            let rem = signed8(hi8(r.AW));
            &&& d != 0 && abs(n) < 0x80 * abs(d) ==> q * d + rem == n && abs(rem) < abs(d) && (rem == 0 || (rem < 0) == (n < 0))
            &&& !(d != 0 && abs(n) < 0x80 * abs(d)) ==> r.PC == read_word(m, 0) && r.PS == read_word(m, 2)
        }),
{
    let d8 = signed8(s.rm8(m, s.op(1)));
    let n16 = signed16(s.AW);
    if d8 != 0 {
        lemma_tdiv(n16, d8, 0x80);
        if abs(n16) < 0x80 * abs(d8) {
            lemma_wrap8(tdiv(n16, d8));
            lemma_wrap8(trem(n16, d8));
            lemma_swap_bytes(s.AW, wrap8(trem(n16, d8)), wrap8(tdiv(n16, d8)));
        }
    }
}

/// DIV: signed division rounding toward zero. A word divisor `d` divides DW:AW `n` when the
/// quotient fits in a signed word, which is when `|n| < 0x8000 * |d|`: the quotient `q` lands in
/// AW and the remainder `r` in DW, with `q * d + r == n`, `|r| < |d|` and `r` of the sign of
/// `n`. A byte divisor divides AW into AL and AH in the same way. Otherwise exception 0 is
/// raised.
#[verifier::spinoff_prover]
pub proof fn law_div(s: CpuView, m: MemView, extra: u8)
    ensures
        ({
            let d = signed16(s.rm16(m, s.op(1)));
            let n = signed32(s.DW, s.AW);
            let r = s.spec_div(m, Mode::M16, extra);
            let q = signed16(r.AW);
            let rem = signed16(r.DW);
            &&& d != 0 && abs(n) < 0x8000 * abs(d) ==> q * d + rem == n && abs(rem) < abs(d) && (rem == 0 || (rem < 0) == (n < 0))
            &&& !(d != 0 && abs(n) < 0x8000 * abs(d)) ==> r.PC == read_word(m, 0) && r.PS == read_word(m, 2)
        }),
        ({
            let d = signed8(s.rm8(m, s.op(1)));
            let n = signed16(s.AW);
            let r = s.spec_div(m, Mode::M8, extra);
            let q = signed8(lo8(r.AW));
            let rem = signed8(hi8(r.AW));
            &&& d != 0 && abs(n) < 0x80 * abs(d) ==> q * d + rem == n && abs(rem) < abs(d) && (rem == 0 || (rem < 0) == (n < 0))
            &&& !(d != 0 && abs(n) < 0x80 * abs(d)) ==> r.PC == read_word(m, 0) && r.PS == read_word(m, 2)
        }),
{
    lemma_div_word(s, m, extra);
    lemma_div_byte(s, m, extra);
}

/// MUL: signed multiplication. AL times a byte gives AW, AW times a word gives DW:AW, as signed
/// numbers.
#[verifier::spinoff_prover]
pub proof fn law_mul(s: CpuView, m: MemView, extra: u8)
    ensures
        signed16(s.spec_mul(m, None, Mode::M8, extra).AW) == signed8(lo8(s.AW)) * signed8(s.rm8(m, s.op(1))),
        ({
            let r = s.spec_mul(m, None, Mode::M16, extra);
            signed32(r.DW, r.AW) == signed16(s.AW) * signed16(s.rm16(m, s.op(1)))
        }),
{
    let a = signed8(lo8(s.AW));
    let b = signed8(s.rm8(m, s.op(1)));
    assert(-0x4000 <= a * b <= 0x4000) by (nonlinear_arith) requires -0x80 <= a < 0x80, -0x80 <= b < 0x80;
    lemma_wrap16(a * b);
    let x = signed16(s.rm16(m, s.op(1)));
    let y = signed16(s.AW);
    assert(-0x4000_0000 <= x * y <= 0x4000_0000 && x * y == y * x) by (nonlinear_arith)
        requires -0x8000 <= x < 0x8000, -0x8000 <= y < 0x8000;
    let p = (x * y) % 0x1_0000_0000;
    assert(p / 0x10000 * 0x10000 + p % 0x10000 == p && 0 <= p / 0x10000 < 0x10000) by (nonlinear_arith)
        requires 0 <= p < 0x1_0000_0000;
}

/// The flags a compare of `a` with `b` leaves: ZF when they are equal, CY when `a < b`, and SF
/// differing from OV when `a < b` as signed numbers.
proof fn lemma_compare_flags8(psw: CpuStatus, a: u8, b: u8)
    ensures
        ({
            let p = flags_sub8(psw, a, b, ((a - b - 0 + 0x200) % 0x100) as u8, 0);
            &&& p.has(CpuStatus::ZERO) == (a == b)
            &&& p.has(CpuStatus::CARRY) == (a < b)
            &&& (p.has(CpuStatus::SIGN) != p.has(CpuStatus::OVERFLOW)) == (signed8(a) < signed8(b))
        }),
{
    reveal(flags_sub8);
    lemma_flag_masks();
    let r = ((a - b - 0 + 0x200) % 0x100) as u8;
    let p0 = psw;
    let v0 = r == 0;
    let p1 = p0.with(0x40, v0);
    let v1 = r & 0x80 != 0;
    let p2 = p1.with(0x80, v1);
    let v2 = a & 0x80 != b & 0x80 && a & 0x80 != r & 0x80;
    let p3 = p2.with(0x800, v2);
    let v3 = a < b || a < b + 0;
    let p4 = p3.with(0x1, v3);
    let v4 = crate::cpu::even_parity(r);
    let p5 = p4.with(0x4, v4);
    let v5 = a & 0x0F < b & 0x0F || (a & 0x0F) - (b & 0x0F) < 0;
    let p6 = p5.with(0x10, v5);
    assert(p6 == flags_sub8(psw, a, b, r, 0));
    lemma_with_flag(p0, 0x40, 0x2, v0);
    lemma_with_flag(p1, 0x80, 0x40, v1);
    lemma_with_flag(p2, 0x800, 0x40, v2);
    lemma_with_flag(p3, 0x1, 0x40, v3);
    lemma_with_flag(p4, 0x4, 0x40, v4);
    lemma_with_flag(p5, 0x10, 0x40, v5);
    lemma_with_flag(p1, 0x80, 0x2, v1);
    lemma_with_flag(p2, 0x800, 0x80, v2);
    lemma_with_flag(p3, 0x1, 0x80, v3);
    lemma_with_flag(p4, 0x4, 0x80, v4);
    lemma_with_flag(p5, 0x10, 0x80, v5);
    lemma_with_flag(p2, 0x800, 0x2, v2);
    lemma_with_flag(p3, 0x1, 0x800, v3);
    lemma_with_flag(p4, 0x4, 0x800, v4);
    lemma_with_flag(p5, 0x10, 0x800, v5);
    lemma_with_flag(p3, 0x1, 0x2, v3);
    lemma_with_flag(p4, 0x4, 0x1, v4);
    lemma_with_flag(p5, 0x10, 0x1, v5);
    assert((r & 0x80 != 0) == (r >= 0x80) && (a & 0x80 != 0) == (a >= 0x80) && (b & 0x80 != 0) == (b >= 0x80)
        && ((a & 0x80) != (b & 0x80)) == ((a >= 0x80) != (b >= 0x80))
        && ((a & 0x80) != (r & 0x80)) == ((a >= 0x80) != (r >= 0x80))) by (bit_vector);
    assert(p6.has(CpuStatus::ZERO) == v0 && p6.has(CpuStatus::SIGN) == v1 && p6.has(CpuStatus::OVERFLOW) == v2
        && p6.has(CpuStatus::CARRY) == v3);
    assert(v0 == (a == b));
    assert(v3 == (a < b));
    if a >= 0x80 {
        if b >= 0x80 { assert(v1 != v2 <==> a < b); } else { assert(v1 != v2); }
    } else {
        if b >= 0x80 { assert(v1 == v2); } else { assert(v1 != v2 <==> a < b); }
    }
}

/// The flags a compare of `a` with `b` leaves: ZF when they are equal, CY when `a < b`, and SF
/// differing from OV when `a < b` as signed numbers.
proof fn lemma_compare_flags16(psw: CpuStatus, a: u16, b: u16)
    ensures
        ({
            let p = flags_sub16(psw, a, b, ((a - b - 0 + 0x20000) % 0x10000) as u16, 0);
            &&& p.has(CpuStatus::ZERO) == (a == b)
            &&& p.has(CpuStatus::CARRY) == (a < b)
            &&& (p.has(CpuStatus::SIGN) != p.has(CpuStatus::OVERFLOW)) == (signed16(a) < signed16(b))
        }),
{
    reveal(flags_sub16);
    lemma_flag_masks();
    let r = ((a - b - 0 + 0x20000) % 0x10000) as u16;
    let p0 = psw;
    let v0 = r == 0;
    let p1 = p0.with(0x40, v0);
    let v1 = r & 0x8000 != 0;
    let p2 = p1.with(0x80, v1);
    let v2 = a & 0x8000 != b & 0x8000 && a & 0x8000 != r & 0x8000;
    let p3 = p2.with(0x800, v2);
    let v3 = a < b || a < b + 0;
    let p4 = p3.with(0x1, v3);
    let v4 = crate::cpu::even_parity(lo8(r));
    let p5 = p4.with(0x4, v4);
    let v5 = a & 0x0F < b & 0x0F || (a & 0x0F) - (b & 0x0F) < 0;
    let p6 = p5.with(0x10, v5);
    assert(p6 == flags_sub16(psw, a, b, r, 0));
    lemma_with_flag(p0, 0x40, 0x2, v0);
    lemma_with_flag(p1, 0x80, 0x40, v1);
    lemma_with_flag(p2, 0x800, 0x40, v2);
    lemma_with_flag(p3, 0x1, 0x40, v3);
    lemma_with_flag(p4, 0x4, 0x40, v4);
    lemma_with_flag(p5, 0x10, 0x40, v5);
    lemma_with_flag(p1, 0x80, 0x2, v1);
    lemma_with_flag(p2, 0x800, 0x80, v2);
    lemma_with_flag(p3, 0x1, 0x80, v3);
    lemma_with_flag(p4, 0x4, 0x80, v4);
    lemma_with_flag(p5, 0x10, 0x80, v5);
    lemma_with_flag(p2, 0x800, 0x2, v2);
    lemma_with_flag(p3, 0x1, 0x800, v3);
    lemma_with_flag(p4, 0x4, 0x800, v4);
    lemma_with_flag(p5, 0x10, 0x800, v5);
    lemma_with_flag(p3, 0x1, 0x2, v3);
    lemma_with_flag(p4, 0x4, 0x1, v4);
    lemma_with_flag(p5, 0x10, 0x1, v5);
    assert((r & 0x8000 != 0) == (r >= 0x8000) && (a & 0x8000 != 0) == (a >= 0x8000) && (b & 0x8000 != 0) == (b >= 0x8000)
        && ((a & 0x8000) != (b & 0x8000)) == ((a >= 0x8000) != (b >= 0x8000))
        && ((a & 0x8000) != (r & 0x8000)) == ((a >= 0x8000) != (r >= 0x8000))) by (bit_vector);
    assert(p6.has(CpuStatus::ZERO) == v0 && p6.has(CpuStatus::SIGN) == v1 && p6.has(CpuStatus::OVERFLOW) == v2
        && p6.has(CpuStatus::CARRY) == v3);
    assert(v0 == (a == b));
    assert(v3 == (a < b));
    if a >= 0x8000 {
        if b >= 0x8000 { assert(v1 != v2 <==> a < b); } else { assert(v1 != v2); }
    } else {
        if b >= 0x8000 { assert(v1 == v2); } else { assert(v1 != v2 <==> a < b); }
    }
}

/// A compare followed by a conditional branch: after CMP (or SUB) of a first operand `a` with a
/// second `b`, of bytes or of words, BE is taken exactly when `a == b`, BNE when not, BC (BL)
/// when `a < b`, BNC when `a >= b`, BNH when `a <= b`, BH when `a > b`, all unsigned, and BLT
/// when `a < b`, BGE when `a >= b`, BLE when `a <= b`, BGT when `a > b` as signed numbers.
#[verifier::spinoff_prover]
pub proof fn law_branch_after_compare(s: CpuView, m: MemView, op1: Operand, op2: Operand, mode: Mode, extra: u8)
    requires
        mode == Mode::M8 || mode == Mode::M16,
    ensures
        ({
            let t = s.spec_sub(m, op1, op2, mode, extra, false, false);
            let (a, b, sa, sb) = if mode == Mode::M8 {
                let (x, y) = (s.src8(m, op1), s.alu_src8(m, op1, op2));
                (x as int, y as int, signed8(x), signed8(y))
            } else {
                let (x, y) = (s.src16(m, op1), s.alu_src16(m, op1, op2));
                (x as int, y as int, signed16(x), signed16(y))
            };
            &&& branch_taken(t, 0x74) == (a == b)
            &&& branch_taken(t, 0x75) == (a != b)
            &&& branch_taken(t, 0x72) == (a < b)
            &&& branch_taken(t, 0x73) == (a >= b)
            &&& branch_taken(t, 0x76) == (a <= b)
            &&& branch_taken(t, 0x77) == (a > b)
            &&& branch_taken(t, 0x7C) == (sa < sb)
            &&& branch_taken(t, 0x7D) == (sa >= sb)
            &&& branch_taken(t, 0x7E) == (sa <= sb)
            &&& branch_taken(t, 0x7F) == (sa > sb)
        }),
{
    if mode == Mode::M8 {
        lemma_compare_flags8(s.PSW, s.src8(m, op1), s.alu_src8(m, op1, op2));
    } else {
        lemma_compare_flags16(s.PSW, s.src16(m, op1), s.alu_src16(m, op1, op2));
    }
    assert((0x74u8 & 0x0F) == 4 && (0x75u8 & 0x0F) == 5 && (0x72u8 & 0x0F) == 2 && (0x73u8 & 0x0F) == 3
        && (0x76u8 & 0x0F) == 6 && (0x77u8 & 0x0F) == 7 && (0x7Cu8 & 0x0F) == 12 && (0x7Du8 & 0x0F) == 13
        && (0x7Eu8 & 0x0F) == 14 && (0x7Fu8 & 0x0F) == 15) by (bit_vector);
}

/// A tile map element is read from the word at its address: bit 15 mirrors the tile top to
/// bottom, bit 14 left to right, bits 9-12 choose the palette, and bits 0-8 the tile, with bit 13
/// as the tile's bit 9 on color models.
pub proof fn law_screen_element(m: MemView, addr: u16, color: bool)
    ensures
        ({
            let w = m.read16(addr as u32);
            let e = screen_element_at(m, addr, color);
            &&& e.vm == (w >= 0x8000)
            &&& e.hm == (w % 0x8000 >= 0x4000)
            &&& e.palette == (w / 0x200) % 0x10
            &&& e.tile_idx == (if color { w % 0x200 + (w / 0x2000) % 2 * 0x200 } else { (w % 0x200) as int })
        }),
{
    let w = m.read16(addr as u32);
    assert({
        &&& ((w & 0x8000) != 0) == (w >= 0x8000)
        &&& ((w & 0x4000) != 0) == (w % 0x8000 >= 0x4000)
        &&& ((w >> 9u16) & 0x0F) == (w / 0x200) % 0x10
        &&& (w & 0x01FF) == w % 0x200
        &&& ((w & 0x01FF) | ((w & 0x2000) >> 4u16)) == w % 0x200 + (w / 0x2000) % 2 * 0x200
    }) by (bit_vector);
}

/// With writing enabled, an ERASE command sets both bytes of a word within the contents to 0xFF
/// and leaves every other byte alone, so that a READ command of the word then gives 0xFFFF.
pub proof fn law_eeprom_erase_read(e: EepromView, w: u16)
    requires
        e.wf(),
        e.write_enabled,
        w <= word_mask(e.address_bits),
        w * 2 + 1 < e.contents.len(),
    ensures
        ({
            let e1 = e.after_comm(eeprom_command(e.address_bits, 3, w));
            &&& e1.contents.len() == e.contents.len()
            &&& e1.contents[w * 2] == 0xFF && e1.contents[w * 2 + 1] == 0xFF
            &&& forall|i: int| 0 <= i < e.contents.len() && i != w * 2 && i != w * 2 + 1
                    ==> #[trigger] e1.contents[i] == e.contents[i]
            &&& e1.after_comm(eeprom_command(e.address_bits, 2, w)).output == 0xFFFF
        }),
{
    let ab = e.address_bits as u16;
    let ec = eeprom_command(e.address_bits, 3, w);
    let rc = eeprom_command(e.address_bits, 2, w);
    let m = word_mask(e.address_bits);
    assert(m == ((1u16 << ab) - 1) as u16);
    assert({
        &&& ec >> ((ab + 3) as u16) == 0
        &&& (ec >> ((ab + 2) as u16)) & 1 == 1
        &&& (ec >> ab) & 3 == 3
        &&& ec & m == w
    }) by (bit_vector)
        requires
            2 <= ab <= 12,
            m == ((1u16 << ab) - 1) as u16,
            w <= m,
            ec == ((1u16 << ((ab + 2) as u16)) | (3u16 << ab) | w) as u16,
    ;
    assert({
        &&& rc >> ((ab + 3) as u16) == 0
        &&& (rc >> ((ab + 2) as u16)) & 1 == 1
        &&& (rc >> ab) & 3 == 2
        &&& rc & m == w
    }) by (bit_vector)
        requires
            2 <= ab <= 12,
            m == ((1u16 << ab) - 1) as u16,
            w <= m,
            rc == ((1u16 << ((ab + 2) as u16)) | (2u16 << ab) | w) as u16,
    ;
    assert(word(0xFF, 0xFF) == 0xFFFF);
}

/// Where a short branch goes: the next instruction's address plus the signed displacement byte,
/// within the code segment.
pub open spec fn short_target(d: CpuView) -> int {
    (d.PC + d.pc_displacement + signed8(d.op(1))) % 0x10000
}

/// A conditional branch whose condition holds jumps by its signed displacement from the next
/// instruction; one whose condition fails leaves PC alone.
pub proof fn law_short_branch(d: CpuView, cond: bool)
    ensures
        cond ==> d.branched(cond).PC == short_target(d) && d.branched(cond).pc_displacement == 0,
        !cond ==> d.branched(cond) == d,
{
}

/// The loops on CW: LOOP counts CW down and branches while it has not reached 0, LOOPE (0xE1)
/// only while ZF is also set, LOOPNE (0xE0) only while it is clear; BCWZ (0xE3) branches when CW
/// is 0 and leaves it alone.
pub proof fn law_loop(d: CpuView)
    ensures
        forall|c: u8| 0xE0 <= c <= 0xE2 ==> #[trigger] spec_loop(d, c).CW == (d.CW + 0xFFFF) % 0x10000,
        ({
            let r = spec_loop(d, 0xE2);
            &&& d.CW != 1 ==> r.PC == short_target(d) && r.pc_displacement == 0
            &&& d.CW == 1 ==> r.PC == d.PC && r.pc_displacement == d.pc_displacement
        }),
        ({
            let r = spec_loop(d, 0xE1);
            &&& d.CW != 1 && d.PSW.has(CpuStatus::ZERO) ==> r.PC == short_target(d) && r.pc_displacement == 0
            &&& !(d.CW != 1 && d.PSW.has(CpuStatus::ZERO)) ==> r.PC == d.PC && r.pc_displacement == d.pc_displacement
        }),
        ({
            let r = spec_loop(d, 0xE0);
            &&& d.CW != 1 && !d.PSW.has(CpuStatus::ZERO) ==> r.PC == short_target(d) && r.pc_displacement == 0
            &&& !(d.CW != 1 && !d.PSW.has(CpuStatus::ZERO)) ==> r.PC == d.PC && r.pc_displacement == d.pc_displacement
        }),
        ({
            let r = spec_loop(d, 0xE3);
            &&& r.CW == d.CW
            &&& d.CW == 0 ==> r.PC == short_target(d) && r.pc_displacement == 0
            &&& d.CW != 0 ==> r.PC == d.PC && r.pc_displacement == d.pc_displacement
        }),
{
}

#[verifier::spinoff_prover]
proof fn lemma_neg_byte(s: CpuView, m: MemView, extra: u8)
    ensures
        ({
            let x = s.op(1);
            let a = s.rm8(m, x);
            let r = s.spec_neg(m, Mode::M8, extra);
            let v = ((0x100 - a) % 0x100) as u8;
            &&& is_reg_modrm(x) ==> r.rm8(m, x) == v
            &&& !is_reg_modrm(x) ==> r.mem_writes == s.mem_writes.push((s.rm_addr(x), v))
        }),
{
    let x = s.op(1);
    lemma_fields(x);
    let v = ((0x100 - s.rm8(m, x)) % 0x100) as u8;
    lemma_reg8_read_back(s.charge(x, extra), x & 7, v);
}

#[verifier::spinoff_prover]
proof fn lemma_neg_word(s: CpuView, m: MemView, extra: u8)
    ensures
        ({
            let x = s.op(1);
            let a = s.rm16(m, x);
            let r = s.spec_neg(m, Mode::M16, extra);
            let v = ((0x10000 - a) % 0x10000) as u16;
            let ad = s.rm_addr(x);
            &&& is_reg_modrm(x) ==> r.rm16(m, x) == v
            &&& !is_reg_modrm(x) ==> r.mem_writes == s.mem_writes.push((ad, lo8(v))).push((crate::cpu::v30mz::next_addr(ad, 1), hi8(v)))
        }),
{
    let x = s.op(1);
    lemma_fields(x);
}

/// NEG: the byte or word stored plus the old operand gives 0, modulo 256 or 65536. A register
/// operand holds it afterwards; a memory operand gets it as queued writes to its address.
#[verifier::spinoff_prover]
pub proof fn law_neg(s: CpuView, m: MemView, extra: u8)
    ensures
        ({
            let x = s.op(1);
            let a = s.rm8(m, x);
            let r = s.spec_neg(m, Mode::M8, extra);
            &&& is_reg_modrm(x) ==> (r.rm8(m, x) + a) % 256 == 0
            &&& !is_reg_modrm(x) ==> r.mem_writes.len() == s.mem_writes.len() + 1
                && r.mem_writes.last().0 == s.rm_addr(x) && (r.mem_writes.last().1 + a) % 256 == 0
        }),
        ({
            let x = s.op(1);
            let a = s.rm16(m, x);
            let r = s.spec_neg(m, Mode::M16, extra);
            let n = s.mem_writes.len();
            &&& is_reg_modrm(x) ==> (r.rm16(m, x) + a) % 65536 == 0
            &&& !is_reg_modrm(x) ==> r.mem_writes.len() == n + 2 && r.mem_writes[n as int].0 == s.rm_addr(x)
                && (word(r.mem_writes[n as int].1, r.mem_writes[n as int + 1].1) + a) % 65536 == 0
        }),
{
    lemma_neg_byte(s, m, extra);
    lemma_neg_word(s, m, extra);
    lemma_word_bytes(((0x10000 - s.rm16(m, s.op(1))) % 0x10000) as u16);
}

/// INC and DEC of a word register add or subtract 1, modulo 65536, and keep CY.
#[verifier::spinoff_prover]
pub proof fn law_incdec_register(s: CpuView, m: MemView, extra: u8)
    ensures
        ({
            let i = s.op(0) & 7;
            let r = s.spec_incdec(m, Operand::REGISTER, Mode::M16, extra, true);
            &&& r.reg16(i) == (s.reg16(i) + 1) % 65536
            &&& r.PSW.has(CpuStatus::CARRY) == s.PSW.has(CpuStatus::CARRY)
        }),
        ({
            let i = s.op(0) & 7;
            let r = s.spec_incdec(m, Operand::REGISTER, Mode::M16, extra, false);
            &&& r.reg16(i) == (s.reg16(i) + 0xFFFF) % 65536
            &&& r.PSW.has(CpuStatus::CARRY) == s.PSW.has(CpuStatus::CARRY)
        }),
{
    let x0 = s.op(0);
    lemma_fields(x0);
    lemma_flag_masks();
    let p = s.spec_incdec_reg(true).PSW;
    let q = s.spec_incdec_reg(false).PSW;
    lemma_with_flag(p, 0x1, 0x40, s.PSW.has(CpuStatus::CARRY));
    lemma_with_flag(q, 0x1, 0x40, s.PSW.has(CpuStatus::CARRY));
}

/// INC and DEC of a byte operand add or subtract 1, modulo 256, and keep CY.
#[verifier::spinoff_prover]
#[verifier::rlimit(60)]
pub proof fn law_incdec_byte(s: CpuView, m: MemView, extra: u8, inc: bool)
    ensures
        ({
            let x = s.op(1);
            let a = s.rm8(m, x);
            let r = s.spec_incdec(m, Operand::MEMORY, Mode::M8, extra, inc);
            let v = if inc { (a + 1) % 256 } else { (a + 0xFF) % 256 };
            &&& is_reg_modrm(x) ==> r.rm8(m, x) == v
            &&& !is_reg_modrm(x) ==> r.mem_writes.len() == s.mem_writes.len() + 1
                && r.mem_writes.last().0 == s.rm_addr(x) && r.mem_writes.last().1 == v
            &&& r.PSW.has(CpuStatus::CARRY) == s.PSW.has(CpuStatus::CARRY)
        }),
{
    let x = s.op(1);
    lemma_fields(x);
    lemma_flag_masks();
    let a = s.rm8(m, x);
    let v: u8 = if inc { lo8((a + 1) as u16) } else { ((a - 1 + 0x100) % 0x100) as u8 };
    let c = s.charge(x, extra);
    let t = s.spec_incdec_rm8(m, extra, inc);
    lemma_reg8_read_back(c.with_psw(t.PSW), x & 7, v);
    lemma_with_flag(t.PSW, 0x1, 0x40, s.PSW.has(CpuStatus::CARRY));
}

/// A near CALL followed by RETN, once the pushed return address has reached a stack in WRAM,
/// comes back to the instruction after the CALL with SP where it was.
#[verifier::spinoff_prover]
#[verifier::rlimit(60)]
pub proof fn law_return_after_call(s: CpuView, m: MemView, op: Operand, extra: u8)
    requires
        m.wf(),
        ({
            let c = s.spec_call(m, op, Mode::M16, extra);
            &&& wram_word(m, c.stack_addr())
            &&& wram_word(spec_commit(c, m).1, c.stack_addr())
        }),
    ensures
        ({
            let (c1, m1) = spec_commit(s.spec_call(m, op, Mode::M16, extra), m);
            let r = c1.spec_retn(m1, Operand::NONE);
            &&& r.PC == add16(s.PC, s.current_op.len() as u16)
            &&& r.SP == s.SP
        }),
{
    let b = s.spec_branch_op(m, op, Mode::M16, extra);
    let v = add16(s.PC, s.current_op.len() as u16);
    let c = s.spec_call(m, op, Mode::M16, extra);
    assert(c == b.pushed(v));
    assert(b.SP == s.SP);
    law_push_then_top(b, m, v);
    let (c1, m1) = spec_commit(c, m);
    assert(c1.top(m1) == v);
    assert(c1.SP == c.SP);
    assert(add16(add16(c.SP, 2), 0) == s.SP);
}

/// The command word of an EEPROM operation on the whole EEPROM: start bit, opcode 0, then the
/// two bits of the operation, EWDS 0, WRAL 1, ERAL 2, EWEN 3.
pub open spec fn eeprom_all_command(address_bits: u8, sub_op: u16) -> u16 {
    ((1u16 << ((address_bits + 2) as u16)) | (sub_op << ((address_bits - 2) as u16))) as u16
}

/// The EEPROM operations on the whole EEPROM: EWDS disables writing and EWEN enables it, both
/// leaving the contents alone; with writing enabled, ERAL sets every byte to 0xFF and WRAL every
/// word to the data register, and neither changes the size.
pub proof fn law_eeprom_whole(e: EepromView)
    requires
        e.wf(),
    ensures
        ({
            let e1 = e.after_comm(eeprom_all_command(e.address_bits, 0));
            !e1.write_enabled && e1.contents == e.contents
        }),
        ({
            let e1 = e.after_comm(eeprom_all_command(e.address_bits, 3));
            e1.write_enabled && e1.contents == e.contents
        }),
        e.write_enabled ==> ({
            let e1 = e.after_comm(eeprom_all_command(e.address_bits, 2));
            &&& e1.contents.len() == e.contents.len()
            &&& forall|i: int| 0 <= i < e.contents.len() ==> #[trigger] e1.contents[i] == 0xFF
        }),
        e.write_enabled ==> ({
            let e1 = e.after_comm(eeprom_all_command(e.address_bits, 1));
            &&& e1.contents.len() == e.contents.len()
            &&& forall|k: int| 0 <= k && 2 * k + 1 < e.contents.len()
                    ==> #[trigger] word(e1.contents[2 * k], e1.contents[2 * k + 1]) == e.input
        }),
{
    let ab = e.address_bits as u16;
    assert(forall|sub: u16| sub <= 3 ==> {
        let c = #[trigger] ((1u16 << ((ab + 2) as u16)) | (sub << ((ab - 2) as u16))) as u16;
        &&& c >> ((ab + 3) as u16) == 0
        &&& (c >> ((ab + 2) as u16)) & 1 == 1
        &&& (c >> ab) & 3 == 0
        &&& (c >> ((ab - 2) as u16)) & 3 == sub
    }) by (bit_vector)
        requires
            2 <= ab <= 12,
    ;
    lemma_word_bytes(e.input);
    if e.write_enabled {
        let e1 = e.after_comm(eeprom_all_command(e.address_bits, 1));
        assert forall|k: int| 0 <= k && 2 * k + 1 < e.contents.len()
            implies #[trigger] word(e1.contents[2 * k], e1.contents[2 * k + 1]) == e.input by {
            assert((2 * k) % 2 == 0 && (2 * k + 1) % 2 == 1);
        }
    }
}

/// Mirroring a tile map element left to right shows, at each pixel of its cell, what the
/// unmirrored element shows at the pixel mirrored across the cell's vertical middle; mirroring it
/// top to bottom does the same across the horizontal middle.
pub proof fn law_layer_mirror(elements: Seq<ScreenElement>, tiles: Seq<u8>, color_map: Seq<Option<Rgb>>, el: ScreenElement, px: u8, py: u8)
    requires
        elements.len() == 1024,
    ensures
        ({
            let e = (py / 8) as int * 32 + (px / 8) as int;
            let mx = (px / 8 * 8 + 7 - px % 8) as u8;
            layer_pixel(elements.update(e, ScreenElement { hm: true, ..el }), tiles, color_map, px, py)
                == layer_pixel(elements.update(e, ScreenElement { hm: false, ..el }), tiles, color_map, mx, py)
        }),
        ({
            let e = (py / 8) as int * 32 + (px / 8) as int;
            let my = (py / 8 * 8 + 7 - py % 8) as u8;
            layer_pixel(elements.update(e, ScreenElement { vm: true, ..el }), tiles, color_map, px, py)
                == layer_pixel(elements.update(e, ScreenElement { vm: false, ..el }), tiles, color_map, px, my)
        }),
{
    let mx = (px / 8 * 8 + 7 - px % 8) as u8;
    let my = (py / 8 * 8 + 7 - py % 8) as u8;
    assert(mx / 8 == px / 8 && mx % 8 == 7 - px % 8);
    assert(my / 8 == py / 8 && my % 8 == 7 - py % 8);
}

/// The value of a byte holding two decimal digits.
pub open spec fn bcd(x: u8) -> int {
    (x / 16) as int * 10 + (x % 16) as int
}

/// Whether a byte holds two decimal digits.
pub open spec fn is_bcd(x: u8) -> bool {
    x % 16 < 10 && x / 16 < 10
}

/// The carry flags an addition of two bytes leaves.
proof fn lemma_add_flags8(psw: CpuStatus, a: u8, b: u8)
    ensures
        ({
            let p = flags_add8(psw, a as u16, b as u16, (a + b) as u16, 0);
            &&& p.has(CpuStatus::CARRY) == (a + b > 0xFF)
            &&& p.has(CpuStatus::AUX_CARRY) == (a % 16 + b % 16 > 15)
        }),
{
    reveal(flags_add8);
    lemma_flag_masks();
    let res = (a + b) as u16;
    let (a16, b16) = (a as u16, b as u16);
    let v0 = lo8(res) == 0;
    let v1 = res & 0x80 != 0;
    let v2 = res & 0x80 != a16 & 0x80 && res & 0x80 != b16 & 0x80;
    let v3 = res > 0xFF;
    let v4 = crate::cpu::even_parity(lo8(res));
    let v5 = (a16 & 0xF) + (b16 & 0xF) + 0 > 0xF;
    let p1 = psw.with(0x40, v0);
    let p2 = p1.with(0x80, v1);
    let p3 = p2.with(0x800, v2);
    let p4 = p3.with(0x1, v3);
    let p5 = p4.with(0x4, v4);
    let p6 = p5.with(0x10, v5);
    assert(p6 == flags_add8(psw, a16, b16, res, 0));
    lemma_with_flag(p3, 0x1, 0x2, v3);
    lemma_with_flag(p4, 0x4, 0x1, v4);
    lemma_with_flag(p5, 0x10, 0x1, v5);
    lemma_with_flag(p5, 0x10, 0x2, v5);
    lemma_nibble(a16);
    lemma_nibble(b16);
}

proof fn lemma_nibble(x: u16)
    ensures
        x & 0xF == x % 16,
{
    assert(x & 0xF == x % 16) by (bit_vector);
}

/// The decimal adjustment after an addition of a byte `al` whose low digits carried (`aux`) or
/// whose bytes carried (`cy`): the adjusted byte and the carry out.
spec fn decimal_adjust(al: u8, aux: bool, cy: bool) -> (u8, bool) {
    let low = al % 16 > 9 || aux;
    let al1 = if low { ((al + 6) % 0x100) as u8 } else { al };
    let high = al1 > 0x9F || cy;
    (if high { ((al1 + 0x60) % 0x100) as u8 } else { al1 }, high)
}

#[verifier::spinoff_prover]
#[verifier::rlimit(100)]
proof fn lemma_adjust_state(t: CpuView)
    ensures
        ({
            let (z, c) = decimal_adjust(lo8(t.AW), t.PSW.has(CpuStatus::AUX_CARRY), t.PSW.has(CpuStatus::CARRY));
            let u = t.spec_adj4(true);
            &&& lo8(u.AW) == z
            &&& u.PSW.has(CpuStatus::CARRY) == c
        }),
{
    let al0 = lo8(t.AW);
    lemma_nibble(al0 as u16);
    assert((al0 & 0x0F) == al0 % 16) by (bit_vector);
    lemma_flag_masks();
    let low = al0 & 0x0F > 0x09 || t.flag(CpuStatus::AUX_CARRY);
    lemma_with_flag(t.PSW, 0x10, 0x1, true);
    let p1 = if low { t.PSW.with(CpuStatus::AUX_CARRY, true) } else { t.PSW };
    let al1 = if low { ((al0 + 6) % 0x100) as u8 } else { al0 };
    let high = al1 > 0x9F || t.flag(CpuStatus::CARRY);
    let al2 = if high { ((al1 + 0x60) % 0x100) as u8 } else { al1 };
    let p2 = if high { p1.with(CpuStatus::CARRY, true) } else { p1 };
    lemma_with_flag(p1, 0x1, 0x40, true);
    lemma_with_flag(p2, 0x40, 0x1, al2 == 0);
    lemma_with_flag(p2.with(0x40, al2 == 0), 0x80, 0x1, al2 & 0x80 != 0);
    lemma_with_flag(p2.with(0x40, al2 == 0).with(0x80, al2 & 0x80 != 0), 0x4, 0x1, crate::cpu::even_parity(al2));
}

#[verifier::spinoff_prover]
#[verifier::rlimit(100)]
proof fn lemma_adjust_digits(x: u8, y: u8)
    requires
        is_bcd(x),
        is_bcd(y),
        x + y < 250 || x + y > 255,
    ensures
        ({
            let (z, c) = decimal_adjust(((x + y) % 256) as u8, x % 16 + y % 16 > 15, x + y > 0xFF);
            &&& is_bcd(z)
            &&& bcd(z) == (bcd(x) + bcd(y)) % 100
            &&& c == (bcd(x) + bcd(y) >= 100)
        }),
{
    let xh = (x / 16) as int;
    let xl = (x % 16) as int;
    let yh = (y / 16) as int;
    let yl = (y % 16) as int;
    let l = xl + yl;
    let h = xh + yh;
    let sum = x + y;
    assert(sum == 16 * h + l);
    let al0 = (sum % 256) as u8;
    let low = al0 % 16 > 9 || l > 15;
    let (h1, l1) = if l >= 10 { (h + 1, l - 10) } else { (h, l) };
    if sum < 256 {
        assert(al0 == sum);
        assert(al0 % 16 == l % 16);
    } else {
        assert(al0 == sum - 256);
        assert(al0 % 16 == l % 16);
    }
    assert(low == (l >= 10));
    let al1 = if low { ((al0 + 6) % 0x100) as u8 } else { al0 };
    assert(al1 == (16 * h1 + l1) % 256);
    let high = al1 > 0x9F || sum > 0xFF;
    assert(high == (h1 >= 10));
    let z = decimal_adjust(al0, l > 15, sum > 0xFF).0;
    if h1 >= 10 {
        assert(z == 16 * (h1 - 10) + l1);
    } else {
        assert(z == 16 * h1 + l1);
    }
    assert(z / 16 == (if h1 >= 10 { h1 - 10 } else { h1 }) && z % 16 == l1);
    assert(bcd(x) + bcd(y) == 10 * h1 + l1);
}

/// ADJ4A after ADD AL of two bytes of decimal digits gives the decimal digits of the sum,
/// modulo 100, and sets CY exactly when the sum reaches 100. The one exception is a binary sum of
/// 250 to 255, whose low-digit correction wraps the byte to 0 - 5 before the high digit is
/// checked, as the adjustment tests the corrected byte: there no high correction is made.
#[verifier::spinoff_prover]
pub proof fn law_decimal_add(s: CpuView, m: MemView, extra: u8)
    requires
        is_bcd(lo8(s.AW)),
        is_bcd(s.op(1)),
        lo8(s.AW) + s.op(1) < 250 || lo8(s.AW) + s.op(1) > 255,
    ensures
        ({
            let x = lo8(s.AW);
            let y = s.op(1);
            let u = s.spec_add(m, Operand::ACCUMULATOR, Operand::IMMEDIATE, Mode::M8, extra, false).spec_adj4(true);
            let z = lo8(u.AW);
            &&& is_bcd(z)
            &&& bcd(z) == (bcd(x) + bcd(y)) % 100
            &&& u.PSW.has(CpuStatus::CARRY) == (bcd(x) + bcd(y) >= 100)
        }),
{
    let x = lo8(s.AW);
    let y = s.op(1);
    let t = s.spec_add(m, Operand::ACCUMULATOR, Operand::IMMEDIATE, Mode::M8, extra, false);
    lemma_add_flags8(s.PSW, x, y);
    assert(lo8(t.AW) == (x + y) % 256);
    lemma_adjust_state(t);
    lemma_adjust_digits(x, y);
}

/// What shifts and rotations by one place do to a byte, as arithmetic.
proof fn lemma_byte_shift_one(a: u8)
    by (bit_vector)
    ensures
        a >> 1u8 == a / 2,
        (a << 1u8) / 2 == a % 128,
        (a << 1u8) % 2 == 0,
        ((a << 1u8) | (a >> 7u8)) / 2 == a % 128,
        ((a << 1u8) | (a >> 7u8)) % 2 == a / 128,
        ((a >> 1u8) | (a << 7u8)) % 128 == a / 2,
        ((a >> 1u8) | (a << 7u8)) / 128 == a % 2,
        a >= 0x80 ==> !((!a) >> 1u8) % 128 == a / 2 % 128 && !((!a) >> 1u8) / 128 == 1,
{
}

/// A shift or rotation of a byte by one place: SHL doubles it, modulo 256, SHR halves it, SHRA
/// halves it as a signed number, rounding down, ROL moves the top bit to the bottom and ROR the
/// bottom bit to the top; a register operand holds the result afterwards.
#[verifier::spinoff_prover]
pub proof fn law_shift_byte_by_one(s: CpuView, m: MemView, extra: u8)
    ensures
        ({
            let x = s.op(1);
            let a = s.rm8(m, x);
            let psw = s.PSW;
            &&& shift8(Shift::Shl, psw, a, 1).0 == (2 * a) % 256
            &&& shift8(Shift::Shr, psw, a, 1).0 == a / 2
            &&& signed8(shift8(Shift::Shra, psw, a, 1).0) == signed8(a) / 2
            &&& shift8(Shift::Rol, psw, a, 1).0 == (2 * a) % 256 + a / 128
            &&& shift8(Shift::Ror, psw, a, 1).0 == a / 2 + (a % 2) * 128
            &&& is_reg_modrm(x) ==> forall|k: Shift| #[trigger] s.spec_shift(m, k, 0xD0, Mode::M8, extra).rm8(m, x)
                    == shift8(k, psw, a, 1).0
        }),
{
    let x = s.op(1);
    let a = s.rm8(m, x);
    lemma_byte_shift_one(a);
    lemma_fields(x);
    assert forall|k: Shift| is_reg_modrm(x) implies #[trigger] s.spec_shift(m, k, 0xD0, Mode::M8, extra).rm8(m, x)
        == shift8(k, s.PSW, a, 1).0 by {
        let c = s.charge(x, extra);
        lemma_reg8_read_back(c.with_psw(shift8(k, s.PSW, a, 1).1), x & 7, shift8(k, s.PSW, a, 1).0);
    }
}

} // verus!
