//! The opcode tables of the V30MZ.
use vstd::prelude::*;
use crate::cpu::{Mode, Operand};

verus! {

/// What decoding needs to know of a one-byte opcode.
#[derive(Clone, Copy)]
pub struct OpCode {
    /// First byte
    pub code: u8,
    /// Mnemonic
    pub name: &'static str,
    /// Destination
    pub op1: Operand,
    /// Source
    pub op2: Operand,
    /// Width of the operation
    pub mode: Mode,
    /// Third operand
    pub op3: Option<Operand>,
}

/// An entry of the opcode groups selected by the reg field of the mod/r/m byte.
#[derive(Clone, Copy)]
pub struct SubOpCode {
    pub code: u8,
    pub name: &'static str,
    /// A width that replaces the opcode's
    pub mode: Option<Mode>,
}

impl OpCode {
    pub fn one_byte(code: u8, name: &'static str, op1: Operand, op2: Operand, mode: Mode) -> (r: Self)
        ensures r.code == code, r.name == name, r.op1 == op1, r.op2 == op2, r.mode == mode, r.op3 == None::<Operand>,
    {
        Self { code, name, op1, op2, mode, op3: None }
    }

    pub fn three_term(code: u8, name: &'static str, op1: Operand, op2: Operand, op3: Operand, mode: Mode) -> (r: Self)
        ensures r.code == code, r.name == name, r.op1 == op1, r.op2 == op2, r.mode == mode, r.op3 == Some(op3),
    {
        Self { code, name, op1, op2, mode, op3: Some(op3) }
    }

    pub fn invalid(code: u8) -> (r: Self)
        ensures r.code == code, r.op1 == Operand::NONE, r.op2 == Operand::NONE, r.mode == Mode::M16, r.op3 == None::<Operand>,
    {
        Self { code, name: "INV", op1: Operand::NONE, op2: Operand::NONE, mode: Mode::M16, op3: None }
    }

    pub fn two_byte(code: u8, op1: Operand, op2: Operand, mode: Mode) -> (r: Self)
        ensures r.code == code, r.op1 == op1, r.op2 == op2, r.mode == mode, r.op3 == None::<Operand>,
    {
        Self { code, name: "IMM", op1, op2, mode, op3: None }
    }

    pub fn fpo1(code: u8) -> (r: Self)
        ensures r.code == code, r.op1 == Operand::NONE, r.op2 == Operand::MEMORY, r.mode == Mode::M16, r.op3 == None::<Operand>,
    {
        Self { code, name: "FPO1", op1: Operand::NONE, op2: Operand::MEMORY, mode: Mode::M16, op3: None }
    }
}

impl SubOpCode {
    pub fn normal(code: u8, name: &'static str) -> (r: Self)
        ensures r.code == code, r.name == name, r.mode == None::<Mode>,
    {
        Self { code, name, mode: None }
    }

    pub fn overwrite(code: u8, name: &'static str, mode: Mode) -> (r: Self)
        ensures r.code == code, r.name == name, r.mode == Some(mode),
    {
        Self { code, name, mode: Some(mode) }
    }
}

/// The sub-operation of the immediate group (0x80 - 0x83).
pub fn immediate_group(sub: u8) -> (r: SubOpCode)
    requires sub < 8,
    ensures r.code == sub, r.mode == None::<Mode>,
{
    if sub == 0 { SubOpCode::normal(0, "ADD") }
    else if sub == 1 { SubOpCode::normal(1, "OR") }
    else if sub == 2 { SubOpCode::normal(2, "ADDC") }
    else if sub == 3 { SubOpCode::normal(3, "SUBC") }
    else if sub == 4 { SubOpCode::normal(4, "AND") }
    else if sub == 5 { SubOpCode::normal(5, "SUB") }
    else if sub == 6 { SubOpCode::normal(6, "XOR") }
    else { SubOpCode::normal(7, "CMP") }
}

/// The sub-operation of the shift group (0xC0, 0xC1, 0xD0 - 0xD3).
pub fn shift_group(sub: u8) -> (r: SubOpCode)
    requires sub < 8,
    ensures r.code == sub, r.mode == None::<Mode>,
{
    if sub == 0 { SubOpCode::normal(0, "ROL") }
    else if sub == 1 { SubOpCode::normal(1, "ROR") }
    else if sub == 2 { SubOpCode::normal(2, "ROLC") }
    else if sub == 3 { SubOpCode::normal(3, "RORC") }
    else if sub == 4 { SubOpCode::normal(4, "SHL") }
    else if sub == 5 { SubOpCode::normal(5, "SHR") }
    else if sub == 6 { SubOpCode::normal(6, "INV") }
    else { SubOpCode::normal(7, "SHRA") }
}

/// The sub-operation of group 1 (0xF6, 0xF7).
pub fn group_1(sub: u8) -> (r: SubOpCode)
    requires sub < 8,
    ensures r.code == sub, r.mode == None::<Mode>,
{
    if sub == 0 { SubOpCode::normal(0, "TEST") }
    else if sub == 1 { SubOpCode::normal(1, "INV") }
    else if sub == 2 { SubOpCode::normal(2, "NOT") }
    else if sub == 3 { SubOpCode::normal(3, "NEG") }
    else if sub == 4 { SubOpCode::normal(4, "MULU") }
    else if sub == 5 { SubOpCode::normal(5, "MUL") }
    else if sub == 6 { SubOpCode::normal(6, "DIVU") }
    else { SubOpCode::normal(7, "DIV") }
}

/// The width group 2 (0xFE, 0xFF) imposes on each sub-operation, if any.
pub open spec fn spec_group_2_mode(sub: u8) -> Option<Mode> {
    if sub == 2 || sub == 4 || sub == 6 { Some(Mode::M16) }
    else if sub == 3 || sub == 5 { Some(Mode::M32) }
    else { None }
}

/// The sub-operation of group 2 (0xFE, 0xFF).
pub fn group_2(sub: u8) -> (r: SubOpCode)
    requires sub < 8,
    ensures r.code == sub, r.mode == spec_group_2_mode(sub),
{
    if sub == 0 { SubOpCode::normal(0, "INC") }
    else if sub == 1 { SubOpCode::normal(1, "DEC") }
    else if sub == 2 { SubOpCode::overwrite(2, "CALL", Mode::M16) }
    else if sub == 3 { SubOpCode::overwrite(3, "CALL", Mode::M32) }
    else if sub == 4 { SubOpCode::overwrite(4, "BR", Mode::M16) }
    else if sub == 5 { SubOpCode::overwrite(5, "BR", Mode::M32) }
    else if sub == 6 { SubOpCode::overwrite(6, "PUSH", Mode::M16) }
    else { SubOpCode::normal(7, "INV") }
}

/// Base cycle count and memory-operand penalty of the sub-operations of the groups that set their own.
pub open spec fn spec_sub_op_timing(code: u8, sub: u8) -> (u8, u8) {
    if 0x80 <= code <= 0x83 {
        if sub == 7 { (1, 1) } else { (1, 2) }
    } else if code == 0xF6 || code == 0xF7 {
        if sub == 0 { (1, 1) } else if sub == 1 { (1, 0) } else if sub == 2 || sub == 3 { (1, 2) } else { (3, 1) }
    } else {
        if sub == 0 || sub == 1 { (1, 2) } else if sub == 2 { (5, 1) } else if sub == 3 { (11, 1) }
        else if sub == 4 { (4, 1) } else if sub == 5 { (9, 1) } else if sub == 6 { (1, 1) } else { (1, 0) }
    }
}

/// Base cycle count and memory-operand penalty of a group sub-operation.
pub fn sub_op_timing(code: u8, sub: u8) -> (r: (u8, u8))
    ensures r == spec_sub_op_timing(code, sub),
{
    if 0x80 <= code && code <= 0x83 {
        if sub == 7 { (1, 1) } else { (1, 2) }
    } else if code == 0xF6 || code == 0xF7 {
        if sub == 0 { (1, 1) } else if sub == 1 { (1, 0) } else if sub == 2 || sub == 3 { (1, 2) } else { (3, 1) }
    } else {
        if sub == 0 || sub == 1 { (1, 2) } else if sub == 2 { (5, 1) } else if sub == 3 { (11, 1) }
        else if sub == 4 { (4, 1) } else if sub == 5 { (9, 1) } else if sub == 6 { (1, 1) } else { (1, 0) }
    }
}

/// Operands, width and third operand of each one-byte opcode.
pub open spec fn spec_op_info(code: u8) -> (Operand, Operand, Mode, Option<Operand>) {
    if code == 0x00 || code == 0x08 || code == 0x10 || code == 0x18 || code == 0x20 || code == 0x28 || code == 0x30 || code == 0x38 || code == 0x84 || code == 0x86 || code == 0x88 { (Operand::MEMORY, Operand::REGISTER, Mode::M8, None) }
    else if code == 0x01 || code == 0x09 || code == 0x11 || code == 0x19 || code == 0x21 || code == 0x29 || code == 0x31 || code == 0x39 || code == 0x85 || code == 0x87 || code == 0x89 { (Operand::MEMORY, Operand::REGISTER, Mode::M16, None) }
    else if code == 0x02 || code == 0x0A || code == 0x12 || code == 0x1A || code == 0x22 || code == 0x2A || code == 0x32 || code == 0x3A || code == 0x8A { (Operand::REGISTER, Operand::MEMORY, Mode::M8, None) }
    else if code == 0x03 || code == 0x0B || code == 0x13 || code == 0x1B || code == 0x23 || code == 0x2B || code == 0x33 || code == 0x3B || code == 0x8B || code == 0x8D { (Operand::REGISTER, Operand::MEMORY, Mode::M16, None) }
    else if code == 0x04 || code == 0x0C || code == 0x14 || code == 0x1C || code == 0x24 || code == 0x2C || code == 0x34 || code == 0x3C || code == 0xA8 || (0xD4 <= code <= 0xD5) || code == 0xE4 { (Operand::ACCUMULATOR, Operand::IMMEDIATE, Mode::M8, None) }
    else if code == 0x05 || code == 0x0D || code == 0x15 || code == 0x1D || code == 0x25 || code == 0x2D || code == 0x35 || code == 0x3D || code == 0xA9 || code == 0xE5 { (Operand::ACCUMULATOR, Operand::IMMEDIATE, Mode::M16, None) }
    else if (0x06 <= code <= 0x07) || code == 0x0E || (0x16 <= code <= 0x17) || (0x1E <= code <= 0x1F) { (Operand::NONE, Operand::SEGMENT, Mode::M16, None) }
    else if code == 0x0F || (0x26 <= code <= 0x27) || (0x2E <= code <= 0x2F) || (0x36 <= code <= 0x37) || (0x3E <= code <= 0x3F) || (0x60 <= code <= 0x61) || (0x63 <= code <= 0x67) || code == 0x6D || code == 0x6F || code == 0x90 || (0x98 <= code <= 0x99) || (0x9B <= code <= 0x9D) || code == 0xA5 || code == 0xA7 || code == 0xC3 || code == 0xC9 || (0xCB <= code <= 0xCC) || (0xCE <= code <= 0xCF) || (0xD6 <= code <= 0xD7) || code == 0xED || (0xEF <= code <= 0xF5) || (0xF8 <= code <= 0xFD) { (Operand::NONE, Operand::NONE, Mode::M16, None) }
    else if (0x40 <= code <= 0x4F) { (Operand::REGISTER, Operand::NONE, Mode::M16, None) }
    else if (0x50 <= code <= 0x5F) { (Operand::NONE, Operand::REGISTER, Mode::M16, None) }
    else if code == 0x62 { (Operand::REGISTER, Operand::MEMORY, Mode::M32, None) }
    else if code == 0x68 || code == 0xC2 || code == 0xCA { (Operand::NONE, Operand::IMMEDIATE, Mode::M16, None) }
    else if code == 0x69 { (Operand::REGISTER, Operand::MEMORY, Mode::M16, Some(Operand::IMMEDIATE)) }
    else if code == 0x6A { (Operand::NONE, Operand::IMMEDIATE_S, Mode::M16, None) }
    else if code == 0x6B { (Operand::REGISTER, Operand::MEMORY, Mode::M16, Some(Operand::IMMEDIATE_S)) }
    else if code == 0x6C || code == 0x6E || code == 0xA4 || code == 0xA6 || code == 0xEC || code == 0xEE { (Operand::NONE, Operand::NONE, Mode::M8, None) }
    else if (0x70 <= code <= 0x7F) || (0xE0 <= code <= 0xE3) { (Operand::NONE, Operand::IMMEDIATE_S, Mode::M8, None) }
    else if code == 0x80 || code == 0x82 || code == 0xC0 || code == 0xC6 || code == 0xF6 { (Operand::MEMORY, Operand::IMMEDIATE, Mode::M8, None) }
    else if code == 0x81 || code == 0xC1 || code == 0xC7 || code == 0xF7 { (Operand::MEMORY, Operand::IMMEDIATE, Mode::M16, None) }
    else if code == 0x83 { (Operand::MEMORY, Operand::IMMEDIATE_S, Mode::M16, None) }
    else if code == 0x8C { (Operand::MEMORY, Operand::SEGMENT, Mode::M16, None) }
    else if code == 0x8E { (Operand::SEGMENT, Operand::MEMORY, Mode::M16, None) }
    else if code == 0x8F || (0xD8 <= code <= 0xDF) { (Operand::NONE, Operand::MEMORY, Mode::M16, None) }
    else if (0x91 <= code <= 0x97) { (Operand::ACCUMULATOR, Operand::REGISTER, Mode::M16, None) }
    else if code == 0x9A || code == 0xEA { (Operand::IMMEDIATE, Operand::NONE, Mode::M32, None) }
    else if code == 0x9E || code == 0xAA || code == 0xAE { (Operand::NONE, Operand::ACCUMULATOR, Mode::M8, None) }
    else if code == 0x9F || code == 0xAC { (Operand::ACCUMULATOR, Operand::NONE, Mode::M8, None) }
    else if code == 0xA0 { (Operand::ACCUMULATOR, Operand::DIRECT, Mode::M8, None) }
    else if code == 0xA1 { (Operand::ACCUMULATOR, Operand::DIRECT, Mode::M16, None) }
    else if code == 0xA2 { (Operand::DIRECT, Operand::ACCUMULATOR, Mode::M8, None) }
    else if code == 0xA3 { (Operand::DIRECT, Operand::ACCUMULATOR, Mode::M16, None) }
    else if code == 0xAB || code == 0xAF { (Operand::NONE, Operand::ACCUMULATOR, Mode::M16, None) }
    else if code == 0xAD { (Operand::ACCUMULATOR, Operand::NONE, Mode::M16, None) }
    else if (0xB0 <= code <= 0xB7) { (Operand::REGISTER, Operand::IMMEDIATE, Mode::M8, None) }
    else if (0xB8 <= code <= 0xBF) { (Operand::REGISTER, Operand::IMMEDIATE, Mode::M16, None) }
    else if (0xC4 <= code <= 0xC5) { (Operand::SEGMENT, Operand::REGISTER, Mode::M32, Some(Operand::MEMORY)) }
    else if code == 0xC8 { (Operand::IMMEDIATE, Operand::IMMEDIATE, Mode::M16, None) }
    else if code == 0xCD { (Operand::NONE, Operand::IMMEDIATE, Mode::M8, None) }
    else if code == 0xD0 || code == 0xD2 || code == 0xFE { (Operand::MEMORY, Operand::NONE, Mode::M8, None) }
    else if code == 0xD1 || code == 0xD3 || code == 0xFF { (Operand::MEMORY, Operand::NONE, Mode::M16, None) }
    else if code == 0xE6 { (Operand::IMMEDIATE, Operand::ACCUMULATOR, Mode::M8, None) }
    else if code == 0xE7 { (Operand::IMMEDIATE, Operand::ACCUMULATOR, Mode::M16, None) }
    else if (0xE8 <= code <= 0xE9) { (Operand::IMMEDIATE_S, Operand::NONE, Mode::M16, None) }
    else { (Operand::IMMEDIATE_S, Operand::NONE, Mode::M8, None) }
}

/// Operands, width and third operand of a one-byte opcode.
pub fn op_info(code: u8) -> (r: (Operand, Operand, Mode, Option<Operand>))
    ensures
        r == spec_op_info(code),
{
    if code == 0x00 || code == 0x08 || code == 0x10 || code == 0x18 || code == 0x20 || code == 0x28 || code == 0x30 || code == 0x38 || code == 0x84 || code == 0x86 || code == 0x88 {
        (Operand::MEMORY, Operand::REGISTER, Mode::M8, None)
    } else if code == 0x01 || code == 0x09 || code == 0x11 || code == 0x19 || code == 0x21 || code == 0x29 || code == 0x31 || code == 0x39 || code == 0x85 || code == 0x87 || code == 0x89 {
        (Operand::MEMORY, Operand::REGISTER, Mode::M16, None)
    } else if code == 0x02 || code == 0x0A || code == 0x12 || code == 0x1A || code == 0x22 || code == 0x2A || code == 0x32 || code == 0x3A || code == 0x8A {
        (Operand::REGISTER, Operand::MEMORY, Mode::M8, None)
    } else if code == 0x03 || code == 0x0B || code == 0x13 || code == 0x1B || code == 0x23 || code == 0x2B || code == 0x33 || code == 0x3B || code == 0x8B || code == 0x8D {
        (Operand::REGISTER, Operand::MEMORY, Mode::M16, None)
    } else if code == 0x04 || code == 0x0C || code == 0x14 || code == 0x1C || code == 0x24 || code == 0x2C || code == 0x34 || code == 0x3C || code == 0xA8 || (0xD4 <= code && code <= 0xD5) || code == 0xE4 {
        (Operand::ACCUMULATOR, Operand::IMMEDIATE, Mode::M8, None)
    } else if code == 0x05 || code == 0x0D || code == 0x15 || code == 0x1D || code == 0x25 || code == 0x2D || code == 0x35 || code == 0x3D || code == 0xA9 || code == 0xE5 {
        (Operand::ACCUMULATOR, Operand::IMMEDIATE, Mode::M16, None)
    } else if (0x06 <= code && code <= 0x07) || code == 0x0E || (0x16 <= code && code <= 0x17) || (0x1E <= code && code <= 0x1F) {
        (Operand::NONE, Operand::SEGMENT, Mode::M16, None)
    } else if code == 0x0F || (0x26 <= code && code <= 0x27) || (0x2E <= code && code <= 0x2F) || (0x36 <= code && code <= 0x37) || (0x3E <= code && code <= 0x3F) || (0x60 <= code && code <= 0x61) || (0x63 <= code && code <= 0x67) || code == 0x6D || code == 0x6F || code == 0x90 || (0x98 <= code && code <= 0x99) || (0x9B <= code && code <= 0x9D) || code == 0xA5 || code == 0xA7 || code == 0xC3 || code == 0xC9 || (0xCB <= code && code <= 0xCC) || (0xCE <= code && code <= 0xCF) || (0xD6 <= code && code <= 0xD7) || code == 0xED || (0xEF <= code && code <= 0xF5) || (0xF8 <= code && code <= 0xFD) {
        (Operand::NONE, Operand::NONE, Mode::M16, None)
    } else if (0x40 <= code && code <= 0x4F) {
        (Operand::REGISTER, Operand::NONE, Mode::M16, None)
    } else if (0x50 <= code && code <= 0x5F) {
        (Operand::NONE, Operand::REGISTER, Mode::M16, None)
    } else if code == 0x62 {
        (Operand::REGISTER, Operand::MEMORY, Mode::M32, None)
    } else if code == 0x68 || code == 0xC2 || code == 0xCA {
        (Operand::NONE, Operand::IMMEDIATE, Mode::M16, None)
    } else if code == 0x69 {
        (Operand::REGISTER, Operand::MEMORY, Mode::M16, Some(Operand::IMMEDIATE))
    } else if code == 0x6A {
        (Operand::NONE, Operand::IMMEDIATE_S, Mode::M16, None)
    } else if code == 0x6B {
        (Operand::REGISTER, Operand::MEMORY, Mode::M16, Some(Operand::IMMEDIATE_S))
    } else if code == 0x6C || code == 0x6E || code == 0xA4 || code == 0xA6 || code == 0xEC || code == 0xEE {
        (Operand::NONE, Operand::NONE, Mode::M8, None)
    } else if (0x70 <= code && code <= 0x7F) || (0xE0 <= code && code <= 0xE3) {
        (Operand::NONE, Operand::IMMEDIATE_S, Mode::M8, None)
    } else if code == 0x80 || code == 0x82 || code == 0xC0 || code == 0xC6 || code == 0xF6 {
        (Operand::MEMORY, Operand::IMMEDIATE, Mode::M8, None)
    } else if code == 0x81 || code == 0xC1 || code == 0xC7 || code == 0xF7 {
        (Operand::MEMORY, Operand::IMMEDIATE, Mode::M16, None)
    } else if code == 0x83 {
        (Operand::MEMORY, Operand::IMMEDIATE_S, Mode::M16, None)
    } else if code == 0x8C {
        (Operand::MEMORY, Operand::SEGMENT, Mode::M16, None)
    } else if code == 0x8E {
        (Operand::SEGMENT, Operand::MEMORY, Mode::M16, None)
    } else if code == 0x8F || (0xD8 <= code && code <= 0xDF) {
        (Operand::NONE, Operand::MEMORY, Mode::M16, None)
    } else if (0x91 <= code && code <= 0x97) {
        (Operand::ACCUMULATOR, Operand::REGISTER, Mode::M16, None)
    } else if code == 0x9A || code == 0xEA {
        (Operand::IMMEDIATE, Operand::NONE, Mode::M32, None)
    } else if code == 0x9E || code == 0xAA || code == 0xAE {
        (Operand::NONE, Operand::ACCUMULATOR, Mode::M8, None)
    } else if code == 0x9F || code == 0xAC {
        (Operand::ACCUMULATOR, Operand::NONE, Mode::M8, None)
    } else if code == 0xA0 {
        (Operand::ACCUMULATOR, Operand::DIRECT, Mode::M8, None)
    } else if code == 0xA1 {
        (Operand::ACCUMULATOR, Operand::DIRECT, Mode::M16, None)
    } else if code == 0xA2 {
        (Operand::DIRECT, Operand::ACCUMULATOR, Mode::M8, None)
    } else if code == 0xA3 {
        (Operand::DIRECT, Operand::ACCUMULATOR, Mode::M16, None)
    } else if code == 0xAB || code == 0xAF {
        (Operand::NONE, Operand::ACCUMULATOR, Mode::M16, None)
    } else if code == 0xAD {
        (Operand::ACCUMULATOR, Operand::NONE, Mode::M16, None)
    } else if (0xB0 <= code && code <= 0xB7) {
        (Operand::REGISTER, Operand::IMMEDIATE, Mode::M8, None)
    } else if (0xB8 <= code && code <= 0xBF) {
        (Operand::REGISTER, Operand::IMMEDIATE, Mode::M16, None)
    } else if (0xC4 <= code && code <= 0xC5) {
        (Operand::SEGMENT, Operand::REGISTER, Mode::M32, Some(Operand::MEMORY))
    } else if code == 0xC8 {
        (Operand::IMMEDIATE, Operand::IMMEDIATE, Mode::M16, None)
    } else if code == 0xCD {
        (Operand::NONE, Operand::IMMEDIATE, Mode::M8, None)
    } else if code == 0xD0 || code == 0xD2 || code == 0xFE {
        (Operand::MEMORY, Operand::NONE, Mode::M8, None)
    } else if code == 0xD1 || code == 0xD3 || code == 0xFF {
        (Operand::MEMORY, Operand::NONE, Mode::M16, None)
    } else if code == 0xE6 {
        (Operand::IMMEDIATE, Operand::ACCUMULATOR, Mode::M8, None)
    } else if code == 0xE7 {
        (Operand::IMMEDIATE, Operand::ACCUMULATOR, Mode::M16, None)
    } else if (0xE8 <= code && code <= 0xE9) {
        (Operand::IMMEDIATE_S, Operand::NONE, Mode::M16, None)
    } else {
        (Operand::IMMEDIATE_S, Operand::NONE, Mode::M8, None)
    }
}

/// The mnemonic of a one-byte opcode.
pub open spec fn spec_op_name(code: u8) -> &'static str {
    match code {
        0x00 => "ADD",
        0x01 => "ADD",
        0x02 => "ADD",
        0x03 => "ADD",
        0x04 => "ADD",
        0x05 => "ADD",
        0x06 => "PUSH",
        0x07 => "POP",
        0x08 => "OR",
        0x09 => "OR",
        0x0A => "OR",
        0x0B => "OR",
        0x0C => "OR",
        0x0D => "OR",
        0x0E => "PUSH",
        0x0F => "INV",
        0x10 => "ADDC",
        0x11 => "ADDC",
        0x12 => "ADDC",
        0x13 => "ADDC",
        0x14 => "ADDC",
        0x15 => "ADDC",
        0x16 => "PUSH",
        0x17 => "POP",
        0x18 => "SUBC",
        0x19 => "SUBC",
        0x1A => "SUBC",
        0x1B => "SUBC",
        0x1C => "SUBC",
        0x1D => "SUBC",
        0x1E => "PUSH",
        0x1F => "POP",
        0x20 => "AND",
        0x21 => "AND",
        0x22 => "AND",
        0x23 => "AND",
        0x24 => "AND",
        0x25 => "AND",
        0x26 => "DS1:",
        0x27 => "ADJ4A",
        0x28 => "SUB",
        0x29 => "SUB",
        0x2A => "SUB",
        0x2B => "SUB",
        0x2C => "SUB",
        0x2D => "SUB",
        0x2E => "PS:",
        0x2F => "ADJ4S",
        0x30 => "XOR",
        0x31 => "XOR",
        0x32 => "XOR",
        0x33 => "XOR",
        0x34 => "XOR",
        0x35 => "XOR",
        0x36 => "SS:",
        0x37 => "ADJBA",
        0x38 => "CMP",
        0x39 => "CMP",
        0x3A => "CMP",
        0x3B => "CMP",
        0x3C => "CMP",
        0x3D => "CMP",
        0x3E => "DS0:",
        0x3F => "ADJBS",
        0x40 => "INC",
        0x41 => "INC",
        0x42 => "INC",
        0x43 => "INC",
        0x44 => "INC",
        0x45 => "INC",
        0x46 => "INC",
        0x47 => "INC",
        0x48 => "DEC",
        0x49 => "DEC",
        0x4A => "DEC",
        0x4B => "DEC",
        0x4C => "DEC",
        0x4D => "DEC",
        0x4E => "DEC",
        0x4F => "DEC",
        0x50 => "PUSH",
        0x51 => "PUSH",
        0x52 => "PUSH",
        0x53 => "PUSH",
        0x54 => "PUSH",
        0x55 => "PUSH",
        0x56 => "PUSH",
        0x57 => "PUSH",
        0x58 => "POP",
        0x59 => "POP",
        0x5A => "POP",
        0x5B => "POP",
        0x5C => "POP",
        0x5D => "POP",
        0x5E => "POP",
        0x5F => "POP",
        0x60 => "PUSH",
        0x61 => "POP",
        0x62 => "CHKIND",
        0x63 => "INV",
        0x64 => "INV",
        0x65 => "INV",
        0x66 => "INV",
        0x67 => "INV",
        0x68 => "PUSH",
        0x69 => "MUL",
        0x6A => "PUSH",
        0x6B => "MUL",
        0x6C => "INMB",
        0x6D => "INMW",
        0x6E => "OUTMB",
        0x6F => "OUTMW",
        0x70 => "BV",
        0x71 => "BNV",
        0x72 => "BC",
        0x73 => "BNC",
        0x74 => "BE",
        0x75 => "BNE",
        0x76 => "BNH",
        0x77 => "BH",
        0x78 => "BN",
        0x79 => "BP",
        0x7A => "BPE",
        0x7B => "BPO",
        0x7C => "BLT",
        0x7D => "BGE",
        0x7E => "BLE",
        0x7F => "BGT",
        0x80 => "IMM",
        0x81 => "IMM",
        0x82 => "IMM",
        0x83 => "IMM",
        0x84 => "TEST",
        0x85 => "TEST",
        0x86 => "XCH",
        0x87 => "XCH",
        0x88 => "MOV",
        0x89 => "MOV",
        0x8A => "MOV",
        0x8B => "MOV",
        0x8C => "MOV",
        0x8D => "LDEA",
        0x8E => "MOV",
        0x8F => "POP",
        0x90 => "NOP",
        0x91 => "XCH",
        0x92 => "XCH",
        0x93 => "XCH",
        0x94 => "XCH",
        0x95 => "XCH",
        0x96 => "XCH",
        0x97 => "XCH",
        0x98 => "CVTBW",
        0x99 => "CVTWL",
        0x9A => "CALL",
        0x9B => "POLL",
        0x9C => "PUSH",
        0x9D => "POP",
        0x9E => "MOV",
        0x9F => "MOV",
        0xA0 => "MOV",
        0xA1 => "MOV",
        0xA2 => "MOV",
        0xA3 => "MOV",
        0xA4 => "MOVBKB",
        0xA5 => "MOVBKW",
        0xA6 => "CMPBKB",
        0xA7 => "CMPBKW",
        0xA8 => "TEST",
        0xA9 => "TEST",
        0xAA => "STMB",
        0xAB => "STMW",
        0xAC => "LDMB",
        0xAD => "LDMW",
        0xAE => "CMPMB",
        0xAF => "CMPMW",
        0xB0 => "MOV",
        0xB1 => "MOV",
        0xB2 => "MOV",
        0xB3 => "MOV",
        0xB4 => "MOV",
        0xB5 => "MOV",
        0xB6 => "MOV",
        0xB7 => "MOV",
        0xB8 => "MOV",
        0xB9 => "MOV",
        0xBA => "MOV",
        0xBB => "MOV",
        0xBC => "MOV",
        0xBD => "MOV",
        0xBE => "MOV",
        0xBF => "MOV",
        0xC0 => "IMM",
        0xC1 => "IMM",
        0xC2 => "RETN",
        0xC3 => "RETN",
        0xC4 => "MOV",
        0xC5 => "MOV",
        0xC6 => "MOV",
        0xC7 => "MOV",
        0xC8 => "PREPARE",
        0xC9 => "DISPOSE",
        0xCA => "RETF",
        0xCB => "RETF",
        0xCC => "BRK",
        0xCD => "BRK",
        0xCE => "BRKV",
        0xCF => "RETI",
        0xD0 => "IMM",
        0xD1 => "IMM",
        0xD2 => "IMM",
        0xD3 => "IMM",
        0xD4 => "CVTBD",
        0xD5 => "CVTDB",
        0xD6 => "SALC",
        0xD7 => "TRANS",
        0xD8 => "FPO1",
        0xD9 => "FPO1",
        0xDA => "FPO1",
        0xDB => "FPO1",
        0xDC => "FPO1",
        0xDD => "FPO1",
        0xDE => "FPO1",
        0xDF => "FPO1",
        0xE0 => "DBNZNE",
        0xE1 => "DBNZE",
        0xE2 => "DBNZ",
        0xE3 => "BCWZ",
        0xE4 => "IN",
        0xE5 => "IN",
        0xE6 => "OUT",
        0xE7 => "OUT",
        0xE8 => "CALL",
        0xE9 => "BR",
        0xEA => "BR",
        0xEB => "BR",
        0xEC => "IN",
        0xED => "IN",
        0xEE => "OUT",
        0xEF => "OUT",
        0xF0 => "BUSLOCK",
        0xF1 => "INV",
        0xF2 => "REPNE",
        0xF3 => "REP",
        0xF4 => "HALT",
        0xF5 => "NOT1",
        0xF6 => "IMM",
        0xF7 => "IMM",
        0xF8 => "CLR1",
        0xF9 => "SET1",
        0xFA => "DI",
        0xFB => "EI",
        0xFC => "CLR1",
        0xFD => "SET1",
        0xFE => "IMM",
        0xFF => "IMM",
    }
}

/// The mnemonic of a one-byte opcode.
pub fn op_name(code: u8) -> (r: &'static str)
    ensures
        r == spec_op_name(code),
{
    match code {
        0x00 => "ADD",
        0x01 => "ADD",
        0x02 => "ADD",
        0x03 => "ADD",
        0x04 => "ADD",
        0x05 => "ADD",
        0x06 => "PUSH",
        0x07 => "POP",
        0x08 => "OR",
        0x09 => "OR",
        0x0A => "OR",
        0x0B => "OR",
        0x0C => "OR",
        0x0D => "OR",
        0x0E => "PUSH",
        0x0F => "INV",
        0x10 => "ADDC",
        0x11 => "ADDC",
        0x12 => "ADDC",
        0x13 => "ADDC",
        0x14 => "ADDC",
        0x15 => "ADDC",
        0x16 => "PUSH",
        0x17 => "POP",
        0x18 => "SUBC",
        0x19 => "SUBC",
        0x1A => "SUBC",
        0x1B => "SUBC",
        0x1C => "SUBC",
        0x1D => "SUBC",
        0x1E => "PUSH",
        0x1F => "POP",
        0x20 => "AND",
        0x21 => "AND",
        0x22 => "AND",
        0x23 => "AND",
        0x24 => "AND",
        0x25 => "AND",
        0x26 => "DS1:",
        0x27 => "ADJ4A",
        0x28 => "SUB",
        0x29 => "SUB",
        0x2A => "SUB",
        0x2B => "SUB",
        0x2C => "SUB",
        0x2D => "SUB",
        0x2E => "PS:",
        0x2F => "ADJ4S",
        0x30 => "XOR",
        0x31 => "XOR",
        0x32 => "XOR",
        0x33 => "XOR",
        0x34 => "XOR",
        0x35 => "XOR",
        0x36 => "SS:",
        0x37 => "ADJBA",
        0x38 => "CMP",
        0x39 => "CMP",
        0x3A => "CMP",
        0x3B => "CMP",
        0x3C => "CMP",
        0x3D => "CMP",
        0x3E => "DS0:",
        0x3F => "ADJBS",
        0x40 => "INC",
        0x41 => "INC",
        0x42 => "INC",
        0x43 => "INC",
        0x44 => "INC",
        0x45 => "INC",
        0x46 => "INC",
        0x47 => "INC",
        0x48 => "DEC",
        0x49 => "DEC",
        0x4A => "DEC",
        0x4B => "DEC",
        0x4C => "DEC",
        0x4D => "DEC",
        0x4E => "DEC",
        0x4F => "DEC",
        0x50 => "PUSH",
        0x51 => "PUSH",
        0x52 => "PUSH",
        0x53 => "PUSH",
        0x54 => "PUSH",
        0x55 => "PUSH",
        0x56 => "PUSH",
        0x57 => "PUSH",
        0x58 => "POP",
        0x59 => "POP",
        0x5A => "POP",
        0x5B => "POP",
        0x5C => "POP",
        0x5D => "POP",
        0x5E => "POP",
        0x5F => "POP",
        0x60 => "PUSH",
        0x61 => "POP",
        0x62 => "CHKIND",
        0x63 => "INV",
        0x64 => "INV",
        0x65 => "INV",
        0x66 => "INV",
        0x67 => "INV",
        0x68 => "PUSH",
        0x69 => "MUL",
        0x6A => "PUSH",
        0x6B => "MUL",
        0x6C => "INMB",
        0x6D => "INMW",
        0x6E => "OUTMB",
        0x6F => "OUTMW",
        0x70 => "BV",
        0x71 => "BNV",
        0x72 => "BC",
        0x73 => "BNC",
        0x74 => "BE",
        0x75 => "BNE",
        0x76 => "BNH",
        0x77 => "BH",
        0x78 => "BN",
        0x79 => "BP",
        0x7A => "BPE",
        0x7B => "BPO",
        0x7C => "BLT",
        0x7D => "BGE",
        0x7E => "BLE",
        0x7F => "BGT",
        0x80 => "IMM",
        0x81 => "IMM",
        0x82 => "IMM",
        0x83 => "IMM",
        0x84 => "TEST",
        0x85 => "TEST",
        0x86 => "XCH",
        0x87 => "XCH",
        0x88 => "MOV",
        0x89 => "MOV",
        0x8A => "MOV",
        0x8B => "MOV",
        0x8C => "MOV",
        0x8D => "LDEA",
        0x8E => "MOV",
        0x8F => "POP",
        0x90 => "NOP",
        0x91 => "XCH",
        0x92 => "XCH",
        0x93 => "XCH",
        0x94 => "XCH",
        0x95 => "XCH",
        0x96 => "XCH",
        0x97 => "XCH",
        0x98 => "CVTBW",
        0x99 => "CVTWL",
        0x9A => "CALL",
        0x9B => "POLL",
        0x9C => "PUSH",
        0x9D => "POP",
        0x9E => "MOV",
        0x9F => "MOV",
        0xA0 => "MOV",
        0xA1 => "MOV",
        0xA2 => "MOV",
        0xA3 => "MOV",
        0xA4 => "MOVBKB",
        0xA5 => "MOVBKW",
        0xA6 => "CMPBKB",
        0xA7 => "CMPBKW",
        0xA8 => "TEST",
        0xA9 => "TEST",
        0xAA => "STMB",
        0xAB => "STMW",
        0xAC => "LDMB",
        0xAD => "LDMW",
        0xAE => "CMPMB",
        0xAF => "CMPMW",
        0xB0 => "MOV",
        0xB1 => "MOV",
        0xB2 => "MOV",
        0xB3 => "MOV",
        0xB4 => "MOV",
        0xB5 => "MOV",
        0xB6 => "MOV",
        0xB7 => "MOV",
        0xB8 => "MOV",
        0xB9 => "MOV",
        0xBA => "MOV",
        0xBB => "MOV",
        0xBC => "MOV",
        0xBD => "MOV",
        0xBE => "MOV",
        0xBF => "MOV",
        0xC0 => "IMM",
        0xC1 => "IMM",
        0xC2 => "RETN",
        0xC3 => "RETN",
        0xC4 => "MOV",
        0xC5 => "MOV",
        0xC6 => "MOV",
        0xC7 => "MOV",
        0xC8 => "PREPARE",
        0xC9 => "DISPOSE",
        0xCA => "RETF",
        0xCB => "RETF",
        0xCC => "BRK",
        0xCD => "BRK",
        0xCE => "BRKV",
        0xCF => "RETI",
        0xD0 => "IMM",
        0xD1 => "IMM",
        0xD2 => "IMM",
        0xD3 => "IMM",
        0xD4 => "CVTBD",
        0xD5 => "CVTDB",
        0xD6 => "SALC",
        0xD7 => "TRANS",
        0xD8 => "FPO1",
        0xD9 => "FPO1",
        0xDA => "FPO1",
        0xDB => "FPO1",
        0xDC => "FPO1",
        0xDD => "FPO1",
        0xDE => "FPO1",
        0xDF => "FPO1",
        0xE0 => "DBNZNE",
        0xE1 => "DBNZE",
        0xE2 => "DBNZ",
        0xE3 => "BCWZ",
        0xE4 => "IN",
        0xE5 => "IN",
        0xE6 => "OUT",
        0xE7 => "OUT",
        0xE8 => "CALL",
        0xE9 => "BR",
        0xEA => "BR",
        0xEB => "BR",
        0xEC => "IN",
        0xED => "IN",
        0xEE => "OUT",
        0xEF => "OUT",
        0xF0 => "BUSLOCK",
        0xF1 => "INV",
        0xF2 => "REPNE",
        0xF3 => "REP",
        0xF4 => "HALT",
        0xF5 => "NOT1",
        0xF6 => "IMM",
        0xF7 => "IMM",
        0xF8 => "CLR1",
        0xF9 => "SET1",
        0xFA => "DI",
        0xFB => "EI",
        0xFC => "CLR1",
        0xFD => "SET1",
        0xFE => "IMM",
        0xFF => "IMM",
    }
}

/// The decoding information of a one-byte opcode.
pub fn cpu_op_code(code: u8) -> (r: OpCode)
    ensures
        r.code == code,
        r.name == spec_op_name(code),
        (r.op1, r.op2, r.mode, r.op3) == spec_op_info(code),
{
    let (op1, op2, mode, op3) = op_info(code);
    OpCode { code, name: op_name(code), op1, op2, mode, op3 }
}

/// Base cycle count and memory-operand penalty of each opcode; for block operations the
/// second number is the cycle count of a repeated iteration.
pub open spec fn spec_op_timing(code: u8) -> (u8, u8) {
    if (0x00 <= code <= 0x01) || (0x08 <= code <= 0x09) || (0x10 <= code <= 0x11) || (0x18 <= code <= 0x19) || (0x20 <= code <= 0x21) || (0x28 <= code <= 0x29) || (0x30 <= code <= 0x31) || (0x80 <= code <= 0x83) || code == 0x8F || (0xD0 <= code <= 0xD1) || (0xFE <= code <= 0xFF) { (1, 2) }
    else if (0x02 <= code <= 0x03) || (0x0A <= code <= 0x0B) || (0x12 <= code <= 0x13) || (0x1A <= code <= 0x1B) || (0x22 <= code <= 0x23) || (0x2A <= code <= 0x2B) || (0x32 <= code <= 0x33) || (0x38 <= code <= 0x3B) || (0x84 <= code <= 0x85) || (0xF6 <= code <= 0xF7) { (1, 1) }
    else if (0x04 <= code <= 0x05) || (0x0C <= code <= 0x0D) || code == 0x0F || (0x14 <= code <= 0x15) || (0x1C <= code <= 0x1D) || (0x24 <= code <= 0x26) || (0x2C <= code <= 0x2E) || (0x34 <= code <= 0x36) || (0x3C <= code <= 0x3E) || (0x40 <= code <= 0x5F) || (0x63 <= code <= 0x68) || code == 0x6A || (0x70 <= code <= 0x7F) || (0x88 <= code <= 0x8E) || code == 0x90 || (0x98 <= code <= 0x99) || code == 0x9B || (0xA0 <= code <= 0xA3) || (0xA8 <= code <= 0xA9) || (0xB0 <= code <= 0xBF) || (0xC6 <= code <= 0xC7) || (0xD8 <= code <= 0xDF) || code == 0xE3 || (0xF0 <= code <= 0xF1) { (1, 0) }
    else if code == 0x06 || code == 0x0E || code == 0x16 || code == 0x1E || code == 0x9C || code == 0x9F || code == 0xC9 || code == 0xE2 { (2, 0) }
    else if code == 0x07 || code == 0x17 || code == 0x1F || (0x91 <= code <= 0x97) || code == 0x9D || (0xE0 <= code <= 0xE1) { (3, 0) }
    else if code == 0x27 || code == 0x2F || code == 0x9A || code == 0xCD || code == 0xCF { (10, 0) }
    else if code == 0x37 || code == 0x3F || code == 0x60 || code == 0xCA || code == 0xCC || code == 0xF4 { (9, 0) }
    else if code == 0x61 || code == 0xC8 || code == 0xCB || code == 0xD6 { (8, 0) }
    else if code == 0x62 { (13, 0) }
    else if code == 0x69 || code == 0x6B || code == 0x9E || code == 0xE9 || code == 0xEB || code == 0xF5 || (0xF8 <= code <= 0xFD) { (4, 0) }
    else if (0x6C <= code <= 0x6D) { (6, 6) }
    else if (0x6E <= code <= 0x6F) { (7, 7) }
    else if (0x86 <= code <= 0x87) || (0xAA <= code <= 0xAD) || (0xC0 <= code <= 0xC1) || (0xD2 <= code <= 0xD3) { (3, 2) }
    else if (0xA4 <= code <= 0xA5) { (5, 3) }
    else if (0xA6 <= code <= 0xA7) { (6, 4) }
    else if (0xAE <= code <= 0xAF) { (4, 3) }
    else if (0xC2 <= code <= 0xC5) || code == 0xCE || (0xE4 <= code <= 0xE7) || (0xEC <= code <= 0xEF) { (6, 0) }
    else if code == 0xD4 { (17, 0) }
    else if code == 0xD5 || code == 0xD7 || code == 0xE8 || (0xF2 <= code <= 0xF3) { (5, 0) }
    else { (7, 0) }
}

/// Base cycle count and memory-operand penalty of an opcode.
pub fn op_timing(code: u8) -> (r: (u8, u8))
    ensures
        r == spec_op_timing(code),
{
    if (0x00 <= code && code <= 0x01) || (0x08 <= code && code <= 0x09) || (0x10 <= code && code <= 0x11) || (0x18 <= code && code <= 0x19) || (0x20 <= code && code <= 0x21) || (0x28 <= code && code <= 0x29) || (0x30 <= code && code <= 0x31) || (0x80 <= code && code <= 0x83) || code == 0x8F || (0xD0 <= code && code <= 0xD1) || (0xFE <= code && code <= 0xFF) {
        (1, 2)
    } else if (0x02 <= code && code <= 0x03) || (0x0A <= code && code <= 0x0B) || (0x12 <= code && code <= 0x13) || (0x1A <= code && code <= 0x1B) || (0x22 <= code && code <= 0x23) || (0x2A <= code && code <= 0x2B) || (0x32 <= code && code <= 0x33) || (0x38 <= code && code <= 0x3B) || (0x84 <= code && code <= 0x85) || (0xF6 <= code && code <= 0xF7) {
        (1, 1)
    } else if (0x04 <= code && code <= 0x05) || (0x0C <= code && code <= 0x0D) || code == 0x0F || (0x14 <= code && code <= 0x15) || (0x1C <= code && code <= 0x1D) || (0x24 <= code && code <= 0x26) || (0x2C <= code && code <= 0x2E) || (0x34 <= code && code <= 0x36) || (0x3C <= code && code <= 0x3E) || (0x40 <= code && code <= 0x5F) || (0x63 <= code && code <= 0x68) || code == 0x6A || (0x70 <= code && code <= 0x7F) || (0x88 <= code && code <= 0x8E) || code == 0x90 || (0x98 <= code && code <= 0x99) || code == 0x9B || (0xA0 <= code && code <= 0xA3) || (0xA8 <= code && code <= 0xA9) || (0xB0 <= code && code <= 0xBF) || (0xC6 <= code && code <= 0xC7) || (0xD8 <= code && code <= 0xDF) || code == 0xE3 || (0xF0 <= code && code <= 0xF1) {
        (1, 0)
    } else if code == 0x06 || code == 0x0E || code == 0x16 || code == 0x1E || code == 0x9C || code == 0x9F || code == 0xC9 || code == 0xE2 {
        (2, 0)
    } else if code == 0x07 || code == 0x17 || code == 0x1F || (0x91 <= code && code <= 0x97) || code == 0x9D || (0xE0 <= code && code <= 0xE1) {
        (3, 0)
    } else if code == 0x27 || code == 0x2F || code == 0x9A || code == 0xCD || code == 0xCF {
        (10, 0)
    } else if code == 0x37 || code == 0x3F || code == 0x60 || code == 0xCA || code == 0xCC || code == 0xF4 {
        (9, 0)
    } else if code == 0x61 || code == 0xC8 || code == 0xCB || code == 0xD6 {
        (8, 0)
    } else if code == 0x62 {
        (13, 0)
    } else if code == 0x69 || code == 0x6B || code == 0x9E || code == 0xE9 || code == 0xEB || code == 0xF5 || (0xF8 <= code && code <= 0xFD) {
        (4, 0)
    } else if (0x6C <= code && code <= 0x6D) {
        (6, 6)
    } else if (0x6E <= code && code <= 0x6F) {
        (7, 7)
    } else if (0x86 <= code && code <= 0x87) || (0xAA <= code && code <= 0xAD) || (0xC0 <= code && code <= 0xC1) || (0xD2 <= code && code <= 0xD3) {
        (3, 2)
    } else if (0xA4 <= code && code <= 0xA5) {
        (5, 3)
    } else if (0xA6 <= code && code <= 0xA7) {
        (6, 4)
    } else if (0xAE <= code && code <= 0xAF) {
        (4, 3)
    } else if (0xC2 <= code && code <= 0xC5) || code == 0xCE || (0xE4 <= code && code <= 0xE7) || (0xEC <= code && code <= 0xEF) {
        (6, 0)
    } else if code == 0xD4 {
        (17, 0)
    } else if code == 0xD5 || code == 0xD7 || code == 0xE8 || (0xF2 <= code && code <= 0xF3) {
        (5, 0)
    } else {
        (7, 0)
    }
}

} // verus!
