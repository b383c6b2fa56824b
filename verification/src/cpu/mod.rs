//! The WonderSwan's CPU, an NEC V30MZ, and what decoding its instructions needs.
use vstd::prelude::*;

pub mod flags;
pub mod opcode;
pub mod v30mz;

verus! {

/// Operands that an instruction uses.
#[derive(Clone, Copy, PartialEq, Eq, Structural, Debug)]
pub enum Operand {
    /// The instruction contains a mod/r/m byte
    MEMORY,
    /// The instruction uses a register operand
    REGISTER,
    /// The instruction uses the AW register
    ACCUMULATOR,
    /// The instruction takes bytes of the program as an argument
    IMMEDIATE,
    /// The instruction takes a single immediate byte and sign-extends it to a word
    IMMEDIATE_S,
    /// The instruction uses a segment register
    SEGMENT,
    /// The instruction takes immediate bytes as a memory offset
    DIRECT,
    /// The instruction takes no argument, or predetermined arguments
    NONE,
}

/// Operand width of an operation.
#[derive(Clone, Copy, PartialEq, Eq, Structural, Debug)]
pub enum Mode {
    /// 8-bit mode
    M8,
    /// 16-bit mode
    M16,
    /// 32-bit mode
    M32,
}

/// The register a mod/r/m field names: the index of a word register, and which part of it.
#[derive(Clone, Copy, PartialEq, Eq, Structural, Debug)]
pub enum RegisterType {
    /// A whole word register (AW, CW, DW, BW, SP, BP, IX, IY)
    RW(u8),
    /// The high byte of AW, CW, DW or BW
    RH(u8),
    /// The low byte of AW, CW, DW or BW
    RL(u8),
}

/// The result of interpreting a mod/r/m byte.
#[derive(Clone, Copy, PartialEq, Eq, Structural, Debug)]
pub enum MemOperand {
    /// A memory offset within the segment
    Offset(u16),
    /// A register
    Register(RegisterType),
}

/// `dest` with its high byte replaced by `src`.
pub open spec fn spec_swap_h(dest: u16, src: u8) -> u16 {
    (dest % 256 + src * 256) as u16
}

/// `dest` with its low byte replaced by `src`.
pub open spec fn spec_swap_l(dest: u16, src: u8) -> u16 {
    ((dest / 256) * 256 + src) as u16
}

/// Replaces the high byte of a word.
pub fn swap_h(dest: u16, src: u8) -> (r: u16)
    ensures
        r == spec_swap_h(dest, src),
{
    let s = src as u16;
    assert((dest & 0x00FF) | (s << 8u16) == dest % 256 + s * 256) by (bit_vector) requires s < 256;
    (dest & 0x00FF) | (s << 8u16)
}

/// Replaces the low byte of a word.
pub fn swap_l(dest: u16, src: u8) -> (r: u16)
    ensures
        r == spec_swap_l(dest, src),
{
    let s = src as u16;
    assert((dest & 0xFF00) | s == (dest / 256) * 256 + s) by (bit_vector) requires s < 256;
    (dest & 0xFF00) | s
}

/// Number of set bits among the `n` lowest bits of `x`.
pub open spec fn ones_below(x: u8, n: nat) -> nat
    decreases n,
{
    if n == 0 {
        0
    } else {
        ones_below(x, (n - 1) as nat) + ((x >> ((n - 1) as u8)) & 1) as nat
    }
}

/// Whether a byte has an even number of set bits.
pub open spec fn even_parity(x: u8) -> bool {
    ones_below(x, 8) % 2 == 0
}

/// Whether a byte has an even number of set bits.
pub fn parity(x: u8) -> (r: bool)
    ensures
        r == even_parity(x),
{
    let mut count: u8 = 0;
    let mut i: u8 = 0;
    while i < 8
        invariant
            i <= 8,
            count as nat == ones_below(x, i as nat),
            count <= i,
        decreases 8 - i,
    {
        let bit = (x >> i) & 1;
        proof {
            crate::bits::lemma_byte_shift(x, i);
        }
        count = count + bit;
        i = i + 1;
    }
    count % 2 == 0
}

} // verus!
