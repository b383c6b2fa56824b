//! The program status word of the V30MZ.
use vstd::prelude::*;

verus! {

/// The program status word: a 16-bit set of flags.
#[derive(Clone, Copy, PartialEq, Eq, Structural, Debug)]
pub struct CpuStatus {
    pub bits: u16,
}

impl CpuStatus {
    pub const FIXED_ON_1: u16 = 0x8000;
    pub const FIXED_ON_2: u16 = 0x4000;
    pub const FIXED_ON_3: u16 = 0x2000;
    pub const FIXED_ON_4: u16 = 0x1000;
    /// Set when the result of an operation is too large
    pub const OVERFLOW: u16 = 0x0800;
    /// Specifies the direction of a block operation
    pub const DIRECTION: u16 = 0x0400;
    /// When set, interrupts are processed
    pub const INTERRUPT: u16 = 0x0200;
    /// When set, an exception with vector 1 is raised after each instruction
    pub const BREAK: u16 = 0x0100;
    /// Set when the result of an operation is negative
    pub const SIGN: u16 = 0x0080;
    /// Set when the result of an operation is zero
    pub const ZERO: u16 = 0x0040;
    pub const FIXED_OFF_1: u16 = 0x0020;
    /// Carry out of the lowest 4 bits of an operation
    pub const AUX_CARRY: u16 = 0x0010;
    pub const FIXED_OFF_2: u16 = 0x0008;
    /// Set when the lowest 8 bits of a result hold an even number of set bits
    pub const PARITY: u16 = 0x0004;
    pub const FIXED_ON_5: u16 = 0x0002;
    /// Set when an operation produces a carry or a borrow
    pub const CARRY: u16 = 0x0001;

    /// Whether all the bits of `flag` are set.
    pub open spec fn has(self, flag: u16) -> bool {
        self.bits & flag == flag
    }

    /// The flags with `flag` set or cleared.
    pub open spec fn with(self, flag: u16, value: bool) -> CpuStatus {
        if value { CpuStatus { bits: self.bits | flag } } else { CpuStatus { bits: self.bits & !flag } }
    }

    /// A status word holding the given bits; every bit of a word is a defined flag.
    pub fn from_bits_truncate(bits: u16) -> (r: CpuStatus)
        ensures
            r.bits == bits,
    {
        CpuStatus { bits }
    }

    /// The raw bits.
    pub fn bits(&self) -> (r: u16)
        ensures
            r == self.bits,
    {
        self.bits
    }

    /// Whether all the bits of `flag` are set.
    pub fn contains(&self, flag: u16) -> (r: bool)
        ensures
            r == self.has(flag),
    {
        self.bits & flag == flag
    }

    /// Sets the bits of `flag`.
    pub fn insert(&mut self, flag: u16)
        ensures
            *final(self) == old(self).with(flag, true),
    {
        self.bits = self.bits | flag;
    }

    /// Clears the bits of `flag`.
    pub fn remove(&mut self, flag: u16)
        ensures
            *final(self) == old(self).with(flag, false),
    {
        self.bits = self.bits & !flag;
    }

    /// Sets or clears the bits of `flag`.
    pub fn set(&mut self, flag: u16, value: bool)
        ensures
            *final(self) == old(self).with(flag, value),
    {
        if value {
            self.insert(flag);
        } else {
            self.remove(flag);
        }
    }

    /// Flips the bits of `flag`.
    pub fn toggle(&mut self, flag: u16)
        ensures
            final(self).bits == old(self).bits ^ flag,
    {
        self.bits = self.bits ^ flag;
    }

    /// The flags set in either word.
    pub fn union(&self, other: CpuStatus) -> (r: CpuStatus)
        ensures
            r.bits == self.bits | other.bits,
    {
        CpuStatus { bits: self.bits | other.bits }
    }
}

/// A single-bit flag is set after `with(flag, true)` and clear after `with(flag, false)`,
/// and other single-bit flags are left alone.
pub proof fn lemma_with_flag(s: CpuStatus, flag: u16, other: u16, value: bool)
    requires
        flag == 1 || flag == 2 || flag == 4 || flag == 8 || flag == 0x10 || flag == 0x20 || flag == 0x40
            || flag == 0x80 || flag == 0x100 || flag == 0x200 || flag == 0x400 || flag == 0x800,
        other & flag == 0,
    ensures
        s.with(flag, value).has(flag) == value,
        s.with(flag, value).has(other) == s.has(other),
{
    let b = s.bits;
    assert((b | flag) & flag == flag) by (bit_vector);
    assert(flag != 0 ==> (b & !flag) & flag != flag) by (bit_vector);
    assert(other & flag == 0 ==> (((b | flag) & other == other) == (b & other == other))) by (bit_vector);
    assert(other & flag == 0 ==> (((b & !flag) & other == other) == (b & other == other))) by (bit_vector);
}

} // verus!
