use vstd::prelude::*;

verus! {

/// The 6502 processor status register (`P`): eight one-bit flags packed in a byte.
///
/// Every bit of the byte is a named flag, so any `u8` is a valid status value.
#[derive(Clone, Copy, Debug)]
pub struct CpuFlags {
    bits: u8,
}

impl View for CpuFlags {
    type V = u8;

    closed spec fn view(&self) -> u8 {
        self.bits
    }
}

/// A mask with exactly one bit set: one of the eight flags of the status register.
pub open spec fn is_single_flag(flag: u8) -> bool {
    ||| flag == 0b0000_0001u8
    ||| flag == 0b0000_0010u8
    ||| flag == 0b0000_0100u8
    ||| flag == 0b0000_1000u8
    ||| flag == 0b0001_0000u8
    ||| flag == 0b0010_0000u8
    ||| flag == 0b0100_0000u8
    ||| flag == 0b1000_0000u8
}

/// Whether every bit of `flag` is set in the status byte `p`.
pub open spec fn has_flag(p: u8, flag: u8) -> bool {
    p & flag == flag
}

/// The status byte `p` with the bits of `flag` set to `value`.
pub open spec fn with_flag(p: u8, flag: u8, value: bool) -> u8 {
    if value {
        p | flag
    } else {
        p & !flag
    }
}

impl CpuFlags {
    pub const CARRY: u8 = 0b0000_0001;
    pub const ZERO: u8 = 0b0000_0010;
    pub const INTERRUPT_DISABLE: u8 = 0b0000_0100;
    /// Decimal mode: it can be set and cleared, but the NES ignores it.
    pub const DECIMAL_MODE: u8 = 0b0000_1000;
    pub const BREAK: u8 = 0b0001_0000;
    pub const BREAK2: u8 = 0b0010_0000;
    pub const OVERFLOW: u8 = 0b0100_0000;
    pub const NEGATIVE: u8 = 0b1000_0000;

    /// Builds a status value from its byte. All eight bits are flags, so nothing is dropped.
    pub fn from_bits_truncate(bits: u8) -> (flags: CpuFlags)
        ensures
            flags@ == bits,
    {
        CpuFlags { bits }
    }

    /// The status byte.
    pub fn bits(&self) -> (bits: u8)
        ensures
            bits == self@,
    {
        self.bits
    }

    /// Whether all the bits of `flag` are set.
    pub fn contains(&self, flag: u8) -> (b: bool)
        ensures
            b == has_flag(self@, flag),
    {
        self.bits & flag == flag
    }

    /// Sets the bits of `flag`.
    pub fn insert(&mut self, flag: u8)
        ensures
            final(self)@ == old(self)@ | flag,
    {
        self.bits = self.bits | flag;
    }

    /// Clears the bits of `flag`.
    pub fn remove(&mut self, flag: u8)
        ensures
            final(self)@ == old(self)@ & !flag,
    {
        self.bits = self.bits & !flag;
    }

    /// Sets the bits of `flag` when `value` holds and clears them otherwise.
    pub fn set(&mut self, flag: u8, value: bool)
        ensures
            final(self)@ == with_flag(old(self)@, flag, value),
    {
        if value {
            self.insert(flag);
        } else {
            self.remove(flag);
        }
    }
}

/// Setting a flag to `value` makes `contains` answer `value` for that flag, and leaves
/// every other flag as it was.
pub proof fn lemma_with_flag(p: u8, flag: u8, value: bool, other: u8)
    requires
        is_single_flag(flag),
        is_single_flag(other),
    ensures
        has_flag(with_flag(p, flag, value), flag) == value,
        other != flag ==> has_flag(with_flag(p, flag, value), other) == has_flag(p, other),
{
    if value {
        assert(((p | flag) & flag) == flag) by (bit_vector);
        assert(is_single_flag(flag) && is_single_flag(other) && other != flag ==> (((p | flag)
            & other) == other) == ((p & other) == other)) by (bit_vector);
    } else {
        assert(is_single_flag(flag) ==> ((p & !flag) & flag) != flag) by (bit_vector);
        assert(is_single_flag(flag) && is_single_flag(other) && other != flag ==> (((p & !flag)
            & other) == other) == ((p & other) == other)) by (bit_vector);
    }
}

} // verus!
