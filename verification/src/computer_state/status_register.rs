//! The processor status register: a packed byte of single-bit flags.
//!
//! Flags are passed around as plain `u8` masks built from the constants
//! below, and combine by bitwise union / difference, never by arithmetic.

use vstd::prelude::*;

verus! {

/// The status register. Its view is the raw flag byte.
#[derive(Clone, Copy, PartialEq, Eq, Structural, Debug)]
pub struct StatusRegister {
    data: u8,
}

impl View for StatusRegister {
    type V = u8;

    closed spec fn view(&self) -> u8 {
        self.data
    }
}

impl StatusRegister {
    /// Negative flag
    pub const N: u8 = 0x01;

    /// Overflow flag
    pub const V: u8 = 0x02;

    /// Break flag
    pub const B: u8 = 0x04;

    /// Decimal flag
    pub const D: u8 = 0x08;

    /// Interrupt disable flag
    pub const I: u8 = 0x10;

    /// Zero flag
    pub const Z: u8 = 0x20;

    /// Carry flag
    pub const C: u8 = 0x40;

    /// Empty flag set
    pub const EMPTY: u8 = 0x00;

    /// Constructs a status register with every flag clear
    pub fn new() -> (r: Self)
        ensures
            r@ == 0,
    {
        Self { data: 0 }
    }

    /// Constructs a status register holding the given raw flag byte
    pub fn from_byte(flags: u8) -> (r: Self)
        ensures
            r@ == flags,
    {
        Self { data: flags }
    }

    /// Returns the raw flag byte
    pub fn as_byte(&self) -> (r: u8)
        ensures
            r == self@,
    {
        self.data
    }

    /// Returns the union of the held flags and the given flags
    pub fn union(&self, flags: u8) -> (r: Self)
        ensures
            r@ == (self@ | flags),
    {
        Self { data: self.data | flags }
    }

    /// Returns the intersection of the held flags and the given flags
    pub fn intersect(&self, flags: u8) -> (r: Self)
        ensures
            r@ == (self@ & flags),
    {
        Self { data: self.data & flags }
    }

    /// Returns the held flags with the given flags removed
    pub fn difference(&self, flags: u8) -> (r: Self)
        ensures
            r@ == (self@ & !flags),
    {
        Self { data: self.data & !flags }
    }

    /// True if no flag is set
    pub fn is_empty(&self) -> (r: bool)
        ensures
            r == (self@ == 0),
    {
        self.data == 0
    }

    /// True if at least one of the given flags is set
    pub fn contains(&self, flag: u8) -> (r: bool)
        ensures
            r == has_flag(self@, flag),
    {
        self.data & flag != 0
    }

    /// True if exactly the given flags are set and no others
    pub fn contains_only(&self, flags: u8) -> (r: bool)
        ensures
            r == (self@ == flags),
    {
        self.data == flags
    }

    /// True if at least one of the given flags is set
    pub fn flag_value(&self, flag: u8) -> (r: bool)
        ensures
            r == has_flag(self@, flag),
    {
        self.data & flag != 0
    }
}

/// The flags an addition or subtraction rewrites: Carry, Zero, Negative
/// and Overflow.
pub const CZNV_FLAGS: u8 = StatusRegister::C | StatusRegister::Z | StatusRegister::N
    | StatusRegister::V;

/// The flags a load, logic, increment or transfer rewrites: Zero and
/// Negative.
pub const ZN_FLAGS: u8 = StatusRegister::Z | StatusRegister::N;

/// The flags a shift, rotate or compare rewrites: Carry, Zero and
/// Negative.
pub const CZN_FLAGS: u8 = StatusRegister::C | StatusRegister::Z | StatusRegister::N;

/// The flags a bit test rewrites: Zero, Negative and Overflow.
pub const ZNV_FLAGS: u8 = StatusRegister::Z | StatusRegister::N | StatusRegister::V;

/// True if the flag byte `s` intersects the mask `flag`.
pub open spec fn has_flag(s: u8, flag: u8) -> bool {
    s & flag != 0
}

/// The given flag mask when the condition holds, the empty mask otherwise.
pub open spec fn cond_mask(flag: u8, cond: bool) -> u8 {
    if cond {
        flag
    } else {
        0
    }
}

/// The Zero and Negative flags that an 8-bit result gives rise to:
/// Zero iff the result is 0, Negative iff its top bit is set.
pub open spec fn spec_zero_neg_flags(n: u8) -> u8 {
    cond_mask(StatusRegister::Z, n == 0) | cond_mask(StatusRegister::N, n >= 0x80)
}

/// Returns the given flag mask if the condition is true, else the empty mask
pub fn get_cond_flag(flag: u8, cond: bool) -> (r: u8)
    ensures
        r == cond_mask(flag, cond),
{
    if cond {
        flag
    } else {
        0
    }
}

/// Returns the Zero and Negative flags arising from an 8-bit result
pub fn get_zero_neg_flags(n: u8) -> (r: u8)
    ensures
        r == spec_zero_neg_flags(n),
{
    get_cond_flag(StatusRegister::Z, n == 0) | get_cond_flag(StatusRegister::N, n >= 0x80)
}

/// The status byte after an operation that rewrites the flags in `clear`
/// with the freshly computed flags `fl`, leaving every other flag alone.
pub open spec fn merge_flags(sta: u8, clear: u8, fl: u8) -> u8 {
    (sta & !clear) | fl
}

/// Every operation that updates Zero and Negative leaves them consistent
/// with its 8-bit result: after merging, Zero is set iff the result is 0
/// and Negative is set iff the result's top bit is set, while flags
/// outside the rewritten set keep their old values.
pub proof fn merged_zero_neg_consistent(sta: u8, clear: u8, extra: u8, n: u8)
    requires
        clear & StatusRegister::Z == StatusRegister::Z,
        clear & StatusRegister::N == StatusRegister::N,
        extra & (StatusRegister::Z | StatusRegister::N) == 0,
    ensures
        has_flag(merge_flags(sta, clear, spec_zero_neg_flags(n) | extra), StatusRegister::Z) <==> n
            == 0,
        has_flag(merge_flags(sta, clear, spec_zero_neg_flags(n) | extra), StatusRegister::N) <==> n
            >= 0x80,
        merge_flags(sta, clear, spec_zero_neg_flags(n) | extra) & !(clear | extra) == sta & !(clear
            | extra),
{
    assert(has_flag(merge_flags(sta, clear, spec_zero_neg_flags(n) | extra), StatusRegister::Z)
        <==> n == 0) by (bit_vector)
        requires
            clear & StatusRegister::Z == StatusRegister::Z,
            extra & (StatusRegister::Z | StatusRegister::N) == 0,
    ;
    assert(has_flag(merge_flags(sta, clear, spec_zero_neg_flags(n) | extra), StatusRegister::N)
        <==> n >= 0x80) by (bit_vector)
        requires
            clear & StatusRegister::N == StatusRegister::N,
            extra & (StatusRegister::Z | StatusRegister::N) == 0,
    ;
    assert(merge_flags(sta, clear, spec_zero_neg_flags(n) | extra) & !(clear | extra) == sta & !(
    clear | extra)) by (bit_vector)
        requires
            clear & StatusRegister::Z == StatusRegister::Z,
            clear & StatusRegister::N == StatusRegister::N,
    ;
}

} // verus!
