//! The status word P and its seven named single-bit fields.
use vstd::prelude::*;

verus! {

/// The named bits of the 8-bit status register, from bit 0 upward:
/// Carry, Zero, Interrupt-disable, Decimal (stored but unused by
/// arithmetic), Break, Unused (conventionally 1), Overflow, Negative.
#[derive(Clone, Copy, PartialEq, Eq, Structural, Debug)]
pub enum FLAGS6502 {
    C,
    Z,
    I,
    D,
    B,
    U,
    V,
    N,
}

/// The bit mask of a flag, fixed by the architecture: C=bit0 .. N=bit7.
pub open spec fn spec_flag_mask(f: FLAGS6502) -> u8 {
    match f {
        FLAGS6502::C => 0x01u8,
        FLAGS6502::Z => 0x02u8,
        FLAGS6502::I => 0x04u8,
        FLAGS6502::D => 0x08u8,
        FLAGS6502::B => 0x10u8,
        FLAGS6502::U => 0x20u8,
        FLAGS6502::V => 0x40u8,
        FLAGS6502::N => 0x80u8,
    }
}

/// Executable counterpart of [`spec_flag_mask`].
pub fn flag_mask(f: FLAGS6502) -> (r: u8)
    ensures
        r == spec_flag_mask(f),
{
    match f {
        FLAGS6502::C => 0x01u8,
        FLAGS6502::Z => 0x02u8,
        FLAGS6502::I => 0x04u8,
        FLAGS6502::D => 0x08u8,
        FLAGS6502::B => 0x10u8,
        FLAGS6502::U => 0x20u8,
        FLAGS6502::V => 0x40u8,
        FLAGS6502::N => 0x80u8,
    }
}

/// Value of one flag bit of the status word `p`: 0 or 1.
pub open spec fn spec_get_flag(p: u8, f: FLAGS6502) -> u8 {
    if p & spec_flag_mask(f) != 0 {
        1u8
    } else {
        0u8
    }
}

/// The status word `p` with exactly the bit of `f` set to `v`.
pub open spec fn spec_set_flag(p: u8, f: FLAGS6502, v: bool) -> u8 {
    if v {
        p | spec_flag_mask(f)
    } else {
        p & !spec_flag_mask(f)
    }
}

/// Whether one flag bit of the status word `p` is set.
pub open spec fn spec_flag_set(p: u8, f: FLAGS6502) -> bool {
    p & spec_flag_mask(f) != 0
}

} // verus!
