//! The status register: eight named bits in one byte.

use vstd::prelude::*;

verus! {

/// Bit position of the carry flag (C).
pub const CARRY: i8 = 0;

/// Bit position of the zero flag (Z).
pub const ZERO: i8 = 1;

/// Bit position of the interrupt-disable flag (I).
pub const IRQ_DISABLED: i8 = 2;

/// Bit position of the decimal flag (D).
pub const DECIMAL: i8 = 3;

/// Bit position of the break flag (B).
pub const BREAK: i8 = 4;

/// Bit position of the unused flag (U).
pub const IGNORED: i8 = 5;

/// Bit position of the overflow flag (V).
pub const OVERFLOW: i8 = 6;

/// Bit position of the negative flag (N).
pub const NEGATIVE: i8 = 7;

/// The byte in which only bit `bit` is set.
pub open spec fn mask(bit: i8) -> u8 {
    1u8 << (bit as u8)
}

/// Whether bit `bit` of `sr` is set.
pub open spec fn flag(sr: u8, bit: i8) -> bool {
    sr & mask(bit) != 0
}

/// `sr` with bit `bit` set (`on`) or cleared, and every other bit as it was.
pub open spec fn with_flag(sr: u8, bit: i8, on: bool) -> u8 {
    if on {
        sr | mask(bit)
    } else {
        sr & !mask(bit)
    }
}

/// `sr` with Z set exactly when `v` is zero and N equal to bit 7 of `v`.
pub open spec fn with_nz(sr: u8, v: u8) -> u8 {
    with_flag(with_flag(sr, ZERO, v == 0), NEGATIVE, v >= 0x80)
}

/// Reading a bit after writing one: the written bit has the written value,
/// every other bit keeps its own.
pub proof fn lemma_flag_of_with_flag(sr: u8, bit: i8, on: bool, other: i8)
    requires
        0 <= bit < 8,
        0 <= other < 8,
    ensures
        flag(with_flag(sr, bit, on), other) == (if other == bit { on } else { flag(sr, other) }),
{
    let b = bit as u8;
    let o = other as u8;
    assert(b < 8 && o < 8 ==> (((sr | (1u8 << b)) & (1u8 << o) != 0) == (if o == b {
        true
    } else {
        sr & (1u8 << o) != 0
    }))) by (bit_vector);
    assert(b < 8 && o < 8 ==> (((sr & !(1u8 << b)) & (1u8 << o) != 0) == (if o == b {
        false
    } else {
        sr & (1u8 << o) != 0
    }))) by (bit_vector);
}

/// Shifting bit `bit` down to the bottom and masking it reads the same bit.
pub proof fn lemma_flag_by_shift(sr: u8, bit: i8)
    requires
        0 <= bit < 8,
    ensures
        ((sr >> (bit as u8)) & 1u8 == 1u8) == flag(sr, bit),
{
    let b = bit as u8;
    assert(b < 8 ==> (((sr >> b) & 1u8 == 1u8) == (sr & (1u8 << b) != 0))) by (bit_vector);
}

} // verus!
