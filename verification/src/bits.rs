//! Two's-complement arithmetic on the machine's word sizes: sign
//! extension of the narrow immediate fields and memory operands, and
//! wraparound (modulo 2^64) address and register arithmetic.

use vstd::prelude::*;

verus! {

/// Value of an 8-bit memory operand read as a signed quantity.
pub open spec fn sext8(b: u8) -> int {
    if b < 0x80 {
        b as int
    } else {
        b as int - 0x100
    }
}

/// Value of a 12-bit immediate field read as a signed quantity.
pub open spec fn sext12(f: u32) -> int {
    if f < 0x800 {
        f as int
    } else {
        f as int - 0x1000
    }
}

/// Value of a 13-bit immediate field read as a signed quantity.
pub open spec fn sext13(f: u32) -> int {
    if f < 0x1000 {
        f as int
    } else {
        f as int - 0x2000
    }
}

/// Value of a 16-bit memory operand read as a signed quantity.
pub open spec fn sext16(h: u16) -> int {
    if h < 0x8000 {
        h as int
    } else {
        h as int - 0x1_0000
    }
}

/// Value of a 21-bit immediate field read as a signed quantity.
pub open spec fn sext21(f: u32) -> int {
    if f < 0x10_0000 {
        f as int
    } else {
        f as int - 0x20_0000
    }
}

/// Value of a 32-bit word read as a signed quantity.
pub open spec fn sext32(f: u32) -> int {
    if f < 0x8000_0000 {
        f as int
    } else {
        f as int - 0x1_0000_0000
    }
}

/// The 64-bit two's-complement encoding of `v`.
/// Meaningful for -2^63 <= v < 2^64.
pub open spec fn to_u64(v: int) -> u64 {
    if v < 0 {
        (v + 0x1_0000_0000_0000_0000) as u64
    } else {
        v as u64
    }
}

/// The signed value encoded by a 64-bit register word.
pub open spec fn as_signed(x: u64) -> int {
    if x < 0x8000_0000_0000_0000 {
        x as int
    } else {
        x as int - 0x1_0000_0000_0000_0000
    }
}

/// `x + d` reduced modulo 2^64.
/// Meaningful for -2^64 <= x + d < 2^65, which covers the sum or
/// difference of two 64-bit words and a sign-extended immediate offset.
pub open spec fn wrap_add(x: u64, d: int) -> u64 {
    if x + d < 0 {
        (x + d + 0x1_0000_0000_0000_0000) as u64
    } else if x + d > u64::MAX {
        (x + d - 0x1_0000_0000_0000_0000) as u64
    } else {
        (x + d) as u64
    }
}

/// A masked shift amount stays below the register width.
pub proof fn lemma_shamt_ranges(x: u64)
    by (bit_vector)
    ensures
        x & 0x1f < 32,
        x & 0x3f < 64,
{
}

/// Each byte extracted from a 64-bit word fits in 8 bits.
pub proof fn lemma_byte_ranges(v: u64)
    by (bit_vector)
    ensures
        v & 0xff < 0x100,
        (v >> 8) & 0xff < 0x100,
        (v >> 16) & 0xff < 0x100,
        (v >> 24) & 0xff < 0x100,
{
}

/// The 64-bit two's-complement encoding of a sign-extended immediate.
pub fn imm_to_u64(imm: i32) -> (r: u64)
    ensures
        r == to_u64(imm as int),
{
    if imm >= 0 {
        imm as u64
    } else {
        0xFFFF_FFFF_0000_0000u64 + ((imm as i64 + 0x1_0000_0000i64) as u64)
    }
}

/// Signed comparison of two 64-bit register words.
pub fn signed_lt(a: u64, b: u64) -> (r: bool)
    ensures
        r == (as_signed(a) < as_signed(b)),
{
    let a_neg = a >= 0x8000_0000_0000_0000;
    let b_neg = b >= 0x8000_0000_0000_0000;
    if a_neg == b_neg {
        a < b
    } else {
        a_neg
    }
}

} // verus!
