//! Bit-exact 64-bit operation semantics shared by the instruction executors.
//!
//! All architectural arithmetic is unsigned and wrapping; signed comparisons
//! reinterpret operands as two's complement at the point of use, and the
//! 32-bit word-width operations compute on the low 32 bits and sign-extend
//! the result into 64 bits.

use vstd::prelude::*;

verus! {

/// 64-bit wrapping addition.
pub open spec fn spec_wrap_add(a: u64, b: u64) -> u64 {
    ((a + b) % 0x1_0000_0000_0000_0000) as u64
}

/// 64-bit wrapping subtraction.
pub open spec fn spec_wrap_sub(a: u64, b: u64) -> u64 {
    ((a + 0x1_0000_0000_0000_0000 - b) % 0x1_0000_0000_0000_0000) as u64
}

/// The two's-complement reading of a 64-bit value.
pub open spec fn as_signed(a: u64) -> int {
    if a >= 0x8000_0000_0000_0000 {
        a - 0x1_0000_0000_0000_0000
    } else {
        a as int
    }
}

/// The low 32 bits of a value.
pub open spec fn spec_low32(a: u64) -> u64 {
    a % 0x1_0000_0000
}

/// Sign-extend the low 8 bits of a value to 64 bits.
pub open spec fn spec_sext8(v: u64) -> u64 {
    if v % 0x100 >= 0x80 {
        (v % 0x100 + 0xFFFF_FFFF_FFFF_FF00) as u64
    } else {
        v % 0x100
    }
}

/// Sign-extend the low 16 bits of a value to 64 bits.
pub open spec fn spec_sext16(v: u64) -> u64 {
    if v % 0x1_0000 >= 0x8000 {
        (v % 0x1_0000 + 0xFFFF_FFFF_FFFF_0000) as u64
    } else {
        v % 0x1_0000
    }
}

/// Sign-extend the low 32 bits of a value to 64 bits.
pub open spec fn spec_sext32(v: u64) -> u64 {
    if v % 0x1_0000_0000 >= 0x8000_0000 {
        (v % 0x1_0000_0000 + 0xFFFF_FFFF_0000_0000) as u64
    } else {
        v % 0x1_0000_0000
    }
}

/// Arithmetic (sign-filling) right shift of a 64-bit value.
pub open spec fn spec_sra64(a: u64, sh: u64) -> u64 {
    if a >= 0x8000_0000_0000_0000 {
        ((a >> sh) + (u64::MAX - (u64::MAX >> sh))) as u64
    } else {
        a >> sh
    }
}

/// Arithmetic (sign-filling) right shift of a 32-bit value.
pub open spec fn spec_sra32(a: u32, sh: u32) -> u32 {
    if a >= 0x8000_0000 {
        ((a >> sh) + (u32::MAX - (u32::MAX >> sh))) as u32
    } else {
        a >> sh
    }
}

/// 32-bit word addition: wrapping add, then sign-extend the low word.
pub open spec fn spec_addw(a: u64, b: u64) -> u64 {
    spec_sext32(spec_wrap_add(a, b))
}

/// 32-bit word subtraction: wrapping subtract, then sign-extend the low word.
pub open spec fn spec_subw(a: u64, b: u64) -> u64 {
    spec_sext32(spec_wrap_sub(a, b))
}

/// 32-bit word left shift, sign-extended.
pub open spec fn spec_sllw(a: u64, sh: u32) -> u64 {
    spec_sext32(((spec_low32(a) as u32) << sh) as u64)
}

/// 32-bit word logical right shift, sign-extended.
pub open spec fn spec_srlw(a: u64, sh: u32) -> u64 {
    spec_sext32(((spec_low32(a) as u32) >> sh) as u64)
}

/// 32-bit word arithmetic right shift, sign-extended.
pub open spec fn spec_sraw(a: u64, sh: u32) -> u64 {
    spec_sext32(spec_sra32(spec_low32(a) as u32, sh) as u64)
}

/// A right shift never exceeds the all-ones value shifted by the same amount.
pub proof fn lemma_shr_bounds()
    by (bit_vector)
    ensures
        forall|a: u64, sh: u64| sh < 64 ==> #[trigger] (a >> sh) <= u64::MAX >> sh,
        forall|a: u32, sh: u32| sh < 32 ==> #[trigger] (a >> sh) <= u32::MAX >> sh,
{
}

pub fn wrap_add(a: u64, b: u64) -> (r: u64)
    ensures
        r == spec_wrap_add(a, b),
{
    (((a as u128) + (b as u128)) % 0x1_0000_0000_0000_0000u128) as u64
}

pub fn wrap_sub(a: u64, b: u64) -> (r: u64)
    ensures
        r == spec_wrap_sub(a, b),
{
    (((a as u128) + 0x1_0000_0000_0000_0000u128 - (b as u128)) % 0x1_0000_0000_0000_0000u128) as u64
}

/// Whether `a < b` when both are read as two's-complement values.
pub fn signed_lt(a: u64, b: u64) -> (r: bool)
    ensures
        r == (as_signed(a) < as_signed(b)),
{
    let a_neg = a >= 0x8000_0000_0000_0000;
    let b_neg = b >= 0x8000_0000_0000_0000;
    if a_neg == b_neg {
        a < b
    } else {
        a_neg
    }
}

pub fn low32(a: u64) -> (r: u64)
    ensures
        r == spec_low32(a),
{
    a % 0x1_0000_0000
}

pub fn sext8(v: u64) -> (r: u64)
    ensures
        r == spec_sext8(v),
{
    let low = v % 0x100;
    if low >= 0x80 {
        low + 0xFFFF_FFFF_FFFF_FF00
    } else {
        low
    }
}

pub fn sext16(v: u64) -> (r: u64)
    ensures
        r == spec_sext16(v),
{
    let low = v % 0x1_0000;
    if low >= 0x8000 {
        low + 0xFFFF_FFFF_FFFF_0000
    } else {
        low
    }
}

pub fn sext32(v: u64) -> (r: u64)
    ensures
        r == spec_sext32(v),
{
    let low = v % 0x1_0000_0000;
    if low >= 0x8000_0000 {
        low + 0xFFFF_FFFF_0000_0000
    } else {
        low
    }
}

pub fn sra64(a: u64, sh: u64) -> (r: u64)
    requires
        sh < 64,
    ensures
        r == spec_sra64(a, sh),
{
    proof {
        lemma_shr_bounds();
    }
    if a >= 0x8000_0000_0000_0000 {
        (a >> sh) + (u64::MAX - (u64::MAX >> sh))
    } else {
        a >> sh
    }
}

pub fn sra32(a: u32, sh: u32) -> (r: u32)
    requires
        sh < 32,
    ensures
        r == spec_sra32(a, sh),
{
    proof {
        lemma_shr_bounds();
    }
    if a >= 0x8000_0000 {
        (a >> sh) + (u32::MAX - (u32::MAX >> sh))
    } else {
        a >> sh
    }
}

pub fn addw(a: u64, b: u64) -> (r: u64)
    ensures
        r == spec_addw(a, b),
{
    sext32(wrap_add(a, b))
}

pub fn subw(a: u64, b: u64) -> (r: u64)
    ensures
        r == spec_subw(a, b),
{
    sext32(wrap_sub(a, b))
}

pub fn sllw(a: u64, sh: u32) -> (r: u64)
    requires
        sh < 32,
    ensures
        r == spec_sllw(a, sh),
{
    sext32(((low32(a) as u32) << sh) as u64)
}

pub fn srlw(a: u64, sh: u32) -> (r: u64)
    requires
        sh < 32,
    ensures
        r == spec_srlw(a, sh),
{
    sext32(((low32(a) as u32) >> sh) as u64)
}

pub fn sraw(a: u64, sh: u32) -> (r: u64)
    requires
        sh < 32,
    ensures
        r == spec_sraw(a, sh),
{
    sext32(sra32(low32(a) as u32, sh) as u64)
}

} // verus!
