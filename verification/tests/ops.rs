//! Unit tests of the shared 64-bit operation semantics.

use rvsim::ops::{addw, low32, sext16, sext32, sext8, signed_lt, sra32, sra64, sraw, sllw, srlw, subw, wrap_add, wrap_sub};

#[test]
fn wrapping_arithmetic() {
    assert_eq!(wrap_add(u64::MAX, 1), 0);
    assert_eq!(wrap_add(u64::MAX, 5), 4);
    assert_eq!(wrap_add(1, 2), 3);
    assert_eq!(wrap_sub(0, 1), u64::MAX);
    assert_eq!(wrap_sub(5, 7), u64::MAX - 1);
    assert_eq!(wrap_sub(7, 5), 2);
}

#[test]
fn sign_extension() {
    assert_eq!(sext8(0x7F), 0x7F);
    assert_eq!(sext8(0x80), 0xFFFF_FFFF_FFFF_FF80);
    assert_eq!(sext8(0x1FF), 0xFFFF_FFFF_FFFF_FFFF);
    assert_eq!(sext16(0x8000), 0xFFFF_FFFF_FFFF_8000);
    assert_eq!(sext16(0x7FFF), 0x7FFF);
    assert_eq!(sext32(0x8000_0000), 0xFFFF_FFFF_8000_0000);
    assert_eq!(sext32(0x7FFF_FFFF), 0x7FFF_FFFF);
    assert_eq!(low32(0x1234_5678_9ABC_DEF0), 0x9ABC_DEF0);
}

#[test]
fn signed_comparison() {
    assert!(signed_lt(u64::MAX, 0)); // -1 < 0
    assert!(!signed_lt(0, u64::MAX));
    assert!(signed_lt(1, 2));
    assert!(!signed_lt(2, 2));
    assert!(signed_lt(0x8000_0000_0000_0000, 0x7FFF_FFFF_FFFF_FFFF));
}

#[test]
fn arithmetic_shifts() {
    assert_eq!(sra64(0x8000_0000_0000_0000, 1), 0xC000_0000_0000_0000);
    assert_eq!(sra64(0x8000_0000_0000_0000, 63), u64::MAX);
    assert_eq!(sra64(0x4000_0000_0000_0000, 1), 0x2000_0000_0000_0000);
    assert_eq!(sra64(7, 0), 7);
    assert_eq!(sra32(0x8000_0000, 4), 0xF800_0000);
    assert_eq!(sra32(0x0800_0000, 4), 0x0080_0000);
}

#[test]
fn word_operations() {
    // ADDW(a, b) == sign_extend_32((a + b) & 0xFFFFFFFF)
    assert_eq!(addw(0xFFFF_FFFF_8000_0000, 0xFFFF_FFFF_8000_0000), 0);
    assert_eq!(addw(0x7FFF_FFFF, 1), 0xFFFF_FFFF_8000_0000);
    assert_eq!(addw(1, 2), 3);
    assert_eq!(subw(0, 1), u64::MAX);
    assert_eq!(subw(0x8000_0000, 1), 0x7FFF_FFFF);
    assert_eq!(sllw(1, 31), 0xFFFF_FFFF_8000_0000);
    assert_eq!(srlw(0xFFFF_FFFF_0000_0000, 1), 0);
    assert_eq!(srlw(0x8000_0000, 31), 1);
    assert_eq!(sraw(0x8000_0000, 31), u64::MAX);
    assert_eq!(sraw(0x4000_0000, 1), 0x2000_0000);
}
