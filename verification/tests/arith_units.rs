//! Unit tests of the width-correct arithmetic, comparisons, extensions and
//! decimal rendering.

use llvm_interp::arith::{eval_int_exec, icmp_exec, sext_exec, zext_exec, int_traps_exec};
use llvm_interp::bytes::{bytes_eq, copy_bytes};
use llvm_interp::fmt::{push_dec_signed, push_dec_u64};
use llvm_interp::ir::{IntOp, Pred};

fn enc32(v: i32) -> u64 {
    (v as u32) as u64
}

#[test]
fn add_wraps_at_32_bits() {
    assert_eq!(eval_int_exec(IntOp::Add, 32, 0xFFFF_FFFF, 1), 0);
    assert_eq!(eval_int_exec(IntOp::Add, 32, enc32(2_000_000_000), enc32(2_000_000_000)),
        enc32(-294967296));
}

#[test]
fn sub_wraps_at_32_bits() {
    assert_eq!(eval_int_exec(IntOp::Sub, 32, 0, 1), 0xFFFF_FFFF);
    assert_eq!(eval_int_exec(IntOp::Sub, 32, 7, 3), 4);
}

#[test]
fn mul_wraps_at_64_bits() {
    assert_eq!(eval_int_exec(IntOp::Mul, 64, 1 << 63, 2), 0);
    assert_eq!(eval_int_exec(IntOp::Mul, 32, 7, 3), 21);
}

#[test]
fn signed_division_truncates_toward_zero() {
    assert_eq!(eval_int_exec(IntOp::SDiv, 32, enc32(-7), 3), enc32(-2));
    assert_eq!(eval_int_exec(IntOp::SDiv, 32, 7, enc32(-3)), enc32(-2));
    assert_eq!(eval_int_exec(IntOp::SDiv, 32, enc32(-7), enc32(-3)), 2);
    assert_eq!(eval_int_exec(IntOp::SRem, 32, enc32(-7), 3), enc32(-1));
    assert_eq!(eval_int_exec(IntOp::SRem, 32, 7, enc32(-3)), 1);
}

#[test]
fn unsigned_division_uses_the_width() {
    assert_eq!(eval_int_exec(IntOp::UDiv, 32, 0xFFFF_FFFF, 2), 0x7FFF_FFFF);
    assert_eq!(eval_int_exec(IntOp::URem, 32, 0xFFFF_FFFF, 2), 1);
}

#[test]
fn division_by_zero_traps() {
    assert!(int_traps_exec(IntOp::UDiv, 32, 5, 0));
    assert!(int_traps_exec(IntOp::SRem, 32, 5, 0));
    assert!(int_traps_exec(IntOp::SDiv, 32, enc32(i32::MIN), enc32(-1)));
    assert!(!int_traps_exec(IntOp::SDiv, 32, enc32(i32::MIN), 1));
    assert!(!int_traps_exec(IntOp::Add, 32, 5, 0));
}

#[test]
fn sign_extension_fills_the_upper_bits() {
    assert_eq!(sext_exec(32, 64, enc32(-1)), 0xFFFF_FFFF_FFFF_FFFF);
    assert_eq!(sext_exec(32, 64, 5), 5);
    assert_eq!(sext_exec(8, 32, 0x80), 0xFFFF_FF80);
}

#[test]
fn zero_extension_keeps_the_value() {
    assert_eq!(zext_exec(32, 0xFFFF_FFFF), 0xFFFF_FFFF);
    assert_eq!(zext_exec(8, 0x1_80), 0x80);
}

#[test]
fn signed_and_unsigned_predicates_differ() {
    // -1 < 0 signed, but its pattern is the largest unsigned payload
    assert!(icmp_exec(Pred::Slt, 32, enc32(-1), 0));
    assert!(!icmp_exec(Pred::Ult, 32, enc32(-1), 0));
    assert!(icmp_exec(Pred::Sgt, 32, 0, enc32(-1)));
    assert!(icmp_exec(Pred::Sle, 32, enc32(-5), enc32(-5)));
    assert!(icmp_exec(Pred::Eq, 32, 7, 7));
    assert!(icmp_exec(Pred::Ne, 32, 7, 8));
    assert!(icmp_exec(Pred::Uge, 32, 8, 8));
    assert!(icmp_exec(Pred::Ule, 32, 7, 8));
    assert!(icmp_exec(Pred::Ugt, 32, 9, 8));
    assert!(icmp_exec(Pred::Sge, 32, 0, enc32(-1)));
}

#[test]
fn decimal_rendering_is_exact() {
    let mut v: Vec<u8> = Vec::new();
    push_dec_u64(0, &mut v);
    assert_eq!(v.as_slice(), b"0");
    let mut v: Vec<u8> = Vec::new();
    push_dec_u64(9_876_543_210, &mut v);
    assert_eq!(v.as_slice(), b"9876543210");
    let mut v: Vec<u8> = Vec::new();
    push_dec_signed(32, enc32(-123), &mut v);
    assert_eq!(v.as_slice(), b"-123");
    let mut v: Vec<u8> = Vec::new();
    push_dec_signed(32, enc32(i32::MIN), &mut v);
    assert_eq!(v.as_slice(), b"-2147483648");
    let mut v: Vec<u8> = Vec::new();
    push_dec_signed(64, (i64::MIN as u64), &mut v);
    assert_eq!(v.as_slice(), b"-9223372036854775808");
    let mut v: Vec<u8> = Vec::new();
    push_dec_signed(64, 42, &mut v);
    assert_eq!(v.as_slice(), b"42");
}

#[test]
fn byte_string_helpers() {
    let a = b"main".to_vec();
    let b = b"main".to_vec();
    let c = b"madn".to_vec();
    let d = b"mai".to_vec();
    assert!(bytes_eq(&a, &b));
    assert!(!bytes_eq(&a, &c));
    assert!(!bytes_eq(&a, &d));
    assert_eq!(copy_bytes(&a), a);
}
