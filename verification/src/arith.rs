//! Width-correct integer semantics.
//!
//! Integer values are carried as 64-bit payloads; a value of width `w` keeps
//! its `w`-bit pattern zero-extended to 64 bits.  The specification functions
//! here define what each arithmetic opcode, comparison and extension means at
//! a given width, and the executable functions are proved to return exactly
//! those values.

use vstd::prelude::*;
use vstd::arithmetic::power2::*;
use vstd::arithmetic::div_mod::*;

use crate::ir::{IntOp, Pred};

verus! {

/// The unsigned value of the low `w` bits of `x`.
pub open spec fn lo(w: nat, x: u64) -> int {
    (x as int) % (pow2(w) as int)
}

/// The two's-complement value of the low `w` bits of `x`.
pub open spec fn to_signed(w: nat, x: u64) -> int
    recommends
        1 <= w,
{
    if lo(w, x) >= pow2((w - 1) as nat) as int {
        lo(w, x) - pow2(w) as int
    } else {
        lo(w, x)
    }
}

/// The `w`-bit pattern of the integer `i`, zero-extended to 64 bits.
pub open spec fn enc(w: nat, i: int) -> u64
    recommends
        w <= 64,
{
    (i % (pow2(w) as int)) as u64
}

/// Absolute value.
pub open spec fn abs_i(i: int) -> int {
    if i < 0 {
        -i
    } else {
        i
    }
}

/// Truncating (round-toward-zero) division, the meaning of `sdiv`.
pub open spec fn tdiv(a: int, b: int) -> int
    recommends
        b != 0,
{
    if (a >= 0) == (b >= 0) {
        abs_i(a) / abs_i(b)
    } else {
        -(abs_i(a) / abs_i(b))
    }
}

/// Remainder of truncating division (sign follows the dividend), the meaning
/// of `srem`.
pub open spec fn trem(a: int, b: int) -> int
    recommends
        b != 0,
{
    if a >= 0 {
        abs_i(a) % abs_i(b)
    } else {
        -(abs_i(a) % abs_i(b))
    }
}

/// Whether the opcode traps at width `w` on these operands: division or
/// remainder by zero, and the signed overflow case `MIN / -1`, are fatal.
pub open spec fn int_traps(op: IntOp, w: nat, a: u64, b: u64) -> bool {
    match op {
        IntOp::UDiv | IntOp::URem => lo(w, b) == 0,
        IntOp::SDiv | IntOp::SRem => lo(w, b) == 0 || (to_signed(w, a) == -(pow2((w - 1) as nat)
            as int) && to_signed(w, b) == -1),
        _ => false,
    }
}

/// The stored result of an integer opcode at width `w`: the mathematical
/// result of the operation, truncated to the `w`-bit pattern.
pub open spec fn eval_int(op: IntOp, w: nat, a: u64, b: u64) -> u64
    recommends
        1 <= w <= 64,
        !int_traps(op, w, a, b),
{
    match op {
        IntOp::Add => enc(w, lo(w, a) + lo(w, b)),
        IntOp::Sub => enc(w, lo(w, a) - lo(w, b)),
        IntOp::Mul => enc(w, lo(w, a) * lo(w, b)),
        IntOp::UDiv => enc(w, lo(w, a) / lo(w, b)),
        IntOp::URem => enc(w, lo(w, a) % lo(w, b)),
        IntOp::SDiv => enc(w, tdiv(to_signed(w, a), to_signed(w, b))),
        IntOp::SRem => enc(w, trem(to_signed(w, a), to_signed(w, b))),
    }
}

/// Whether an `icmp` predicate holds.  Unsigned predicates and the equality
/// predicates compare the raw 64-bit payloads; signed predicates reinterpret
/// the payloads at the declared operand width.
pub open spec fn icmp_holds(pred: Pred, w: nat, a: u64, b: u64) -> bool
    recommends
        1 <= w <= 64,
{
    match pred {
        Pred::Eq => a == b,
        Pred::Ne => a != b,
        Pred::Ugt => a > b,
        Pred::Uge => a >= b,
        Pred::Ult => a < b,
        Pred::Ule => a <= b,
        Pred::Sgt => to_signed(w, a) > to_signed(w, b),
        Pred::Sge => to_signed(w, a) >= to_signed(w, b),
        Pred::Slt => to_signed(w, a) < to_signed(w, b),
        Pred::Sle => to_signed(w, a) <= to_signed(w, b),
    }
}

/// The stored result of `zext` from width `sw`: the source treated as an
/// unsigned integer, unchanged in value.
pub open spec fn zext_val(sw: nat, v: u64) -> u64 {
    lo(sw, v) as u64
}

/// The stored result of `sext` from width `sw` to width `dw`: the source's
/// two's-complement value re-encoded at the target width.
pub open spec fn sext_val(sw: nat, dw: nat, v: u64) -> u64
    recommends
        1 <= sw < dw <= 64,
{
    enc(dw, to_signed(sw, v))
}

/// 2 to the `w`, computed.
pub fn pow2_exec(w: u32) -> (r: u64)
    requires
        w <= 63,
    ensures
        r as nat == pow2(w as nat),
{
    let mut i: u32 = 0;
    let mut r: u64 = 1;
    proof {
        lemma2_to64();
        lemma2_to64_rest();
    }
    while i < w
        invariant
            i <= w <= 63,
            r as nat == pow2(i as nat),
            pow2(62) == 0x4000000000000000,
        decreases w - i,
    {
        proof {
            lemma_pow2_adds(i as nat, 1);
            lemma2_to64();
            if (i as nat) < 62 {
                lemma_pow2_strictly_increases(i as nat, 62);
            }
        }
        r = r * 2;
        i = i + 1;
    }
    r
}

/// The low `w` bits of `x`, as a zero-extended payload.
pub fn lo_exec(w: u32, x: u64) -> (r: u64)
    ensures
        r as int == lo(w as nat, x),
{
    if w >= 64 {
        proof {
            lemma2_to64_rest();
            if (w as nat) > 64 {
                lemma_pow2_strictly_increases(64, w as nat);
            }
            lemma_small_mod(x as nat, pow2(w as nat));
        }
        x
    } else {
        let p = pow2_exec(w);
        proof {
            lemma_pow2_pos(w as nat);
        }
        x % p
    }
}

/// The threshold pattern for the sign bit at width `w`.
fn half_exec(w: u32) -> (r: u64)
    requires
        1 <= w <= 64,
    ensures
        r as nat == pow2((w - 1) as nat),
{
    if w == 64 {
        proof {
            lemma2_to64_rest();
        }
        0x8000000000000000
    } else {
        pow2_exec(w - 1)
    }
}

/// Whether the value of `x` at width `w` is negative.
fn is_neg_exec(w: u32, x: u64) -> (r: bool)
    requires
        1 <= w <= 64,
    ensures
        r == (to_signed(w as nat, x) < 0),
{
    let m = lo_exec(w, x);
    let h = half_exec(w);
    proof {
        lemma_pow2_pos(w as nat);
        lemma_mod_division_less_than_divisor(x as int, pow2(w as nat) as int);
    }
    m >= h
}

/// The `w`-bit pattern of `-m`, for a magnitude `m` at most `2^(w-1)`.
fn neg_pattern_exec(w: u32, m: u64) -> (r: u64)
    requires
        1 <= w <= 64,
        m as nat <= pow2((w - 1) as nat),
    ensures
        r == enc(w as nat, -(m as int)),
{
    proof {
        lemma_pow2_adds((w - 1) as nat, 1);
        lemma2_to64();
        lemma_pow2_pos((w - 1) as nat);
    }
    let ghost p: int = pow2(w as nat) as int;
    if m == 0 {
        proof {
            lemma_small_mod(0, p as nat);
        }
        0
    } else if w == 64 {
        proof {
            lemma2_to64_rest();
            lemma_mod_add_multiples_vanish(-(m as int), p);
            lemma_small_mod((p - m) as nat, p as nat);
        }
        (u64::MAX - m) + 1
    } else {
        let p_exec = pow2_exec(w);
        proof {
            lemma_mod_add_multiples_vanish(-(m as int), p);
            lemma_small_mod((p - m) as nat, p as nat);
        }
        p_exec - m
    }
}

/// The sign and magnitude of the value of `x` at width `w`.
pub fn signed_parts(w: u32, x: u64) -> (r: (bool, u64))
    requires
        1 <= w <= 64,
    ensures
        r.0 == (to_signed(w as nat, x) < 0),
        r.1 as int == abs_i(to_signed(w as nat, x)),
{
    let m = lo_exec(w, x);
    let neg = is_neg_exec(w, x);
    proof {
        lemma_pow2_pos(w as nat);
        lemma_mod_division_less_than_divisor(x as int, pow2(w as nat) as int);
        lemma_mod_bound(x as int, pow2(w as nat) as int);
    }
    if neg {
        if w == 64 {
            proof {
                lemma2_to64_rest();
            }
            (true, (u64::MAX - m) + 1)
        } else {
            let p_exec = pow2_exec(w);
            (true, p_exec - m)
        }
    } else {
        (false, m)
    }
}

/// Integer arithmetic at width 32 or 64: returns exactly the mathematical
/// result of the opcode, truncated to the operand width.
pub fn eval_int_exec(op: IntOp, w: u32, a: u64, b: u64) -> (r: u64)
    requires
        w == 32 || w == 64,
        !int_traps(op, w as nat, a, b),
    ensures
        r == eval_int(op, w as nat, a, b),
{
    proof {
        lemma2_to64();
        lemma2_to64_rest();
    }
    let p128: u128 = if w == 32 {
        0x1_0000_0000
    } else {
        0x1_0000_0000_0000_0000
    };
    assert(p128 as int == pow2(w as nat) as int);
    let ghost p: int = pow2(w as nat) as int;
    let x = lo_exec(w, a);
    let y = lo_exec(w, b);
    proof {
        lemma_pow2_pos(w as nat);
        lemma_mod_division_less_than_divisor(a as int, p);
        lemma_mod_bound(a as int, p);
        lemma_mod_division_less_than_divisor(b as int, p);
        lemma_mod_bound(b as int, p);
    }
    match op {
        IntOp::Add => {
            let s = ((x as u128) + (y as u128)) % p128;
            proof {
                lemma_small_mod((s as int) as nat, p as nat);
            }
            s as u64
        },
        IntOp::Sub => {
            let s = (((x as u128) + p128) - (y as u128)) % p128;
            proof {
                lemma_mod_add_multiples_vanish((x as int) - (y as int), p);
                lemma_small_mod((s as int) as nat, p as nat);
            }
            s as u64
        },
        IntOp::Mul => {
            assert((x as u128) * (y as u128) <= 0xFFFF_FFFF_FFFF_FFFFu128
                * 0xFFFF_FFFF_FFFF_FFFFu128) by (nonlinear_arith)
                requires
                    x as u128 <= 0xFFFF_FFFF_FFFF_FFFFu128,
                    y as u128 <= 0xFFFF_FFFF_FFFF_FFFFu128,
            ;
            let s = ((x as u128) * (y as u128)) % p128;
            proof {
                lemma_small_mod((s as int) as nat, p as nat);
            }
            s as u64
        },
        IntOp::UDiv => {
            let q = x / y;
            proof {
                lemma_small_mod((q as int) as nat, p as nat);
            }
            q
        },
        IntOp::URem => {
            let q = x % y;
            proof {
                lemma_small_mod((q as int) as nat, p as nat);
            }
            q
        },
        IntOp::SDiv => {
            let (na, ma) = signed_parts(w, a);
            let (nb, mb) = signed_parts(w, b);
            let q = ma / mb;
            if na != nb {
                neg_pattern_exec(w, q)
            } else {
                proof {
                    lemma_small_mod((q as int) as nat, p as nat);
                }
                q
            }
        },
        IntOp::SRem => {
            let (na, ma) = signed_parts(w, a);
            let (_nb, mb) = signed_parts(w, b);
            let r = ma % mb;
            if na {
                neg_pattern_exec(w, r)
            } else {
                proof {
                    lemma_small_mod((r as int) as nat, p as nat);
                }
                r
            }
        },
    }
}

/// Whether the opcode would trap on these operands.
pub fn int_traps_exec(op: IntOp, w: u32, a: u64, b: u64) -> (r: bool)
    requires
        1 <= w <= 64,
    ensures
        r == int_traps(op, w as nat, a, b),
{
    match op {
        IntOp::UDiv | IntOp::URem => lo_exec(w, b) == 0,
        IntOp::SDiv | IntOp::SRem => {
            let yb = lo_exec(w, b);
            if yb == 0 {
                true
            } else {
                let (na, ma) = signed_parts(w, a);
                let (nb, mb) = signed_parts(w, b);
                let h = half_exec(w);
                (na && ma == h) && (nb && mb == 1)
            }
        },
        _ => false,
    }
}

/// Signed less-than of two payloads at width `w`.
fn slt_exec(w: u32, a: u64, b: u64) -> (r: bool)
    requires
        1 <= w <= 64,
    ensures
        r == (to_signed(w as nat, a) < to_signed(w as nat, b)),
{
    let xa = lo_exec(w, a);
    let xb = lo_exec(w, b);
    let h = half_exec(w);
    proof {
        lemma_pow2_pos(w as nat);
        lemma_mod_division_less_than_divisor(a as int, pow2(w as nat) as int);
        lemma_mod_bound(a as int, pow2(w as nat) as int);
        lemma_mod_division_less_than_divisor(b as int, pow2(w as nat) as int);
        lemma_mod_bound(b as int, pow2(w as nat) as int);
    }
    if (xa >= h) != (xb >= h) {
        xa >= h
    } else {
        xa < xb
    }
}

/// Evaluates an `icmp` predicate on two payloads at width `w`.
pub fn icmp_exec(pred: Pred, w: u32, a: u64, b: u64) -> (r: bool)
    requires
        1 <= w <= 64,
    ensures
        r == icmp_holds(pred, w as nat, a, b),
{
    match pred {
        Pred::Eq => a == b,
        Pred::Ne => a != b,
        Pred::Ugt => a > b,
        Pred::Uge => a >= b,
        Pred::Ult => a < b,
        Pred::Ule => a <= b,
        Pred::Sgt => slt_exec(w, b, a),
        Pred::Sge => !slt_exec(w, a, b),
        Pred::Slt => slt_exec(w, a, b),
        Pred::Sle => !slt_exec(w, b, a),
    }
}

/// Zero-extension: the unsigned value of the source, unchanged.
pub fn zext_exec(sw: u32, v: u64) -> (r: u64)
    ensures
        r == zext_val(sw as nat, v),
{
    lo_exec(sw, v)
}

/// Sign-extension from width `sw` to width `dw`.
pub fn sext_exec(sw: u32, dw: u32, v: u64) -> (r: u64)
    requires
        1 <= sw < dw <= 64,
    ensures
        r == sext_val(sw as nat, dw as nat, v),
{
    let m = lo_exec(sw, v);
    let h = half_exec(sw);
    let ghost pd: int = pow2(dw as nat) as int;
    let ghost ps: int = pow2(sw as nat) as int;
    proof {
        lemma_pow2_pos(sw as nat);
        lemma_pow2_pos(dw as nat);
        lemma_pow2_strictly_increases(sw as nat, dw as nat);
        lemma_mod_division_less_than_divisor(v as int, ps);
        lemma_mod_bound(v as int, ps);
        lemma_pow2_adds((sw - 1) as nat, 1);
        lemma2_to64();
    }
    if m >= h {
        // negative: re-encode `m - 2^sw` at width `dw`
        proof {
            lemma_mod_add_multiples_vanish((m as int) - ps, pd);
            lemma_small_mod(((m as int) - ps + pd) as nat, pd as nat);
        }
        if dw == 64 {
            proof {
                lemma2_to64_rest();
            }
            let pse = pow2_exec(sw);
            ((u64::MAX - pse) + 1) + m
        } else {
            let pse = pow2_exec(sw);
            let pde = pow2_exec(dw);
            (pde - pse) + m
        }
    } else {
        proof {
            lemma_small_mod((m as int) as nat, pd as nat);
        }
        m
    }
}

} // verus!
