//! Decimal rendering of integer values, used by the `printf` builtin.

use vstd::prelude::*;

use crate::arith::{abs_i, signed_parts, to_signed};

verus! {

/// The decimal digits of a natural number, as bytes.
pub open spec fn dec_u(n: nat) -> Seq<u8>
    decreases n,
{
    if n < 10 {
        seq![(48 + n) as u8]
    } else {
        dec_u(n / 10).push((48 + n % 10) as u8)
    }
}

/// The decimal rendering of the value of payload `v` at width `w`, as a
/// signed two's-complement integer: an optional minus sign and the digits.
pub open spec fn dec_signed(w: nat, v: u64) -> Seq<u8>
    recommends
        1 <= w <= 64,
{
    if to_signed(w, v) < 0 {
        seq![45u8] + dec_u(abs_i(to_signed(w, v)) as nat)
    } else {
        dec_u(to_signed(w, v) as nat)
    }
}

/// Appends the decimal digits of `n`.
pub fn push_dec_u64(n: u64, out: &mut Vec<u8>)
    ensures
        final(out)@ == old(out)@ + dec_u(n as nat),
    decreases n,
{
    if n < 10 {
        out.push(48 + (n as u8));
        proof {
            assert(out@ =~= old(out)@ + dec_u(n as nat));
        }
    } else {
        push_dec_u64(n / 10, out);
        out.push(48 + ((n % 10) as u8));
        proof {
            assert(out@ =~= old(out)@ + dec_u(n as nat));
        }
    }
}

/// Appends the signed decimal rendering of payload `v` at width `w`.
pub fn push_dec_signed(w: u32, v: u64, out: &mut Vec<u8>)
    requires
        1 <= w <= 64,
    ensures
        final(out)@ == old(out)@ + dec_signed(w as nat, v),
{
    let (neg, mag) = signed_parts(w, v);
    if neg {
        out.push(45);
    }
    push_dec_u64(mag, out);
    proof {
        assert(out@ =~= old(out)@ + dec_signed(w as nat, v));
    }
}

} // verus!
