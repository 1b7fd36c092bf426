//! Small verified numeric helpers shared by the movement code.

use vstd::prelude::*;

verus! {

/// The integer square root of a non-negative value: the unique `r >= 0`
/// with `r * r <= n < (r + 1) * (r + 1)`.
pub open spec fn spec_isqrt(n: int) -> int {
    choose|r: int| 0 <= r && #[trigger] (r * r) <= n && (r + 1) * (r + 1) > n
}

/// Any witness of the square-root bracketing is the integer square root.
pub proof fn lemma_isqrt_unique(n: int, r: int)
    requires
        0 <= r,
        r * r <= n,
        (r + 1) * (r + 1) > n,
    ensures
        r == spec_isqrt(n),
{
    assert(exists|s: int| 0 <= s && #[trigger] (s * s) <= n && (s + 1) * (s + 1) > n) by {
        assert(0 <= r && r * r <= n && (r + 1) * (r + 1) > n);
    }
    let s = spec_isqrt(n);
    assert(0 <= s && s * s <= n && (s + 1) * (s + 1) > n);
    assert(r == s) by (nonlinear_arith)
        requires
            0 <= r,
            r * r <= n,
            (r + 1) * (r + 1) > n,
            0 <= s,
            s * s <= n,
            (s + 1) * (s + 1) > n,
    ;
}

/// The integer square root: the largest `r` with `r * r <= n`.
pub fn isqrt64(n: u64) -> (r: u64)
    ensures
        (r as int) * (r as int) <= n as int,
        (r as int + 1) * (r as int + 1) > n as int,
        r as int == spec_isqrt(n as int),
{
    let mut lo: u64 = 0;
    let mut hi: u64 = 0x1_0000_0000;
    proof {
        assert((hi as int) * (hi as int) > n as int) by (nonlinear_arith)
            requires
                hi == 0x1_0000_0000u64,
                n <= u64::MAX,
        ;
    }
    while lo + 1 < hi
        invariant
            lo < hi <= 0x1_0000_0000,
            (lo as int) * (lo as int) <= n as int,
            (hi as int) * (hi as int) > n as int,
        decreases hi - lo,
    {
        let mid: u64 = lo + (hi - lo) / 2;
        proof {
            assert(mid < 0x1_0000_0000);
            assert((mid as int) * (mid as int) < 0x1_0000_0000_0000_0000) by (nonlinear_arith)
                requires
                    mid < 0x1_0000_0000u64,
            ;
        }
        if mid * mid <= n {
            lo = mid;
        } else {
            hi = mid;
        }
    }
    proof {
        lemma_isqrt_unique(n as int, lo as int);
    }
    lo
}

/// `v` clamped into `[lo, hi]`.
pub open spec fn spec_clamp_i64(v: i64, lo: i64, hi: i64) -> i64 {
    if v < lo {
        lo
    } else if v > hi {
        hi
    } else {
        v
    }
}

#[verifier::when_used_as_spec(spec_clamp_i64)]
pub fn clamp_i64(v: i64, lo: i64, hi: i64) -> (r: i64)
    requires
        lo <= hi,
    ensures
        r == spec_clamp_i64(v, lo, hi),
{
    if v < lo {
        lo
    } else if v > hi {
        hi
    } else {
        v
    }
}

/// `v` clamped into `[lo, hi]` for unsigned values.
pub open spec fn spec_clamp_u32(v: u32, lo: u32, hi: u32) -> u32 {
    if v < lo {
        lo
    } else if v > hi {
        hi
    } else {
        v
    }
}

#[verifier::when_used_as_spec(spec_clamp_u32)]
pub fn clamp_u32(v: u32, lo: u32, hi: u32) -> (r: u32)
    requires
        lo <= hi,
    ensures
        r == spec_clamp_u32(v, lo, hi),
{
    if v < lo {
        lo
    } else if v > hi {
        hi
    } else {
        v
    }
}

} // verus!
