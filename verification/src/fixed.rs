//! Signed fixed-point arithmetic: a value `v: i64` stands for the real number
//! `v / FIX_ONE`.  Products and quotients truncate toward zero, and every
//! executable operation is proved equal to its mathematical model (`fmul`,
//! `fdiv`, `tdiv` over `int`), so the rest of the crate can reason about the
//! plane coordinates exactly.

use vstd::prelude::*;
use vstd::arithmetic::div_mod::{
    lemma_div_is_ordered, lemma_div_is_ordered_by_denominator, lemma_div_pos_is_pos,
};
use vstd::arithmetic::mul::lemma_mul_upper_bound;

verus! {

/// The fixed-point scale, 2^24.
pub const FIX_ONE: i64 = 16777216;

/// Largest magnitude `fix_mul` accepts for either factor (2^31 - 1).
pub const MUL_BOUND: i64 = 2147483647;

/// Largest magnitude `fix_div` accepts for the numerator (2^39 - 1).
pub const DIV_BOUND: i64 = 549755813887;

/// Mathematical absolute value.
pub open spec fn sabs(a: int) -> int {
    if a >= 0 {
        a
    } else {
        -a
    }
}

/// Division that rounds toward zero, the behaviour of the executable
/// operations below (spec-mode `/` alone is Euclidean).
pub open spec fn tdiv(a: int, b: int) -> int
    recommends
        b > 0,
{
    if a >= 0 {
        a / b
    } else {
        -((-a) / b)
    }
}

/// Fixed-point product: the real value `(a/2^24) * (b/2^24)`, scaled back by
/// 2^24 and truncated toward zero.
pub open spec fn fmul(a: int, b: int) -> int {
    tdiv(a * b, FIX_ONE as int)
}

/// Fixed-point quotient: the real value `(a/2^24) / (b/2^24)`, scaled by 2^24
/// and truncated toward zero.  Also maps a pair of plain integers `a`, `b` to
/// the fixed-point representation of `a / b`.
pub open spec fn fdiv(a: int, b: int) -> int
    recommends
        b > 0,
{
    tdiv(a * (FIX_ONE as int), b)
}

/// `v` forced into the closed interval `[-bound, bound]`.
pub open spec fn spec_clamp(v: int, bound: int) -> int
    recommends
        bound >= 0,
{
    if v > bound {
        bound
    } else if v < -bound {
        -bound
    } else {
        v
    }
}

/// Truncating division takes absolute values through: `|a tdiv b| == |a| / b`.
pub proof fn lemma_tdiv_abs(a: int, b: int)
    requires
        b > 0,
    ensures
        sabs(tdiv(a, b)) == sabs(a) / b,
{
    if a >= 0 {
        lemma_div_pos_is_pos(a, b);
    } else {
        lemma_div_pos_is_pos(-a, b);
    }
}

/// A fixed-point product of bounded factors is bounded:
/// `|a| <= ba` and `|b| <= bb` give `|fmul(a, b)| <= ba * bb / 2^24`.
pub proof fn lemma_fmul_le(a: int, b: int, ba: int, bb: int)
    requires
        sabs(a) <= ba,
        sabs(b) <= bb,
    ensures
        sabs(fmul(a, b)) <= ba * bb / (FIX_ONE as int),
{
    let sa: int = sabs(a);
    let sb: int = sabs(b);
    assert(a * b == sa * sb || a * b == -(sa * sb)) by (nonlinear_arith)
        requires
            sa == a || sa == -a,
            sb == b || sb == -b,
    ;
    assert(sabs(a * b) == sa * sb) by {
        assert(sa * sb >= 0) by (nonlinear_arith)
            requires
                sa >= 0,
                sb >= 0,
        ;
    }
    lemma_tdiv_abs(a * b, FIX_ONE as int);
    lemma_mul_upper_bound(sa, ba, sb, bb);
    lemma_div_is_ordered(sa * sb, ba * bb, FIX_ONE as int);
}

/// A fixed-point square is the Euclidean quotient of the exact square, and in
/// particular never negative.
pub proof fn lemma_fmul_sq(x: int)
    ensures
        fmul(x, x) == (x * x) / (FIX_ONE as int),
        fmul(x, x) >= 0,
{
    assert(x * x >= 0) by (nonlinear_arith);
    lemma_div_pos_is_pos(x * x, FIX_ONE as int);
}

/// If a fixed-point square is at most 4, the value's magnitude is at most 2
/// (all in fixed-point units: 4 is `4 * FIX_ONE`, 2 is `2 * FIX_ONE`).
pub proof fn lemma_fix_sq_le(x: int)
    requires
        fmul(x, x) <= 4 * (FIX_ONE as int),
    ensures
        sabs(x) <= 2 * (FIX_ONE as int),
{
    let s: int = sabs(x);
    assert(x * x == s * s && s * s >= 0) by (nonlinear_arith)
        requires
            s == x || s == -x,
    ;
    if s >= 33554433 {
        assert(s * s >= 1125899973951489) by (nonlinear_arith)
            requires
                s >= 33554433,
        ;
        lemma_div_is_ordered(1125899973951489, x * x, FIX_ONE as int);
        assert(1125899973951489int / 16777216int == 67108868);
        assert(false);
    }
}

/// Fixed-point multiplication, truncating toward zero.
pub fn fix_mul(a: i64, b: i64) -> (r: i64)
    requires
        sabs(a as int) <= MUL_BOUND as int,
        sabs(b as int) <= MUL_BOUND as int,
    ensures
        r as int == fmul(a as int, b as int),
        sabs(r as int) == sabs(a as int) * sabs(b as int) / (FIX_ONE as int),
{
    let neg: bool = (a < 0) != (b < 0);
    let ua: u64 = if a < 0 {
        (-a) as u64
    } else {
        a as u64
    };
    let ub: u64 = if b < 0 {
        (-b) as u64
    } else {
        b as u64
    };
    assert(ua as int == sabs(a as int) && ub as int == sabs(b as int));
    assert(ua * ub <= 4611686014132420609) by (nonlinear_arith)
        requires
            ua <= 2147483647,
            ub <= 2147483647,
    ;
    let p: u64 = ua * ub;
    let q: u64 = p / 16777216;
    proof {
        lemma_div_is_ordered_by_denominator(p as int, 1, 16777216);
    }
    assert(a as int * b as int == if neg {
        -(ua as int * ub as int)
    } else {
        ua as int * ub as int
    }) by (nonlinear_arith)
        requires
            neg == ((a < 0) != (b < 0)),
            a < 0 ==> ua as int == -(a as int),
            a >= 0 ==> ua as int == a as int,
            b < 0 ==> ub as int == -(b as int),
            b >= 0 ==> ub as int == b as int,
    ;
    if neg {
        -(q as i64)
    } else {
        q as i64
    }
}

/// Fixed-point division by a positive divisor, truncating toward zero.
pub fn fix_div(a: i64, b: i64) -> (r: i64)
    requires
        1 <= b,
        sabs(a as int) <= DIV_BOUND as int,
    ensures
        r as int == fdiv(a as int, b as int),
        sabs(r as int) == sabs(a as int) * (FIX_ONE as int) / (b as int),
{
    let neg: bool = a < 0;
    let ua: u64 = if a < 0 {
        (-a) as u64
    } else {
        a as u64
    };
    assert(ua as int == sabs(a as int));
    let num: u64 = ua * 16777216;
    let q: u64 = num / (b as u64);
    proof {
        lemma_div_is_ordered_by_denominator(num as int, 1, b as int);
    }
    assert(a as int * (FIX_ONE as int) == if neg {
        -(num as int)
    } else {
        num as int
    });
    if neg {
        -(q as i64)
    } else {
        q as i64
    }
}

/// Truncating division of a sign-and-magnitude value by a positive divisor;
/// used where the magnitude does not fit in `i64`.
pub fn div_signed_mag(neg: bool, num: u64, den: u64) -> (r: i64)
    requires
        1 <= den,
        num / den <= 9223372036854775807,
    ensures
        r as int == tdiv(
            if neg {
                -(num as int)
            } else {
                num as int
            },
            den as int,
        ),
        sabs(r as int) == num as int / den as int,
{
    let q: u64 = num / den;
    if neg {
        -(q as i64)
    } else {
        q as i64
    }
}

/// `v` forced into `[-bound, bound]`.
pub fn clamp_i64(v: i64, bound: i64) -> (r: i64)
    requires
        0 <= bound,
    ensures
        r as int == spec_clamp(v as int, bound as int),
        sabs(r as int) <= bound as int,
{
    if v > bound {
        bound
    } else if v < -bound {
        -bound
    } else {
        v
    }
}

} // verus!
