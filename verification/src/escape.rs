//! The escape-time evaluator: how many iterations of `z <- z^2 + c`, starting
//! from `z = 0`, a fixed-point coordinate `c` survives before `|z|^2` exceeds
//! 4, capped at `max_iter`.  The executable loop is proved to return exactly
//! the recursive model `spec_escape_time`.

use vstd::prelude::*;
use vstd::arithmetic::div_mod::lemma_div_of0;
use crate::fixed::{
    fix_mul, fmul, lemma_fix_sq_le, lemma_fmul_le, lemma_fmul_sq, sabs, FIX_ONE,
};

verus! {

/// The squared escape radius, `4.0` in fixed-point units.
pub const ESCAPE_SQ: i64 = 67108864;

/// Largest coordinate magnitude the evaluator accepts, `64.0` in fixed-point
/// units; the frame renderer clamps every coordinate it produces to this.
pub const COORD_MAX: i64 = 1073741824;

/// Magnitude bound every orbit point respects, `72.0` in fixed-point units:
/// a point that has not escaped has `|re|, |im| <= 2.0`, so one more step
/// stays within `8.0 + COORD_MAX`.
pub const ORBIT_BOUND: i64 = 1207959552;

/// Squared magnitude of `z = (re, im)` in fixed-point units.
pub open spec fn norm_sq(re: int, im: int) -> int {
    fmul(re, re) + fmul(im, im)
}

/// Real part of `z^2 + c`.
pub open spec fn step_re(re: int, im: int, cre: int) -> int {
    fmul(re, re) - fmul(im, im) + cre
}

/// Imaginary part of `z^2 + c`.
pub open spec fn step_im(re: int, im: int, cim: int) -> int {
    fmul(re, im) + fmul(re, im) + cim
}

/// Completed iterations of `z <- z^2 + c` from the given `z` before `|z|^2`
/// exceeds 4, capped at `fuel`.
pub open spec fn escape_count(re: int, im: int, cre: int, cim: int, fuel: nat) -> nat
    decreases fuel,
{
    if fuel == 0 {
        0
    } else if norm_sq(re, im) > ESCAPE_SQ {
        0
    } else {
        1 + escape_count(step_re(re, im, cre), step_im(re, im, cim), cre, cim, (fuel - 1) as nat)
    }
}

/// The evaluator's value for a coordinate: iterations from `z = 0` before
/// escape, capped at `max_iter`.
pub open spec fn spec_escape_time(cre: int, cim: int, max_iter: nat) -> nat {
    escape_count(0, 0, cre, cim, max_iter)
}

/// The count never exceeds the fuel.
pub proof fn lemma_escape_count_le_fuel(re: int, im: int, cre: int, cim: int, fuel: nat)
    ensures
        escape_count(re, im, cre, cim, fuel) <= fuel,
    decreases fuel,
{
    if fuel > 0 && norm_sq(re, im) <= ESCAPE_SQ {
        lemma_escape_count_le_fuel(
            step_re(re, im, cre),
            step_im(re, im, cim),
            cre,
            cim,
            (fuel - 1) as nat,
        );
    }
}

/// Law: for every coordinate the evaluator's value lies in `[0, max_iter]`.
pub proof fn lemma_escape_time_range(cre: int, cim: int, max_iter: nat)
    ensures
        0 <= spec_escape_time(cre, cim, max_iter) <= max_iter,
{
    lemma_escape_count_le_fuel(0, 0, cre, cim, max_iter);
}

/// The orbit of the origin is constantly zero.
proof fn lemma_zero_orbit(fuel: nat)
    ensures
        escape_count(0, 0, 0, 0, fuel) == fuel,
    decreases fuel,
{
    if fuel > 0 {
        lemma_div_of0(FIX_ONE as int);
        assert(fmul(0, 0) == 0);
        assert(norm_sq(0, 0) == 0);
        assert(step_re(0, 0, 0) == 0 && step_im(0, 0, 0) == 0);
        lemma_zero_orbit((fuel - 1) as nat);
    }
}

/// Law: the coordinate `c = 0` (inside the main cardioid) never escapes, so
/// the evaluator returns exactly the cap.
pub proof fn lemma_origin_inside(max_iter: nat)
    ensures
        spec_escape_time(0, 0, max_iter) == max_iter,
{
    lemma_zero_orbit(max_iter);
}

/// Law: a coordinate with `|c|^2 > 4` escapes during the first iteration, so
/// the evaluator returns exactly 1 whenever the cap admits one iteration.
pub proof fn lemma_far_coordinate_escapes(cre: int, cim: int, max_iter: nat)
    requires
        norm_sq(cre, cim) > ESCAPE_SQ,
        max_iter >= 1,
    ensures
        spec_escape_time(cre, cim, max_iter) == 1,
{
    lemma_div_of0(FIX_ONE as int);
    assert(fmul(0, 0) == 0);
    assert(norm_sq(0, 0) == 0);
    assert(step_re(0, 0, cre) == cre && step_im(0, 0, cim) == cim);
    assert(escape_count(cre, cim, cre, cim, (max_iter - 1) as nat) == 0);
}

/// Law: raising the cap never lowers the evaluator's value, and once a
/// coordinate has escaped (value below the cap) the value is final.
pub proof fn lemma_escape_count_monotone(
    re: int,
    im: int,
    cre: int,
    cim: int,
    f1: nat,
    f2: nat,
)
    requires
        f1 <= f2,
    ensures
        escape_count(re, im, cre, cim, f1) <= escape_count(re, im, cre, cim, f2),
        escape_count(re, im, cre, cim, f1) < f1 ==> escape_count(re, im, cre, cim, f2)
            == escape_count(re, im, cre, cim, f1),
    decreases f1,
{
    if f1 > 0 && norm_sq(re, im) <= ESCAPE_SQ {
        lemma_escape_count_monotone(
            step_re(re, im, cre),
            step_im(re, im, cim),
            cre,
            cim,
            (f1 - 1) as nat,
            (f2 - 1) as nat,
        );
    }
}

/// Law: the same, stated of the evaluator.
pub proof fn lemma_escape_time_monotone(cre: int, cim: int, n1: nat, n2: nat)
    requires
        n1 <= n2,
    ensures
        spec_escape_time(cre, cim, n1) <= spec_escape_time(cre, cim, n2),
        spec_escape_time(cre, cim, n1) < n1 ==> spec_escape_time(cre, cim, n2)
            == spec_escape_time(cre, cim, n1),
{
    lemma_escape_count_monotone(0, 0, cre, cim, n1, n2);
}

/// The escape-time evaluator: completed iterations of `z <- z^2 + c` from
/// `z = 0` before `|z|^2` exceeds 4, capped at `max_iter`.
pub fn escape_time(cre: i64, cim: i64, max_iter: u32) -> (r: u32)
    requires
        sabs(cre as int) <= COORD_MAX as int,
        sabs(cim as int) <= COORD_MAX as int,
    ensures
        r as nat == spec_escape_time(cre as int, cim as int, max_iter as nat),
        r <= max_iter,
{
    let mut re: i64 = 0;
    let mut im: i64 = 0;
    let mut i: u32 = 0;
    while i < max_iter
        invariant
            i <= max_iter,
            sabs(cre as int) <= COORD_MAX as int,
            sabs(cim as int) <= COORD_MAX as int,
            sabs(re as int) <= ORBIT_BOUND as int,
            sabs(im as int) <= ORBIT_BOUND as int,
            spec_escape_time(cre as int, cim as int, max_iter as nat) == i + escape_count(
                re as int,
                im as int,
                cre as int,
                cim as int,
                (max_iter - i) as nat,
            ),
        decreases max_iter - i,
    {
        proof {
            lemma_fmul_sq(re as int);
            lemma_fmul_sq(im as int);
            lemma_fmul_le(re as int, re as int, ORBIT_BOUND as int, ORBIT_BOUND as int);
            lemma_fmul_le(im as int, im as int, ORBIT_BOUND as int, ORBIT_BOUND as int);
        }
        let rr: i64 = fix_mul(re, re);
        let ii: i64 = fix_mul(im, im);
        if rr + ii > ESCAPE_SQ {
            assert(norm_sq(re as int, im as int) == rr + ii);
            assert(escape_count(
                re as int,
                im as int,
                cre as int,
                cim as int,
                (max_iter - i) as nat,
            ) == 0);
            return i;
        }
        proof {
            lemma_fix_sq_le(re as int);
            lemma_fix_sq_le(im as int);
            lemma_fmul_le(re as int, im as int, 2 * (FIX_ONE as int), 2 * (FIX_ONE as int));
        }
        let t: i64 = fix_mul(re, im);
        let new_re: i64 = rr - ii + cre;
        let new_im: i64 = t + t + cim;
        assert(new_re as int == step_re(re as int, im as int, cre as int));
        assert(new_im as int == step_im(re as int, im as int, cim as int));
        assert(escape_count(re as int, im as int, cre as int, cim as int, (max_iter - i) as nat)
            == 1 + escape_count(
            new_re as int,
            new_im as int,
            cre as int,
            cim as int,
            (max_iter - i - 1) as nat,
        ));
        re = new_re;
        im = new_im;
        i = i + 1;
    }
    i
}

} // verus!
