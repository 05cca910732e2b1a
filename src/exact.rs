//! The bisection method in exact arithmetic, for the target `x^2 - c`.
//!
//! With integer bounds, every point the method handles after `k` steps is a
//! multiple of `1 / 2^k`, so each is written here as an integer `x` standing
//! for `x / 2^k`. The laws below show what makes the method work: the interval
//! keeps bracketing a sign change, it halves in width at every step, and the
//! estimate is one of its ends, so the estimate is never further than the
//! interval's width from a root inside it.
use vstd::prelude::*;

use crate::bisection::{bound_to_move, Bound};

verus! {

/// `4^k`.
pub open spec fn pow4(k: nat) -> int
    decreases k,
{
    if k == 0 {
        1
    } else {
        4 * pow4((k - 1) as nat)
    }
}

/// The target `x^2 - c` at the point `x / 2^k`, multiplied by `4^k`, which
/// keeps it an integer and does not change its sign.
pub open spec fn scaled_target(c: int, x: int, k: nat) -> int {
    x * x - c * pow4(k)
}

/// The interval that the moves `moves` leave of `[lo, hi]`, both ends
/// multiplied by `2^moves.len()`. Each move takes the midpoint, which is the
/// sum of the two ends at the next scale, and doubles the end that stays.
pub open spec fn scaled_interval(lo: int, hi: int, moves: Seq<Bound>) -> (int, int)
    decreases moves.len(),
{
    if moves.len() == 0 {
        (lo, hi)
    } else {
        let prev = scaled_interval(lo, hi, moves.drop_last());
        let mid = prev.0 + prev.1;
        if moves.last() == Bound::Lower {
            (mid, 2 * prev.1)
        } else {
            (2 * prev.0, mid)
        }
    }
}

/// The estimate after the moves `moves` of `[lo, hi]`, at the same scale as
/// `scaled_interval`: `lo` before any move, and the last midpoint after.
pub open spec fn scaled_estimate(lo: int, hi: int, moves: Seq<Bound>) -> int {
    if moves.len() == 0 {
        lo
    } else {
        let ends = scaled_interval(lo, hi, moves);
        if moves.last() == Bound::Lower {
            ends.0
        } else {
            ends.1
        }
    }
}

/// The first `n` moves of the method on `[lo, hi]` for the target `x^2 - c`,
/// each chosen by the sign test at the midpoint against the lower bound.
pub open spec fn exact_moves(lo: int, hi: int, c: int, n: nat) -> Seq<Bound>
    decreases n,
{
    if n == 0 {
        seq![]
    } else {
        let prev = exact_moves(lo, hi, c, (n - 1) as nat);
        let ends = scaled_interval(lo, hi, prev);
        prev.push(
            bound_to_move(
                scaled_target(c, ends.0 + ends.1, n) * scaled_target(c, 2 * ends.0, n) > 0,
            ),
        )
    }
}

proof fn lemma_exact_moves_len(lo: int, hi: int, c: int, n: nat)
    ensures
        exact_moves(lo, hi, c, n).len() == n,
    decreases n,
{
    if n > 0 {
        lemma_exact_moves_len(lo, hi, c, (n - 1) as nat);
    }
}

/// Doubling a point at the next scale keeps the scaled target's value, times 4.
proof fn lemma_scaled_target_double(c: int, x: int, k: nat)
    ensures
        scaled_target(c, 2 * x, k + 1) == 4 * scaled_target(c, x, k),
{
    assert(pow4(k + 1) == 4 * pow4(k));
    assert((2 * x) * (2 * x) == 4 * (x * x)) by (nonlinear_arith);
    assert(c * (4 * pow4(k)) == 4 * (c * pow4(k))) by (nonlinear_arith);
}

/// Of three values, if the first and last differ in sign (or one is zero)
/// and the middle one has the first's strict sign, it differs from the last.
proof fn lemma_sign_carries(a: int, m: int, b: int)
    requires
        a * b <= 0,
        m * a > 0,
    ensures
        m * b <= 0,
{
    if a > 0 {
        assert(m > 0) by (nonlinear_arith)
            requires
                m * a > 0,
                a > 0,
        ;
        assert(b <= 0) by (nonlinear_arith)
            requires
                a * b <= 0,
                a > 0,
        ;
        assert(m * b <= 0) by (nonlinear_arith)
            requires
                m > 0,
                b <= 0,
        ;
    } else {
        assert(a < 0) by (nonlinear_arith)
            requires
                m * a > 0,
                a <= 0,
        ;
        assert(m < 0) by (nonlinear_arith)
            requires
                m * a > 0,
                a < 0,
        ;
        assert(b >= 0) by (nonlinear_arith)
            requires
                a * b <= 0,
                a < 0,
        ;
        assert(m * b <= 0) by (nonlinear_arith)
            requires
                m < 0,
                b >= 0,
        ;
    }
}

/// In exact arithmetic, for the target `x^2 - c` on an interval `[lo, hi]`
/// whose ends bracket a sign change, after any number `n` of steps the
/// interval (scaled by `2^n`) still brackets a sign change and is exactly
/// `(hi - lo) / 2^n` wide.
pub proof fn lemma_exact_bracket(lo: int, hi: int, c: int, n: nat)
    requires
        lo <= hi,
        scaled_target(c, lo, 0) * scaled_target(c, hi, 0) <= 0,
    ensures
        ({
            let ends = scaled_interval(lo, hi, exact_moves(lo, hi, c, n));
            &&& ends.1 - ends.0 == hi - lo
            &&& scaled_target(c, ends.0, n) * scaled_target(c, ends.1, n) <= 0
        }),
    decreases n,
{
    if n > 0 {
        let k = (n - 1) as nat;
        lemma_exact_bracket(lo, hi, c, k);
        let prev = exact_moves(lo, hi, c, k);
        lemma_exact_moves_len(lo, hi, c, k);
        let moves = exact_moves(lo, hi, c, n);
        assert(moves.drop_last() == prev);
        let (l, h) = scaled_interval(lo, hi, prev);
        let tl = scaled_target(c, l, k);
        let th = scaled_target(c, h, k);
        let a = scaled_target(c, 2 * l, n);
        let b = scaled_target(c, 2 * h, n);
        let m = scaled_target(c, l + h, n);
        lemma_scaled_target_double(c, l, k);
        lemma_scaled_target_double(c, h, k);
        assert(a * b == 16 * (tl * th)) by (nonlinear_arith)
            requires
                a == 4 * tl,
                b == 4 * th,
        ;
        if m * a > 0 {
            lemma_sign_carries(a, m, b);
        } else {
            assert(a * m <= 0) by (nonlinear_arith)
                requires
                    !(m * a > 0),
            ;
        }
    }
}

/// In exact arithmetic, the estimate is one end of the current interval, so
/// it lies within the interval's width, `(hi - lo) / 2^n` after `n` steps, of
/// every point of it; in particular of a root that the interval brackets. A
/// point is given as `p / q` at the interval's scale.
pub proof fn lemma_exact_estimate_error(lo: int, hi: int, c: int, n: nat, p: int, q: int)
    requires
        lo <= hi,
        scaled_target(c, lo, 0) * scaled_target(c, hi, 0) <= 0,
        q > 0,
        ({
            let ends = scaled_interval(lo, hi, exact_moves(lo, hi, c, n));
            ends.0 * q <= p <= ends.1 * q
        }),
    ensures
        ({
            let e = scaled_estimate(lo, hi, exact_moves(lo, hi, c, n));
            &&& -(hi - lo) * q <= e * q - p
            &&& e * q - p <= (hi - lo) * q
        }),
{
    lemma_exact_bracket(lo, hi, c, n);
    let moves = exact_moves(lo, hi, c, n);
    let (l, h) = scaled_interval(lo, hi, moves);
    let e = scaled_estimate(lo, hi, moves);
    assert(h * q - l * q == (hi - lo) * q) by (nonlinear_arith)
        requires
            h - l == hi - lo,
    ;
    assert(-(hi - lo) * q == -((hi - lo) * q)) by (nonlinear_arith);
    if e == l {
        assert(e * q - p <= 0);
    } else {
        assert(e == h);
        assert(e * q - p >= 0);
    }
}

} // verus!
