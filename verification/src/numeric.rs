//! Fixed-point scale and small arithmetic helpers shared by the strategies.

use vstd::prelude::*;

verus! {

/// Fixed-point scale for pure ratios: a value of `SCALE` stands for 1.0,
/// so thresholds and percentages are expressed in millionths.
pub const SCALE: u64 = 1_000_000;

/// Truncating signed division on mathematical integers (rounds toward zero),
/// matching what hardware division of a sign/magnitude pair computes.
pub open spec fn div_trunc(x: int, d: int) -> int
    recommends
        d > 0,
{
    if x >= 0 {
        x / d
    } else {
        -((-x) / d)
    }
}

/// Division by a positive divisor keeps the magnitude bound: if `|x| <= d`
/// then the truncated quotient of `x * SCALE` by `d` lies within `±SCALE`.
pub proof fn lemma_ratio_bounded(x: int, d: int)
    requires
        d > 0,
        -d <= x <= d,
    ensures
        -(SCALE as int) <= div_trunc(x * SCALE as int, d) <= SCALE as int,
{
    let s = SCALE as int;
    if x >= 0 {
        assert(x * s <= d * s) by (nonlinear_arith)
            requires 0 <= x <= d, s > 0,
        ;
        assert((x * s) / d <= (d * s) / d) by {
            vstd::arithmetic::div_mod::lemma_div_is_ordered(x * s, d * s, d);
        }
        assert((d * s) / d == s) by {
            vstd::arithmetic::div_mod::lemma_div_multiples_vanish(s, d);
            assert(d * s == s * d) by (nonlinear_arith);
        }
        assert((x * s) / d >= 0) by {
            vstd::arithmetic::div_mod::lemma_div_pos_is_pos(x * s, d);
        }
    } else {
        let y = -x;
        assert(y * s <= d * s) by (nonlinear_arith)
            requires 0 <= y <= d, s > 0,
        ;
        assert((y * s) / d <= (d * s) / d) by {
            vstd::arithmetic::div_mod::lemma_div_is_ordered(y * s, d * s, d);
        }
        assert((d * s) / d == s) by {
            vstd::arithmetic::div_mod::lemma_div_multiples_vanish(s, d);
            assert(d * s == s * d) by (nonlinear_arith);
        }
        assert((y * s) / d >= 0) by {
            vstd::arithmetic::div_mod::lemma_div_pos_is_pos(y * s, d);
        }
        assert(-x * s == -(x * s)) by (nonlinear_arith);
    }
}

} // verus!
