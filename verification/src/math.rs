//! Scalar helpers: clamped approach, sign, and rounding of a remainder to
//! whole pixels.

use vstd::prelude::*;

verus! {

/// The value reached from `val` when moving toward `target` by `max_move`:
/// `target` itself once it is within reach.
pub open spec fn approach_spec(val: int, target: int, max_move: int) -> int {
    if val > target {
        if val - max_move > target {
            val - max_move
        } else {
            target
        }
    } else {
        if val + max_move < target {
            val + max_move
        } else {
            target
        }
    }
}

/// Moves `val` toward `target` by at most `max_move`, linearly and without
/// passing it. The only demand is that the result is representable, which
/// holds for every `max_move >= 0`.
pub fn approach(val: i64, target: i64, max_move: i64) -> (r: i64)
    requires
        i64::MIN <= approach_spec(val as int, target as int, max_move as int) <= i64::MAX,
    ensures
        r == approach_spec(val as int, target as int, max_move as int),
{
    let wide_val: i128 = val as i128;
    let wide_target: i128 = target as i128;
    let wide_move: i128 = max_move as i128;
    if val > target {
        let moved: i128 = wide_val - wide_move;
        if moved > wide_target {
            moved as i64
        } else {
            target
        }
    } else {
        let moved: i128 = wide_val + wide_move;
        if moved < wide_target {
            moved as i64
        } else {
            target
        }
    }
}

/// A value already at its target stays there for every non-negative step.
pub proof fn law_approach_at_target(v: int, max_move: int)
    requires
        max_move >= 0,
    ensures
        approach_spec(v, v, max_move) == v,
{
}

/// With a non-negative step the result lies between the start and the target,
/// both included, however large the step is.
pub proof fn law_approach_never_overshoots(val: int, target: int, max_move: int)
    requires
        max_move >= 0,
    ensures
        val <= target ==> val <= approach_spec(val, target, max_move) <= target,
        val >= target ==> target <= approach_spec(val, target, max_move) <= val,
{
}

/// With a non-negative step the distance covered is the step, or less when
/// the target is nearer than that.
pub proof fn law_approach_step_bounded(val: int, target: int, max_move: int)
    requires
        max_move >= 0,
    ensures
        abs_spec(approach_spec(val, target, max_move) - val) <= max_move,
        abs_spec(target - val) <= max_move ==> approach_spec(val, target, max_move) == target,
{
}

/// Absolute value.
pub open spec fn abs_spec(n: int) -> int {
    if n < 0 {
        -n
    } else {
        n
    }
}

/// The sign of `n`: -1, 0 or 1.
pub open spec fn sign_spec(n: int) -> int {
    if n < 0 {
        -1
    } else if n > 0 {
        1
    } else {
        0
    }
}

/// The sign of `number` as -1, 0 or 1.
pub fn sign(number: i64) -> (r: i64)
    ensures
        r == sign_spec(number as int),
{
    if number < 0 {
        -1
    } else if number > 0 {
        1
    } else {
        0
    }
}

/// `amount / unit` rounded to the nearest integer, halves away from zero.
pub open spec fn round_spec(amount: int, unit: int) -> int {
    if amount >= 0 {
        (2 * amount + unit) / (2 * unit)
    } else {
        -((unit - 2 * amount) / (2 * unit))
    }
}

/// Rounding leaves at most half a unit, and the rounded count has the sign
/// of the amount and never exceeds it in magnitude.
pub proof fn lemma_round_error(amount: int, unit: int)
    requires
        unit >= 1,
    ensures
        2 * abs_spec(amount - round_spec(amount, unit) * unit) <= unit,
        abs_spec(round_spec(amount, unit)) <= abs_spec(amount),
        amount >= 0 ==> round_spec(amount, unit) >= 0,
        amount <= 0 ==> round_spec(amount, unit) <= 0,
{
    let m = abs_spec(amount);
    let n = 2 * m + unit;
    let d = 2 * unit;
    let q = n / d;
    let r = n % d;
    assert(n == d * q + r && 0 <= r < d) by {
        vstd::arithmetic::div_mod::lemma_fundamental_div_mod(n, d);
    }
    assert(q >= 0) by (nonlinear_arith)
        requires
            n >= 0,
            d > 0,
            q == n / d,
    ;
    assert(q <= m) by (nonlinear_arith)
        requires
            n == d * q + r,
            0 <= r,
            n == 2 * m + unit,
            d == 2 * unit,
            unit >= 1,
            m >= 0,
            q >= 0,
    ;
    assert(d * q == 2 * (q * unit)) by (nonlinear_arith)
        requires
            d == 2 * unit,
    ;
    if amount >= 0 {
        assert(round_spec(amount, unit) == q);
    } else {
        assert(round_spec(amount, unit) == -q);
        assert((-q) * unit == -(q * unit)) by (nonlinear_arith);
    }
}

/// The whole pixels held in `remainder`: the nearest count, halves away from
/// zero.
pub fn whole_pixels(remainder: i64, units_per_pixel: i64) -> (r: i64)
    requires
        units_per_pixel >= 1,
    ensures
        r == round_spec(remainder as int, units_per_pixel as int),
        2 * abs_spec(remainder - r * units_per_pixel) <= units_per_pixel,
{
    proof {
        lemma_round_error(remainder as int, units_per_pixel as int);
    }
    let wide: i128 = remainder as i128;
    let unit: i128 = units_per_pixel as i128;
    if remainder >= 0 {
        let q: i128 = (2 * wide + unit) / (2 * unit);
        q as i64
    } else {
        let q: i128 = (unit - 2 * wide) / (2 * unit);
        (-q) as i64
    }
}

} // verus!
