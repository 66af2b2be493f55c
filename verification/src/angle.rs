//! Fixed-point angles.
//!
//! An angle is a whole number of thousandths of a degree. A velocity in
//! degrees per second is then the same number of thousandths of a degree per
//! millisecond, so integrating over whole milliseconds never rounds.

use vstd::prelude::*;
use vstd::arithmetic::div_mod::lemma_mul_mod_noop;

verus! {

/// One full turn, in thousandths of a degree.
pub const FULL_TURN: i32 = 360_000;

/// The remainder of `a` by one full turn that keeps the sign of `a`: what is
/// left of `a` once every whole turn is taken out of it, towards zero. A
/// negative angle stays negative.
pub open spec fn wrap(a: int) -> int {
    if a >= 0 {
        a % (FULL_TURN as int)
    } else {
        -((-a) % (FULL_TURN as int))
    }
}

/// The range that `wrap` maps into: strictly less than one turn either way.
pub open spec fn in_wrap_range(a: int) -> bool {
    -FULL_TURN < a < FULL_TURN
}

/// The angle reached from `angle` after `elapsed_ms` milliseconds at `rate`
/// thousandths of a degree per millisecond.
pub open spec fn advanced(angle: int, rate: int, elapsed_ms: int) -> int {
    wrap(angle + rate * elapsed_ms)
}

/// `wrap` lands in the wrap range, fixes every angle already there, keeps
/// the sign of its argument and is odd.
pub proof fn lemma_wrap_properties(a: int)
    ensures
        in_wrap_range(wrap(a)),
        in_wrap_range(a) ==> wrap(a) == a,
        a >= 0 ==> wrap(a) >= 0,
        a <= 0 ==> wrap(a) <= 0,
        wrap(-a) == -wrap(a),
        (a - wrap(a)) % (FULL_TURN as int) == 0,
{
}

/// Turning in two spans ends where turning in one span of their length
/// ends, up to whole turns: how time is cut into frames does not change
/// where the cube points.
pub proof fn lemma_advanced_splits(angle: int, rate: int, first_ms: int, second_ms: int)
    ensures
        (advanced(advanced(angle, rate, first_ms), rate, second_ms) - advanced(
            angle,
            rate,
            first_ms + second_ms,
        )) % (FULL_TURN as int) == 0,
{
    let once = angle + rate * (first_ms + second_ms);
    let half = angle + rate * first_ms;
    let twice = wrap(half) + rate * second_ms;
    assert(rate * (first_ms + second_ms) == rate * first_ms + rate * second_ms)
        by (nonlinear_arith);
    lemma_wrap_properties(once);
    lemma_wrap_properties(half);
    lemma_wrap_properties(twice);
}

/// An angle that starts at zero or above and never turns backwards stays at
/// zero or above, and there the two spans end exactly where the one span
/// ends. The same holds the other way round.
pub proof fn lemma_advanced_splits_exactly(angle: int, rate: int, first_ms: int, second_ms: int)
    requires
        first_ms >= 0,
        second_ms >= 0,
        (angle >= 0 && rate >= 0) || (angle <= 0 && rate <= 0),
    ensures
        angle >= 0 && rate >= 0 ==> 0 <= advanced(angle, rate, first_ms) < FULL_TURN,
        angle <= 0 && rate <= 0 ==> -FULL_TURN < advanced(angle, rate, first_ms) <= 0,
        advanced(advanced(angle, rate, first_ms), rate, second_ms) == advanced(
            angle,
            rate,
            first_ms + second_ms,
        ),
{
    let once = angle + rate * (first_ms + second_ms);
    let half = angle + rate * first_ms;
    let twice = wrap(half) + rate * second_ms;
    assert(rate * (first_ms + second_ms) == rate * first_ms + rate * second_ms)
        by (nonlinear_arith);
    assert(rate >= 0 ==> rate * first_ms >= 0 && rate * second_ms >= 0) by (nonlinear_arith)
        requires
            first_ms >= 0,
            second_ms >= 0,
    ;
    assert(rate <= 0 ==> rate * first_ms <= 0 && rate * second_ms <= 0) by (nonlinear_arith)
        requires
            first_ms >= 0,
            second_ms >= 0,
    ;
    lemma_wrap_properties(once);
    lemma_wrap_properties(half);
    lemma_wrap_properties(twice);
    lemma_advanced_splits(angle, rate, first_ms, second_ms);
}

/// `(rate * elapsed_ms) mod FULL_TURN`, for factors of any size.
fn product_remainder(rate: u64, elapsed_ms: u128) -> (r: i64)
    ensures
        r == (rate * elapsed_ms) % (FULL_TURN as int),
        0 <= r < FULL_TURN,
{
    let a: u64 = rate % 360_000;
    let b: u64 = (elapsed_ms % 360_000) as u64;
    assert(a * b <= 360_000 * 360_000) by (nonlinear_arith)
        requires
            a <= 360_000,
            b <= 360_000,
    ;
    let p: u64 = a * b;
    proof {
        lemma_mul_mod_noop(rate as int, elapsed_ms as int, 360_000);
    }
    (p % 360_000) as i64
}

/// `rate * elapsed_ms` where that is below `2^31`, and otherwise some
/// number that is not.
fn product_capped(rate: u64, elapsed_ms: u128) -> (p: u128)
    ensures
        rate * elapsed_ms < 0x8000_0000 ==> p == rate * elapsed_ms,
        rate * elapsed_ms >= 0x8000_0000 ==> p >= 0x8000_0000,
{
    let e: u128 = if elapsed_ms < 0x8000_0000 {
        elapsed_ms
    } else {
        0x8000_0000
    };
    assert(rate * e <= 0x1_0000_0000_0000_0000 * 0x8000_0000) by (nonlinear_arith)
        requires
            rate <= 0x1_0000_0000_0000_0000,
            e <= 0x8000_0000,
    ;
    assert(rate * elapsed_ms >= rate * e) by (nonlinear_arith)
        requires
            elapsed_ms >= e,
    ;
    assert(rate >= 1 ==> rate * e >= e) by (nonlinear_arith);
    assert(rate == 0 ==> rate * elapsed_ms == 0) by (nonlinear_arith);
    (rate as u128) * e
}

/// `wrap(angle + rate * elapsed_ms)` for a rate that turns forwards.
fn advance_forward(angle: i64, rate: u64, elapsed_ms: u128) -> (r: i32)
    requires
        -0x8000_0000 <= angle <= 0x8000_0000,
    ensures
        r == wrap(angle + rate * elapsed_ms),
{
    let capped: u128 = product_capped(rate, elapsed_ms);
    if angle < 0 && capped < (-angle) as u128 {
        // The sum is still negative, so the product is small and exact.
        let sum: i64 = angle + capped as i64;
        let back: i64 = (-sum) % 360_000;
        (-back) as i32
    } else {
        let step: i64 = product_remainder(rate, elapsed_ms);
        let base: i64 = if angle >= 0 {
            angle % 360_000
        } else {
            let t: i64 = (-angle) % 360_000;
            if t == 0 {
                0
            } else {
                360_000 - t
            }
        };
        let total: i64 = base + step;
        if total >= 360_000 {
            (total - 360_000) as i32
        } else {
            total as i32
        }
    }
}

/// Turns `angle` for `elapsed_ms` milliseconds at `rate` thousandths of a
/// degree per millisecond and wraps the result, keeping its sign.
///
/// The product is never formed at full size, so no elapsed time is too long.
pub fn advance(angle: i32, rate: i64, elapsed_ms: u128) -> (r: i32)
    ensures
        r == advanced(angle as int, rate as int, elapsed_ms as int),
        in_wrap_range(r as int),
{
    proof {
        lemma_wrap_properties(angle + rate * elapsed_ms);
    }
    if rate >= 0 {
        advance_forward(angle as i64, rate as u64, elapsed_ms)
    } else {
        let speed: u64 = (-(rate as i128)) as u64;
        assert(-(angle + rate * elapsed_ms) == -angle + speed * elapsed_ms) by (nonlinear_arith)
            requires
                speed == -rate,
        ;
        proof {
            lemma_wrap_properties(-angle + speed * elapsed_ms);
        }
        let mirrored: i32 = advance_forward(-(angle as i64), speed, elapsed_ms);
        -mirrored
    }
}

} // verus!
