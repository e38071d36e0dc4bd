//! Fixed-point arithmetic: a quantity is a whole number of parts, `UNIT` parts
//! to one whole. Quotients are cut toward zero, so that a value and its
//! negative always have the same size.

use vstd::prelude::*;

verus! {

/// Parts in one whole.
pub const UNIT: i64 = 1_000_000;

/// Half a whole: random draws lie in `[-HALF, HALF)`.
pub const HALF: i64 = 500_000;

/// The least value of a random draw: `-HALF`.
pub const LEAST_DRAW: i64 = -500_000;

/// The largest size that an offset or a rotation is allowed to reach.
pub const POSITION_LIMIT: i64 = 1_000_000_000_000;

/// The size of `v`.
pub open spec fn magnitude(v: int) -> int {
    if v < 0 {
        -v
    } else {
        v
    }
}

/// `num / den` cut toward zero.
pub open spec fn toward_zero(num: int, den: int) -> int
    recommends
        den > 0,
{
    if num >= 0 {
        num / den
    } else {
        -((-num) / den)
    }
}

/// `v` held inside `[-limit, limit]`.
pub open spec fn bounded(v: int, limit: int) -> int
    recommends
        limit >= 0,
{
    if v < -limit {
        -limit
    } else if v > limit {
        limit
    } else {
        v
    }
}

/// What `nannou::math::clamp` gives for `n` between the ends `start` and
/// `end`, whichever of the two is the smaller.
pub open spec fn clamped(n: int, start: int, end: int) -> int {
    if start <= end {
        if n < start {
            start
        } else if n > end {
            end
        } else {
            n
        }
    } else {
        if n < end {
            end
        } else if n > start {
            start
        } else {
            n
        }
    }
}

/// Calls `nannou::math::clamp` (which `nannou` takes from `nannou_core`) on
/// three `i64`: the nearest value to `n` between the two ends, in either
/// order of the ends. It compares and returns one of its arguments.
#[verifier::external_body]
pub(crate) fn clamp(n: i64, start: i64, end: i64) -> (r: i64)
    ensures
        r == clamped(n as int, start as int, end as int),
{
    nannou::math::clamp(n, start, end)
}

pub proof fn lemma_magnitude_of_product(a: int, b: int)
    ensures
        magnitude(a * b) == magnitude(a) * magnitude(b),
        ((a < 0) != (b < 0)) ==> a * b <= 0,
        ((a < 0) == (b < 0)) ==> a * b >= 0,
{
    assert(magnitude(a * b) == magnitude(a) * magnitude(b)) by (nonlinear_arith)
        requires
            magnitude(a) == if a < 0 { -a } else { a },
            magnitude(b) == if b < 0 { -b } else { b },
            magnitude(a * b) == if a * b < 0 { -(a * b) } else { a * b },
    ;
    assert(((a < 0) != (b < 0)) ==> a * b <= 0) by (nonlinear_arith);
    assert(((a < 0) == (b < 0)) ==> a * b >= 0) by (nonlinear_arith);
}

/// The size of a quotient cut toward zero is the quotient of the sizes.
pub proof fn lemma_magnitude_of_quotient(num: int, den: int)
    requires
        den > 0,
    ensures
        magnitude(toward_zero(num, den)) == magnitude(num) / den,
        num >= 0 ==> toward_zero(num, den) >= 0,
        num <= 0 ==> toward_zero(num, den) <= 0,
{
    vstd::arithmetic::div_mod::lemma_div_pos_is_pos(magnitude(num), den);
}

/// A quotient is no larger than `k` where its numerator is no larger than
/// `k` times its denominator.
pub proof fn lemma_quotient_bound(num: int, den: int, k: int)
    requires
        den > 0,
        k >= 0,
        magnitude(num) <= k * den,
    ensures
        magnitude(toward_zero(num, den)) <= k,
{
    lemma_magnitude_of_quotient(num, den);
    vstd::arithmetic::div_mod::lemma_div_is_ordered(magnitude(num), k * den, den);
    vstd::arithmetic::div_mod::lemma_div_multiples_vanish(k, den);
    assert(k * den == den * k) by (nonlinear_arith);
}

/// The part of `draw * scale` that falls to row `row` of `rows`: nothing in
/// the top row, all of it at `row == rows`.
pub open spec fn weighed(draw: int, scale: int, row: int, rows: int) -> int
    recommends
        rows > 0,
{
    toward_zero(draw * row * scale, UNIT * rows)
}

/// A weighed draw of at most one whole is no larger than its scale.
pub proof fn lemma_weighed_bound(draw: int, scale: int, row: int, rows: int)
    requires
        rows > 0,
        0 <= row <= rows,
        -UNIT <= draw <= UNIT,
    ensures
        magnitude(weighed(draw, scale, row, rows)) <= magnitude(scale),
{
    let size = magnitude(scale);
    let part = draw * row;
    lemma_magnitude_of_product(draw, row);
    lemma_magnitude_of_product(part, scale);
    assert(magnitude(draw) * row <= UNIT * rows) by (nonlinear_arith)
        requires
            0 <= magnitude(draw) <= UNIT,
            0 <= row <= rows,
    ;
    assert(magnitude(part) * size <= size * (UNIT * rows)) by (nonlinear_arith)
        requires
            0 <= magnitude(part) <= UNIT * rows,
            0 <= size,
    ;
    assert(0 < UNIT * rows) by (nonlinear_arith)
        requires
            0 < rows,
            UNIT == 1_000_000,
    ;
    lemma_quotient_bound(part * scale, UNIT * rows, size);
}

/// Computes `weighed(draw, scale, row, rows)`.
pub fn weigh(draw: i64, scale: i32, row: u32, rows: u32) -> (r: i64)
    requires
        rows > 0,
        row <= rows,
        -UNIT <= draw <= UNIT,
    ensures
        r == weighed(draw as int, scale as int, row as int, rows as int),
        magnitude(r as int) <= magnitude(scale as int),
{
    proof {
        assert(-1_000_000 * 0x1_0000_0000 <= draw * row <= 1_000_000 * 0x1_0000_0000)
            by (nonlinear_arith)
            requires
                -1_000_000 <= draw <= 1_000_000,
                0 <= row <= 0x1_0000_0000,
        ;
        assert(0 < 1_000_000 * rows <= 1_000_000 * 0x1_0000_0000) by (nonlinear_arith)
            requires
                0 < rows <= 0x1_0000_0000,
        ;
    }
    let part: i128 = (draw as i128) * (row as i128);
    let den: u64 = 1_000_000u64 * (rows as u64);
    proof {
        lemma_weighed_bound(draw as int, scale as int, row as int, rows as int);
    }
    scaled_quotient(part, scale as i64, den)
}

/// `a * b / den`, cut toward zero and held inside `[-i64::MAX, i64::MAX]`.
pub fn scaled_quotient(a: i128, b: i64, den: u64) -> (r: i64)
    requires
        den > 0,
        -0x1_0000_0000_0000_0000 <= a <= 0x1_0000_0000_0000_0000,
    ensures
        r == bounded(toward_zero(a * b, den as int), i64::MAX as int),
{
    let size_a: u128 = if a < 0 { (-a) as u128 } else { a as u128 };
    let size_b: u128 = if b < 0 { (-(b as i128)) as u128 } else { b as u128 };
    proof {
        lemma_magnitude_of_product(a as int, b as int);
        assert(size_a * size_b <= 0x1_0000_0000_0000_0000 * 0x8000_0000_0000_0000)
            by (nonlinear_arith)
            requires
                size_a <= 0x1_0000_0000_0000_0000,
                size_b <= 0x8000_0000_0000_0000,
        ;
        lemma_magnitude_of_quotient(a * b, den as int);
        assert(magnitude(a as int) == size_a);
        assert(magnitude(b as int) == size_b);
    }
    let product: u128 = size_a * size_b;
    let quotient: u128 = product / (den as u128);
    let size: i64 = if quotient > 0x7fff_ffff_ffff_ffff {
        0x7fff_ffff_ffff_ffff
    } else {
        quotient as i64
    };
    if (a < 0) != (b < 0) {
        -size
    } else {
        size
    }
}

} // verus!
