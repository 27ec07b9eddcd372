//! Saturating fixed-point scalars.
//!
//! A scalar is an `i64` that counts millionths: the raw value `1_500_000`
//! stands for 1.5. Every operation rounds toward negative infinity and
//! saturates at the ends of the `i64` range, so none of them can fail.

use vstd::prelude::*;

verus! {

/// Raw units in one whole unit.
pub const SCALE: i64 = 1_000_000;

/// The `i64` nearest to `x`.
pub open spec fn sat(x: int) -> i64 {
    if x < i64::MIN {
        i64::MIN
    } else if x > i64::MAX {
        i64::MAX
    } else {
        x as i64
    }
}

/// The quotient `n / d` rounded toward negative infinity, for `d != 0`.
pub open spec fn floor_div(n: int, d: int) -> int {
    if d > 0 {
        n / d
    } else {
        (-n) / (-d)
    }
}

/// `r` is the square root of `n` rounded down.
pub open spec fn is_floor_sqrt(n: int, r: int) -> bool {
    0 <= r && r * r <= n && n < (r + 1) * (r + 1)
}

/// The square root of `n` rounded down.
pub open spec fn isqrt_spec(n: u128) -> u64 {
    choose|r: u64| is_floor_sqrt(n as int, r as int)
}

/// The sum, saturated.
pub open spec fn fx_add_spec(a: i64, b: i64) -> i64 {
    sat(a + b)
}

/// The difference, saturated.
pub open spec fn fx_sub_spec(a: i64, b: i64) -> i64 {
    sat(a - b)
}

/// The negation, saturated.
pub open spec fn fx_neg_spec(a: i64) -> i64 {
    sat(-a)
}

/// The fixed-point product: the raw product over `SCALE`, rounded down and
/// saturated.
pub open spec fn fx_mul_spec(a: i64, b: i64) -> i64 {
    sat(floor_div(a * b, SCALE as int))
}

/// The fixed-point quotient: `a * SCALE / b` on the raw values, rounded down
/// and saturated, for `b != 0`.
pub open spec fn fx_div_spec(a: i64, b: i64) -> i64 {
    sat(floor_div(a * SCALE, b as int))
}

/// The raw product `a * b` over `c`, rounded down once and saturated, for
/// `c != 0`.
pub open spec fn fx_mul_div_spec(a: i64, b: i64, c: i64) -> i64 {
    sat(floor_div(a * b, c as int))
}

/// The smaller of two scalars.
pub open spec fn fx_min_spec(a: i64, b: i64) -> i64 {
    if a <= b {
        a
    } else {
        b
    }
}

/// The fixed-point square root, rounded down; zero for a scalar that is not
/// positive.
pub open spec fn fx_sqrt_spec(a: i64) -> i64 {
    if a <= 0 {
        0
    } else {
        sat(isqrt_spec((a * SCALE) as u128) as int)
    }
}

/// A time in microseconds as a scalar in seconds, saturated.
pub open spec fn fx_from_time_spec(t: u64) -> i64 {
    sat(t as int)
}

/// A floor square root is unique.
pub proof fn lemma_floor_sqrt_unique(n: int, r1: int, r2: int)
    requires
        is_floor_sqrt(n, r1),
        is_floor_sqrt(n, r2),
    ensures
        r1 == r2,
{
    if r1 < r2 {
        assert((r1 + 1) * (r1 + 1) <= r2 * r2) by (nonlinear_arith)
            requires
                0 <= r1,
                r1 + 1 <= r2,
        ;
    } else if r2 < r1 {
        assert((r2 + 1) * (r2 + 1) <= r1 * r1) by (nonlinear_arith)
            requires
                0 <= r2,
                r2 + 1 <= r1,
        ;
    }
}

/// Every natural number has a floor square root.
pub proof fn lemma_floor_sqrt_exists(n: nat)
    ensures
        exists|r: int| is_floor_sqrt(n as int, r),
    decreases n,
{
    if n == 0 {
        assert(is_floor_sqrt(0, 0));
    } else {
        let below: nat = (n - 1) as nat;
        lemma_floor_sqrt_exists(below);
        let r = choose|r: int| is_floor_sqrt(below as int, r);
        if (r + 1) * (r + 1) <= n {
            assert(n < (r + 2) * (r + 2)) by (nonlinear_arith)
                requires
                    n - 1 < (r + 1) * (r + 1),
                    0 <= r,
            ;
            assert(is_floor_sqrt(n as int, r + 1));
        } else {
            assert(is_floor_sqrt(n as int, r));
        }
    }
}

/// `isqrt_spec` is the floor square root.
pub proof fn lemma_isqrt_spec(n: u128)
    ensures
        is_floor_sqrt(n as int, isqrt_spec(n) as int),
{
    lemma_floor_sqrt_exists(n as nat);
    let r = choose|r: int| is_floor_sqrt(n as int, r);
    assert(r < 0x1_0000_0000_0000_0000) by (nonlinear_arith)
        requires
            0 <= r,
            r * r <= n,
            n <= 0xffff_ffff_ffff_ffff_ffff_ffff_ffff_ffff,
    ;
    assert(is_floor_sqrt(n as int, (r as u64) as int));
}

/// A product with zero is zero.
pub proof fn lemma_mul_zero(a: i64)
    ensures
        fx_mul_spec(a, 0) == 0,
        fx_mul_spec(0, a) == 0,
{
    assert(a * 0 == 0) by (nonlinear_arith);
    assert(0 * a == 0) by (nonlinear_arith);
    assert(floor_div(0, SCALE as int) == 0);
}

/// Clamps a wide intermediate value into the `i64` range.
pub fn saturate(x: i128) -> (r: i64)
    ensures
        r == sat(x as int),
{
    if x < i64::MIN as i128 {
        i64::MIN
    } else if x > i64::MAX as i128 {
        i64::MAX
    } else {
        x as i64
    }
}

/// Divides rounding toward negative infinity.
fn floor_div_wide(n: i128, d: i128) -> (r: i128)
    requires
        d != 0,
        -0x4000_0000_0000_0000_0000_0000_0000_0000 <= n <= 0x4000_0000_0000_0000_0000_0000_0000_0000,
        -0x4000_0000_0000_0000_0000_0000_0000_0000 <= d <= 0x4000_0000_0000_0000_0000_0000_0000_0000,
    ensures
        r == floor_div(n as int, d as int),
{
    let num: i128 = if d < 0 { -n } else { n };
    let den: i128 = if d < 0 { -d } else { d };
    if num >= 0 {
        let q: u128 = (num as u128) / (den as u128);
        q as i128
    } else {
        let pos: u128 = (-num - 1) as u128;
        let q: u128 = pos / (den as u128);
        proof {
            lemma_floor_div_negative(num as int, den as int);
        }
        -(q as i128) - 1
    }
}

/// Floor division of a negative numerator, by way of a non-negative one.
proof fn lemma_floor_div_negative(n: int, d: int)
    requires
        n < 0,
        d > 0,
    ensures
        n / d == -((-n - 1) / d) - 1,
{
    let q = (-n - 1) / d;
    let r = (-n - 1) % d;
    vstd::arithmetic::div_mod::lemma_fundamental_div_mod(-n - 1, d);
    assert(-n - 1 == d * q + r);
    assert(0 <= r < d) by {
        vstd::arithmetic::div_mod::lemma_mod_bound(-n - 1, d);
    }
    // n == d * (-q - 1) + (d - 1 - r), with 0 <= d - 1 - r < d
    assert(n == d * (-q - 1) + (d - 1 - r)) by (nonlinear_arith)
        requires
            -n - 1 == d * q + r,
    ;
    vstd::arithmetic::div_mod::lemma_fundamental_div_mod_converse(n, d, -q - 1, d - 1 - r);
}

/// The sum, saturated.
#[verifier::when_used_as_spec(fx_add_spec)]
pub fn fx_add(a: i64, b: i64) -> (r: i64)
    ensures
        r == fx_add_spec(a, b),
{
    saturate(a as i128 + b as i128)
}

/// The difference, saturated.
#[verifier::when_used_as_spec(fx_sub_spec)]
pub fn fx_sub(a: i64, b: i64) -> (r: i64)
    ensures
        r == fx_sub_spec(a, b),
{
    saturate(a as i128 - b as i128)
}

/// The negation, saturated.
#[verifier::when_used_as_spec(fx_neg_spec)]
pub fn fx_neg(a: i64) -> (r: i64)
    ensures
        r == fx_neg_spec(a),
{
    saturate(-(a as i128))
}

/// The fixed-point product: the product of the raw values over `SCALE`,
/// rounded down and saturated.
#[verifier::when_used_as_spec(fx_mul_spec)]
pub fn fx_mul(a: i64, b: i64) -> (r: i64)
    ensures
        r == fx_mul_spec(a, b),
{
    assert(-0x4000_0000_0000_0000_0000_0000_0000_0000 <= (a as int) * (b as int)
        <= 0x4000_0000_0000_0000_0000_0000_0000_0000) by (nonlinear_arith)
        requires
            -0x8000_0000_0000_0000 <= a <= 0x7fff_ffff_ffff_ffff,
            -0x8000_0000_0000_0000 <= b <= 0x7fff_ffff_ffff_ffff,
    ;
    let wide: i128 = (a as i128) * (b as i128);
    saturate(floor_div_wide(wide, SCALE as i128))
}

/// The fixed-point quotient: `a * SCALE / b` on the raw values, rounded down
/// and saturated.
#[verifier::when_used_as_spec(fx_div_spec)]
pub fn fx_div(a: i64, b: i64) -> (r: i64)
    requires
        b != 0,
    ensures
        r == fx_div_spec(a, b),
{
    let wide: i128 = (a as i128) * 1_000_000;
    assert(wide == a * SCALE);
    saturate(floor_div_wide(wide, b as i128))
}

/// The raw product `a * b` over `c`, rounded down once and saturated.
#[verifier::when_used_as_spec(fx_mul_div_spec)]
pub fn fx_mul_div(a: i64, b: i64, c: i64) -> (r: i64)
    requires
        c != 0,
    ensures
        r == fx_mul_div_spec(a, b, c),
{
    assert(-0x4000_0000_0000_0000_0000_0000_0000_0000 <= (a as int) * (b as int)
        <= 0x4000_0000_0000_0000_0000_0000_0000_0000) by (nonlinear_arith)
        requires
            -0x8000_0000_0000_0000 <= a <= 0x7fff_ffff_ffff_ffff,
            -0x8000_0000_0000_0000 <= b <= 0x7fff_ffff_ffff_ffff,
    ;
    let wide: i128 = (a as i128) * (b as i128);
    saturate(floor_div_wide(wide, c as i128))
}

/// The smaller of two scalars.
#[verifier::when_used_as_spec(fx_min_spec)]
pub fn fx_min(a: i64, b: i64) -> (r: i64)
    ensures
        r == fx_min_spec(a, b),
{
    if a <= b {
        a
    } else {
        b
    }
}

/// The square root of `n`, rounded down.
#[verifier::when_used_as_spec(isqrt_spec)]
pub fn isqrt(n: u128) -> (r: u64)
    ensures
        r == isqrt_spec(n),
        is_floor_sqrt(n as int, r as int),
{
    let mut lo: u128 = 0;
    let mut hi: u128 = 0x1_0000_0000_0000_0000;
    while hi - lo > 1
        invariant
            lo < hi <= 0x1_0000_0000_0000_0000,
            lo * lo <= n,
            n < hi * hi,
        decreases hi - lo,
    {
        let mid: u128 = lo + (hi - lo) / 2;
        assert(mid * mid <= 0xffff_ffff_ffff_ffff_ffff_ffff_ffff_ffff) by (nonlinear_arith)
            requires
                0 <= mid <= 0xffff_ffff_ffff_ffff,
        ;
        if mid * mid <= n {
            lo = mid;
        } else {
            hi = mid;
        }
    }
    let r: u64 = lo as u64;
    proof {
        assert(hi == lo + 1);
        assert(is_floor_sqrt(n as int, r as int));
        let c = isqrt_spec(n);
        assert(is_floor_sqrt(n as int, c as int));
        lemma_floor_sqrt_unique(n as int, r as int, c as int);
    }
    r
}

/// The fixed-point square root of a scalar, rounded down; zero for a
/// scalar that is not positive.
#[verifier::when_used_as_spec(fx_sqrt_spec)]
pub fn fx_sqrt(a: i64) -> (r: i64)
    ensures
        r == fx_sqrt_spec(a),
{
    if a <= 0 {
        0
    } else {
        let wide: u128 = (a as u128) * 1_000_000;
        assert(wide == a * SCALE);
        saturate(isqrt(wide) as i128)
    }
}

/// A time in microseconds as a scalar in seconds, saturated.
#[verifier::when_used_as_spec(fx_from_time_spec)]
pub fn fx_from_time(t: u64) -> (r: i64)
    ensures
        r == fx_from_time_spec(t),
{
    if t > i64::MAX as u64 {
        i64::MAX
    } else {
        t as i64
    }
}

} // verus!
