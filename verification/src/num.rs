//! Fixed-point scalar arithmetic.
//!
//! A scalar is an `i64` holding a real value scaled by [`SCALE`]: the raw
//! value `1_000_000` stands for `1.0`, and the smallest step is `1e-6`.
//! Multiplication and division truncate toward zero; every operation
//! saturates at the `i64` range instead of overflowing.

use vstd::prelude::*;

verus! {

/// Raw representation of `1.0`: one scalar unit is `1e-6`.
pub const SCALE: i64 = 1_000_000;

/// Tolerance used by the intersection and shading routines: `1e-6`,
/// which is exactly one raw unit.
pub const EPSILON: i64 = 1;

/// Absolute value over mathematical integers.
pub open spec fn iabs(x: int) -> int {
    if x < 0 {
        -x
    } else {
        x
    }
}

/// Saturation of a mathematical integer to the `i64` range.
pub open spec fn sat64(x: int) -> int {
    if x > i64::MAX {
        i64::MAX as int
    } else if x < i64::MIN {
        i64::MIN as int
    } else {
        x
    }
}

/// Division truncated toward zero, as the machine division of the
/// executable code behaves; `b` must not be zero.
pub open spec fn tdiv(a: int, b: int) -> int {
    if (a >= 0) == (b >= 0) {
        iabs(a) / iabs(b)
    } else {
        -(iabs(a) / iabs(b))
    }
}

pub open spec fn fx_add_spec(a: i64, b: i64) -> i64 {
    sat64(a + b) as i64
}

pub open spec fn fx_sub_spec(a: i64, b: i64) -> i64 {
    sat64(a - b) as i64
}

pub open spec fn fx_neg_spec(a: i64) -> i64 {
    sat64(-a) as i64
}

pub open spec fn fx_mul_spec(a: i64, b: i64) -> i64 {
    sat64(tdiv(a * b, SCALE as int)) as i64
}

pub open spec fn fx_div_spec(a: i64, b: i64) -> i64 {
    sat64(tdiv(a * SCALE, b as int)) as i64
}

pub open spec fn fx_abs_spec(a: i64) -> i64 {
    sat64(iabs(a as int)) as i64
}

pub open spec fn fx_max_spec(a: i64, b: i64) -> i64 {
    if a >= b {
        a
    } else {
        b
    }
}

fn clamp_to_i64(x: i128) -> (r: i64)
    ensures
        r == sat64(x as int),
{
    if x > i64::MAX as i128 {
        i64::MAX
    } else if x < i64::MIN as i128 {
        i64::MIN
    } else {
        x as i64
    }
}

/// Quotient of `p` by a positive divisor, truncated toward zero.
fn tdiv_pos(p: i128, d: i128) -> (q: i128)
    requires
        d > 0,
        p > i128::MIN,
    ensures
        q == tdiv(p as int, d as int),
        iabs(q as int) <= iabs(p as int),
{
    if p >= 0 {
        let qu: u128 = (p as u128) / (d as u128);
        proof {
            vstd::arithmetic::div_mod::lemma_fundamental_div_mod(p as int, d as int);
            assert((p as int) / (d as int) <= p as int) by (nonlinear_arith)
                requires
                    p >= 0,
                    d >= 1,
                    (p as int) == (d as int) * ((p as int) / (d as int)) + (p as int) % (d as int),
                    0 <= (p as int) % (d as int),
            ;
        }
        qu as i128
    } else {
        let np: i128 = -p;
        let qu: u128 = (np as u128) / (d as u128);
        proof {
            vstd::arithmetic::div_mod::lemma_fundamental_div_mod(np as int, d as int);
            assert((np as int) / (d as int) <= np as int) by (nonlinear_arith)
                requires
                    np >= 0,
                    d >= 1,
                    (np as int) == (d as int) * ((np as int) / (d as int)) + (np as int) % (d as int),
                    0 <= (np as int) % (d as int),
            ;
        }
        -(qu as i128)
    }
}

/// Saturating addition.
pub fn fx_add(a: i64, b: i64) -> (r: i64)
    ensures
        r == fx_add_spec(a, b),
{
    clamp_to_i64(a as i128 + b as i128)
}

/// Saturating subtraction.
pub fn fx_sub(a: i64, b: i64) -> (r: i64)
    ensures
        r == fx_sub_spec(a, b),
{
    clamp_to_i64(a as i128 - b as i128)
}

/// Saturating negation.
pub fn fx_neg(a: i64) -> (r: i64)
    ensures
        r == fx_neg_spec(a),
{
    clamp_to_i64(-(a as i128))
}

/// Fixed-point product `a * b / SCALE`, truncated toward zero and saturated.
pub fn fx_mul(a: i64, b: i64) -> (r: i64)
    ensures
        r == fx_mul_spec(a, b),
{
    proof {
        assert(-0x40000000000000000000000000000000int <= (a as int) * (b as int)
            <= 0x40000000000000000000000000000000int) by (nonlinear_arith)
            requires
                -0x8000000000000000 <= a as int <= 0x7fffffffffffffff,
                -0x8000000000000000 <= b as int <= 0x7fffffffffffffff,
        ;
    }
    let p: i128 = (a as i128) * (b as i128);
    let q: i128 = tdiv_pos(p, SCALE as i128);
    clamp_to_i64(q)
}

/// Fixed-point quotient `a * SCALE / b`, truncated toward zero and saturated.
pub fn fx_div(a: i64, b: i64) -> (r: i64)
    requires
        b != 0,
    ensures
        r == fx_div_spec(a, b),
{
    proof {
        assert(-0x40000000000000000000000000000000int < (a as int) * 1000000int
            < 0x40000000000000000000000000000000int) by (nonlinear_arith)
            requires
                -0x8000000000000000 <= a as int <= 0x7fffffffffffffff,
        ;
    }
    let p: i128 = (a as i128) * (SCALE as i128);
    let q: i128 = if b > 0 {
        tdiv_pos(p, b as i128)
    } else {
        -tdiv_pos(p, -(b as i128))
    };
    proof {
        if b < 0 {
            assert(tdiv(p as int, b as int) == -tdiv(p as int, -(b as int)));
        }
    }
    clamp_to_i64(q)
}

/// Absolute value, saturating at `i64::MAX` for `i64::MIN`.
pub fn fx_abs(a: i64) -> (r: i64)
    ensures
        r == fx_abs_spec(a),
{
    if a >= 0 {
        a
    } else {
        clamp_to_i64(-(a as i128))
    }
}

/// The larger of two scalars.
pub fn fx_max(a: i64, b: i64) -> (r: i64)
    ensures
        r == fx_max_spec(a, b),
{
    if a >= b {
        a
    } else {
        b
    }
}

/// Multiplication by zero is exact.
pub proof fn lemma_fx_mul_zero(a: i64)
    ensures
        fx_mul_spec(a, 0) == 0,
        fx_mul_spec(0, a) == 0,
{
    assert((a as int) * 0 == 0) by (nonlinear_arith);
    assert(0 * (a as int) == 0) by (nonlinear_arith);
    vstd::arithmetic::div_mod::lemma_div_of0(1000000int);
}

/// Multiplication by `1.0` is exact.
pub proof fn lemma_fx_mul_unit(a: i64)
    ensures
        fx_mul_spec(a, SCALE) == a,
        fx_mul_spec(SCALE, a) == a,
{
    assert((a as int) * (SCALE as int) == (SCALE as int) * (a as int)) by (nonlinear_arith);
    if a >= 0 {
        vstd::arithmetic::div_mod::lemma_div_multiples_vanish(a as int, SCALE as int);
        assert(iabs((a as int) * (SCALE as int)) == (SCALE as int) * (a as int))
            by (nonlinear_arith)
            requires
                a >= 0,
        ;
    } else {
        vstd::arithmetic::div_mod::lemma_div_multiples_vanish(-(a as int), SCALE as int);
        assert(iabs((a as int) * (SCALE as int)) == (SCALE as int) * (-(a as int)))
            by (nonlinear_arith)
            requires
                a < 0,
        ;
    }
}

/// Multiplication by `-1.0` is exact negation.
pub proof fn lemma_fx_mul_neg_unit(a: i64)
    requires
        a > i64::MIN,
    ensures
        fx_mul_spec(a, fx_neg_spec(SCALE)) == fx_neg_spec(a),
        fx_mul_spec(fx_neg_spec(SCALE), a) == fx_neg_spec(a),
{
    assert(fx_neg_spec(SCALE) == -1000000i64);
    assert((a as int) * (-1000000int) == (-1000000int) * (a as int)) by (nonlinear_arith);
    if a >= 0 {
        vstd::arithmetic::div_mod::lemma_div_multiples_vanish(a as int, 1000000int);
        assert(iabs((a as int) * (-1000000int)) == 1000000int * (a as int)) by (nonlinear_arith)
            requires
                a >= 0,
        ;
    } else {
        vstd::arithmetic::div_mod::lemma_div_multiples_vanish(-(a as int), 1000000int);
        assert(iabs((a as int) * (-1000000int)) == 1000000int * (-(a as int)))
            by (nonlinear_arith)
            requires
                a < 0,
        ;
    }
}

/// Multiplication by `2.0` is exact doubling while the double fits.
pub proof fn lemma_fx_mul_double(a: i64)
    requires
        -0x2000000000000000 <= a,
        a <= 0x2000000000000000,
    ensures
        fx_mul_spec(2_000_000i64, a) as int == 2 * (a as int),
        fx_mul_spec(a, 2_000_000i64) as int == 2 * (a as int),
{
    assert((a as int) * 2000000int == 2000000int * (a as int)) by (nonlinear_arith);
    if a >= 0 {
        vstd::arithmetic::div_mod::lemma_div_multiples_vanish(2 * (a as int), 1000000int);
        assert(2000000int * (a as int) == 1000000int * (2 * (a as int))) by (nonlinear_arith);
        assert(iabs(2000000int * (a as int)) == 1000000int * (2 * (a as int)))
            by (nonlinear_arith)
            requires
                a >= 0,
        ;
    } else {
        vstd::arithmetic::div_mod::lemma_div_multiples_vanish(-2 * (a as int), 1000000int);
        assert(2000000int * (a as int) == -(1000000int * (-2 * (a as int)))) by (nonlinear_arith);
        assert(iabs(2000000int * (a as int)) == 1000000int * (-2 * (a as int)))
            by (nonlinear_arith)
            requires
                a < 0,
        ;
    }
}

/// The sign of a product survives truncation.
pub proof fn lemma_fx_mul_sign(a: i64, b: i64)
    requires
        b >= 0,
    ensures
        a >= 0 ==> fx_mul_spec(a, b) >= 0,
        a <= 0 ==> fx_mul_spec(a, b) <= 0,
{
    if a >= 0 {
        assert(a * b >= 0) by (nonlinear_arith)
            requires
                a >= 0,
                b >= 0,
        ;
        vstd::arithmetic::div_mod::lemma_div_pos_is_pos(a * b, 1000000int);
    } else {
        assert(a * b <= 0) by (nonlinear_arith)
            requires
                a <= 0,
                b >= 0,
        ;
        vstd::arithmetic::div_mod::lemma_div_pos_is_pos(-(a * b), 1000000int);
    }
}

/// Division of a negated scalar by `-1.0` is exact.
pub proof fn lemma_fx_div_neg_unit(a: i64)
    requires
        a >= 0,
    ensures
        fx_div_spec(fx_neg_spec(a), fx_neg_spec(SCALE)) == a,
{
    assert(fx_neg_spec(SCALE) == -1000000i64);
    assert(fx_neg_spec(a) as int == -(a as int));
    assert((-(a as int)) * (SCALE as int) == -((SCALE as int) * (a as int))) by (nonlinear_arith);
    assert(iabs((-(a as int)) * (SCALE as int)) == (SCALE as int) * (a as int))
        by (nonlinear_arith)
        requires
            a >= 0,
    ;
    vstd::arithmetic::div_mod::lemma_div_multiples_vanish(a as int, SCALE as int);
    if a == 0 {
        vstd::arithmetic::div_mod::lemma_div_of0(1000000int);
    }
}

/// A machine integer as a fixed-point scalar, saturating at the range end.
pub open spec fn fx_from_int_spec(n: int) -> i64 {
    sat64(n * SCALE) as i64
}

pub fn fx_from_usize(n: usize) -> (r: i64)
    ensures
        r == fx_from_int_spec(n as int),
        n >= 1 ==> r >= SCALE,
{
    proof {
        assert((n as int) * 1000000int < 0x40000000000000000000000000000000int)
            by (nonlinear_arith)
            requires
                n as int >= 0,
                (n as int) <= 0xffffffffffffffffu64,
        ;
        if n >= 1 {
            assert((n as int) * 1000000int >= 1000000int) by (nonlinear_arith)
                requires
                    n as int >= 1,
            ;
        }
    }
    clamp_to_i64((n as i128) * (SCALE as i128))
}

/// Integer square root: the unique `r` with `r * r <= x < (r + 1) * (r + 1)`.
pub open spec fn isqrt_spec(x: nat) -> nat
    decreases x,
{
    if x == 0 {
        0
    } else {
        let r = isqrt_spec((x - 1) as nat);
        if (r + 1) * (r + 1) <= x {
            r + 1
        } else {
            r
        }
    }
}

pub proof fn lemma_isqrt_bracket(x: nat)
    ensures
        isqrt_spec(x) * isqrt_spec(x) <= x,
        x < (isqrt_spec(x) + 1) * (isqrt_spec(x) + 1),
    decreases x,
{
    reveal_with_fuel(isqrt_spec, 2);
    let s = isqrt_spec(x);
    if x == 0 {
        assert(s == 0);
        assert(s * s <= x);
        assert(x < (s + 1) * (s + 1)) by (nonlinear_arith)
            requires
                s == 0,
                x == 0,
        ;
    } else {
        lemma_isqrt_bracket((x - 1) as nat);
        let r = isqrt_spec((x - 1) as nat);
        assert(r * r <= x - 1);
        assert(x - 1 < (r + 1) * (r + 1));
        if (r + 1) * (r + 1) <= x {
            assert(s == r + 1);
            assert(s * s <= x);
            assert(x < (r + 2) * (r + 2)) by (nonlinear_arith)
                requires
                    (x - 1) < (r + 1) * (r + 1),
                    (r + 1) * (r + 1) <= x,
                    r >= 0,
            ;
            assert(x < (s + 1) * (s + 1));
        } else {
            assert(s == r);
            assert(s * s <= x);
            assert(x < (s + 1) * (s + 1));
        }
    }
}

pub proof fn lemma_isqrt_unique(x: nat, r: nat)
    requires
        r * r <= x,
        x < (r + 1) * (r + 1),
    ensures
        r == isqrt_spec(x),
{
    lemma_isqrt_bracket(x);
    let s = isqrt_spec(x);
    if r < s {
        assert(false) by (nonlinear_arith)
            requires
                r < s,
                s * s <= x,
                x < (r + 1) * (r + 1),
                r >= 0,
                s >= 0,
        ;
    }
    if s < r {
        assert(false) by (nonlinear_arith)
            requires
                s < r,
                r * r <= x,
                x < (s + 1) * (s + 1),
                r >= 0,
                s >= 0,
        ;
    }
}

fn isqrt_u128(x: u128) -> (r: u128)
    ensures
        r as nat == isqrt_spec(x as nat),
{
    let mut lo: u128 = 0;
    let mut hi: u128 = 0x10000000000000000u128;
    while lo + 1 < hi
        invariant
            lo < hi,
            hi <= 0x10000000000000000u128,
            (lo as int) * (lo as int) <= x as int,
            (x as int) < (hi as int) * (hi as int),
        decreases hi - lo,
    {
        proof {
            vstd::arithmetic::div_mod::lemma_fundamental_div_mod((hi - lo) as int, 2);
        }
        let mid: u128 = lo + (hi - lo) / 2;
        if mid <= x / mid {
            proof {
                vstd::arithmetic::div_mod::lemma_fundamental_div_mod(x as int, mid as int);
                assert((mid as int) * (mid as int) <= x as int) by (nonlinear_arith)
                    requires
                        mid as int <= (x as int) / (mid as int),
                        (x as int) == (mid as int) * ((x as int) / (mid as int)) + (x as int) % (
                        mid as int),
                        0 <= (x as int) % (mid as int),
                        mid as int >= 1,
                ;
            }
            lo = mid;
        } else {
            proof {
                vstd::arithmetic::div_mod::lemma_fundamental_div_mod(x as int, mid as int);
                assert((x as int) < (mid as int) * (mid as int)) by (nonlinear_arith)
                    requires
                        mid as int > (x as int) / (mid as int),
                        (x as int) == (mid as int) * ((x as int) / (mid as int)) + (x as int) % (
                        mid as int),
                        0 <= (x as int) % (mid as int) < mid as int,
                        mid as int >= 1,
                ;
            }
            hi = mid;
        }
    }
    proof {
        lemma_isqrt_unique(x as nat, lo as nat);
    }
    lo
}

/// Square root of a scalar: `fx_sqrt(v) / SCALE` approximates the real
/// square root of `v / SCALE` from below. Nonpositive inputs yield zero.
pub open spec fn fx_sqrt_spec(v: i64) -> i64 {
    if v <= 0 {
        0
    } else {
        isqrt_spec((v * SCALE) as nat) as i64
    }
}

pub fn fx_sqrt(v: i64) -> (r: i64)
    ensures
        r == fx_sqrt_spec(v),
        r >= 0,
{
    if v <= 0 {
        0
    } else {
        proof {
            assert((v as int) * 1000000int < 0x100000000000000000000000000000000int)
                by (nonlinear_arith)
                requires
                    v as int > 0,
                    v as int <= 0x7fffffffffffffff,
            ;
        }
        let x: u128 = (v as u128) * (SCALE as u128);
        let r: u128 = isqrt_u128(x);
        proof {
            lemma_isqrt_bracket(x as nat);
            assert((r as int) < 0x8000000000000000int) by (nonlinear_arith)
                requires
                    (r as int) * (r as int) <= x as int,
                    (x as int) < 0x8000000000000000000000int,
                    r as int >= 0,
            ;
        }
        r as i64
    }
}

/// Integer power of a scalar: `e` repeated fixed-point multiplications,
/// starting from `1.0`.
pub open spec fn fx_powi_spec(base: i64, e: nat) -> i64
    decreases e,
{
    if e == 0 {
        SCALE
    } else {
        fx_mul_spec(base, fx_powi_spec(base, (e - 1) as nat))
    }
}

pub fn fx_powi(base: i64, e: u32) -> (r: i64)
    ensures
        r == fx_powi_spec(base, e as nat),
{
    let mut acc: i64 = SCALE;
    let mut i: u32 = 0;
    while i < e
        invariant
            i <= e,
            acc == fx_powi_spec(base, i as nat),
        decreases e - i,
    {
        acc = fx_mul(base, acc);
        proof {
            assert(fx_powi_spec(base, (i + 1) as nat) == fx_mul_spec(
                base,
                fx_powi_spec(base, i as nat),
            ));
        }
        i = i + 1;
    }
    acc
}

} // verus!
