//! Fixed-point scalars and their arithmetic.
//!
//! A scalar is an `i64` holding [`SCALE`] steps per world unit, radian or
//! second.  All operations saturate onto the symmetric range
//! `[-FX_MAX, FX_MAX]`, so every operation is total and negation is always
//! defined.

use vstd::prelude::*;

verus! {

/// Fixed-point steps per world unit, radian or second.
pub const SCALE: i64 = 1_000_000;

/// Largest representable scalar (`i64::MAX`); scalars saturate onto
/// `[-FX_MAX, FX_MAX]`.
pub const FX_MAX: i64 = 0x7fff_ffff_ffff_ffff;

/// Magnitude of a mathematical integer.
pub open spec fn abs_of(a: int) -> int {
    if a < 0 { -a } else { a }
}

/// Sum of two scalars, saturated onto `[-FX_MAX, FX_MAX]`.
pub open spec fn sat_add_spec(a: int, b: int) -> int {
    if a + b > FX_MAX { FX_MAX as int }
    else if a + b < -(FX_MAX as int) { -(FX_MAX as int) }
    else { a + b }
}

/// Fixed-point product `a * b / SCALE`, truncated toward zero and saturated
/// onto `[-FX_MAX, FX_MAX]`.
pub open spec fn fp_mul_spec(a: int, b: int) -> int {
    let p = (abs_of(a) * abs_of(b)) / (SCALE as int);
    let m = if p > FX_MAX { FX_MAX as int } else { p };
    if (a < 0) != (b < 0) { -m } else { m }
}

/// `v` pulled into `[lo, hi]`.
pub open spec fn clamp_spec(v: int, lo: int, hi: int) -> int {
    if v < lo { lo } else if v > hi { hi } else { v }
}

/// Saturating addition: exact where the sum fits, else the nearest bound.
pub fn sat_add(a: i64, b: i64) -> (r: i64)
    ensures
        r as int == sat_add_spec(a as int, b as int),
        -FX_MAX <= r,
{
    if b >= 0 {
        if a <= FX_MAX - b {
            let s: i64 = a + b;
            if s < -FX_MAX { -FX_MAX } else { s }
        } else {
            FX_MAX
        }
    } else {
        if a >= (-FX_MAX) - b { a + b } else { -FX_MAX }
    }
}

/// Fixed-point multiplication; the result is `a * b / SCALE` truncated
/// toward zero, saturated onto `[-FX_MAX, FX_MAX]`.
pub fn fp_mul(a: i64, b: i64) -> (r: i64)
    ensures
        r as int == fp_mul_spec(a as int, b as int),
        -FX_MAX <= r,
{
    let neg: bool = (a < 0) != (b < 0);
    let ma: u128 = if a >= 0 { a as u128 } else { (-(a as i128)) as u128 };
    let mb: u128 = if b >= 0 { b as u128 } else { (-(b as i128)) as u128 };
    proof {
        assert(ma as int == abs_of(a as int));
        assert(mb as int == abs_of(b as int));
        assert(ma <= 0x8000_0000_0000_0000u128);
        assert(mb <= 0x8000_0000_0000_0000u128);
        assert(ma * mb <= 0x4000_0000_0000_0000_0000_0000_0000_0000u128) by (nonlinear_arith)
            requires
                ma <= 0x8000_0000_0000_0000u128,
                mb <= 0x8000_0000_0000_0000u128,
        ;
    }
    let p: u128 = (ma * mb) / (SCALE as u128);
    let m: i64 = if p > (FX_MAX as u128) { FX_MAX } else { p as i64 };
    if neg { -m } else { m }
}

/// `v` pulled into `[lo, hi]`.
pub fn clamp_fx(v: i64, lo: i64, hi: i64) -> (r: i64)
    requires
        lo <= hi,
    ensures
        r as int == clamp_spec(v as int, lo as int, hi as int),
{
    if v < lo { lo } else if v > hi { hi } else { v }
}

/// The magnitude of a product is the product of the magnitudes.
pub proof fn lemma_abs_mul(a: int, b: int) by (nonlinear_arith)
    ensures
        abs_of(a * b) == abs_of(a) * abs_of(b),
{
}

/// A product of bounded factors is bounded by the product of the bounds.
pub proof fn lemma_mul_abs_bound(a: int, b: int, ba: int, bb: int) by (nonlinear_arith)
    requires
        abs_of(a) <= ba,
        abs_of(b) <= bb,
    ensures
        abs_of(a * b) <= ba * bb,
{
}

/// Where no saturation can occur, the scaled fixed-point product sits
/// within one truncation step of the exact product: the division by
/// `SCALE` loses less than one fixed-point step.
pub proof fn lemma_fp_mul_close(a: int, b: int)
    requires
        abs_of(a) * abs_of(b) <= (SCALE as int) * (FX_MAX as int),
    ensures
        abs_of((SCALE as int) * fp_mul_spec(a, b) - a * b) < SCALE as int,
{
    let s = SCALE as int;
    let x = abs_of(a) * abs_of(b);
    assert(x >= 0) by (nonlinear_arith)
        requires
            abs_of(a) >= 0,
            abs_of(b) >= 0,
            x == abs_of(a) * abs_of(b),
    ;
    let p = x / s;
    vstd::arithmetic::div_mod::lemma_fundamental_div_mod(x, s);
    vstd::arithmetic::div_mod::lemma_mod_bound(x, s);
    vstd::arithmetic::div_mod::lemma_div_is_ordered(x, s * (FX_MAX as int), s);
    vstd::arithmetic::div_mod::lemma_div_multiples_vanish(FX_MAX as int, s);
    assert(p <= FX_MAX as int);
    assert(abs_of(s * p - x) < s);
    if (a < 0) != (b < 0) {
        assert(a * b == -x) by (nonlinear_arith)
            requires
                (a < 0) != (b < 0),
                x == abs_of(a) * abs_of(b),
        ;
        assert(fp_mul_spec(a, b) == -p);
    } else {
        assert(a * b == x) by (nonlinear_arith)
            requires
                !((a < 0) != (b < 0)),
                x == abs_of(a) * abs_of(b),
        ;
        assert(fp_mul_spec(a, b) == p);
    }
}

} // verus!
