//! Fixed-point arithmetic on `i64` values with `UNIT` units per user unit.
use vstd::prelude::*;
use vstd::arithmetic::div_mod::{lemma_fundamental_div_mod, lemma_mod_bound};

verus! {

/// Number of fixed-point units in one user unit.
pub const UNIT: i64 = 1_000_000;

/// The absolute tolerance, in fixed-point units, of every approximate test.
pub const EPS: i64 = 2;

/// Whether an integer can be stored as a fixed-point value.
pub open spec fn fits(v: int) -> bool {
    i64::MIN <= v <= i64::MAX
}

/// Division that rounds toward zero.
pub open spec fn tdiv(p: int, q: int) -> int {
    if p >= 0 {
        p / q
    } else {
        -((-p) / q)
    }
}

/// The fixed-point product of `x` and `y`, rounded toward zero.
pub open spec fn fx_mul(x: int, y: int) -> int {
    tdiv(x * y, UNIT as int)
}

/// `x * y + z * w + c` in fixed point, each product rounded toward zero.
pub open spec fn lin_spec(x: int, y: int, z: int, w: int, c: int) -> int {
    fx_mul(x, y) + fx_mul(z, w) + c
}

pub open spec fn abs(x: int) -> int {
    if x < 0 {
        -x
    } else {
        x
    }
}

/// Whether two values are equal up to the tolerance.
pub open spec fn near(x: int, y: int) -> bool {
    abs(x - y) <= EPS
}

fn mul_round(x: i64, y: i64) -> (r: i128)
    ensures
        r == fx_mul(x as int, y as int),
        -0x1000_0000_0000_0000_0000_0000_0000 <= r <= 0x1000_0000_0000_0000_0000_0000_0000,
{
    let ghost xi = x as int;
    let ghost yi = y as int;
    assert(-0x4000_0000_0000_0000_0000_0000_0000_0000 <= xi * yi
        <= 0x4000_0000_0000_0000_0000_0000_0000_0000) by (nonlinear_arith)
        requires
            -0x8000_0000_0000_0000 <= xi <= 0x7fff_ffff_ffff_ffff,
            -0x8000_0000_0000_0000 <= yi <= 0x7fff_ffff_ffff_ffff,
    ;
    let p: i128 = (x as i128) * (y as i128);
    let u: i128 = UNIT as i128;
    if p >= 0 {
        let q = p / u;
        assert(q <= 0x1000_0000_0000_0000_0000_0000_0000) by (nonlinear_arith)
            requires
                q == p / u,
                0 <= p <= 0x4000_0000_0000_0000_0000_0000_0000_0000,
                u == 1_000_000,
        ;
        q
    } else {
        let np: i128 = -p;
        let q = np / u;
        assert(0 <= q <= 0x1000_0000_0000_0000_0000_0000_0000) by (nonlinear_arith)
            requires
                q == np / u,
                0 < np <= 0x4000_0000_0000_0000_0000_0000_0000_0000,
                u == 1_000_000,
        ;
        -q
    }
}

/// Computes `x * y + z * w + c` in fixed point, each product rounded toward
/// zero; `None` where the result does not fit.
pub fn lin(x: i64, y: i64, z: i64, w: i64, c: i64) -> (r: Option<i64>)
    ensures
        r == (if fits(lin_spec(x as int, y as int, z as int, w as int, c as int)) {
            Some(lin_spec(x as int, y as int, z as int, w as int, c as int) as i64)
        } else {
            None
        }),
{
    let p = mul_round(x, y);
    let q = mul_round(z, w);
    let s: i128 = p + q + (c as i128);
    if -0x8000_0000_0000_0000 <= s && s <= 0x7fff_ffff_ffff_ffff {
        Some(s as i64)
    } else {
        None
    }
}

/// Whether `x` and `y` are equal up to the tolerance.
pub fn near_fixed(x: i64, y: i64) -> (r: bool)
    ensures
        r == near(x as int, y as int),
{
    let d: i128 = (x as i128) - (y as i128);
    -(EPS as i128) <= d && d <= EPS as i128
}

/// Rounding toward zero moves a value by less than one unit.
pub proof fn lemma_tdiv_error(p: int)
    ensures
        abs(p - UNIT * tdiv(p, UNIT as int)) < UNIT,
        p >= 0 ==> 0 <= p - UNIT * tdiv(p, UNIT as int),
        p <= 0 ==> p - UNIT * tdiv(p, UNIT as int) <= 0,
{
    let u = UNIT as int;
    if p >= 0 {
        lemma_fundamental_div_mod(p, u);
        lemma_mod_bound(p, u);
    } else {
        lemma_fundamental_div_mod(-p, u);
        lemma_mod_bound(-p, u);
    }
}

/// A whole number of units is kept exactly.
pub proof fn lemma_fx_mul_unit(v: int)
    ensures
        fx_mul(UNIT as int, v) == v,
{
    let u = UNIT as int;
    lemma_tdiv_error(u * v);
    let q = tdiv(u * v, u);
    assert(q == v) by (nonlinear_arith)
        requires
            abs(u * v - u * q) < u,
            u == 1_000_000,
    ;
}

/// The sum of two rounded products is within the tolerance of the rounded
/// product of the sum.
pub proof fn lemma_fx_mul_add(s: int, x: int, w: int)
    ensures
        abs(fx_mul(s, x) + fx_mul(w, s) - fx_mul(s, x + w)) <= EPS,
{
    let u = UNIT as int;
    lemma_tdiv_error(s * x);
    lemma_tdiv_error(w * s);
    lemma_tdiv_error(s * (x + w));
    let t1 = fx_mul(s, x);
    let t2 = fx_mul(w, s);
    let t3 = fx_mul(s, x + w);
    assert(s * (x + w) == s * x + w * s) by (nonlinear_arith);
    let d = t1 + t2 - t3;
    assert(-3 < d < 3) by (nonlinear_arith)
        requires
            abs(s * x - u * t1) < u,
            abs(w * s - u * t2) < u,
            abs(s * x + w * s - u * t3) < u,
            d == t1 + t2 - t3,
            u == 1_000_000,
    ;
}

} // verus!
