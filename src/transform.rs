//! Two-dimensional affine transforms `(a, b, c, d, e, f)` in fixed point.
use vstd::prelude::*;
use crate::fixed::{fits, lin, lin_spec, near, near_fixed, EPS, UNIT};

verus! {

/// The matrix `[a c e; b d f; 0 0 1]`: a point `(x, y)` goes to
/// `(a*x + c*y + e, b*x + d*y + f)`.
#[derive(Clone, Copy, Debug, PartialEq, Eq, Structural)]
pub struct Transform {
    pub a: i64,
    pub b: i64,
    pub c: i64,
    pub d: i64,
    pub e: i64,
    pub f: i64,
}

/// The composition of `outer` after `inner`, as exact integers, each
/// product rounded toward zero: `(a, b, c, d, e, f)`.
pub open spec fn compose_ints(o: Transform, i: Transform) -> (int, int, int, int, int, int) {
    (
        lin_spec(o.a as int, i.a as int, o.c as int, i.b as int, 0),
        lin_spec(o.b as int, i.a as int, o.d as int, i.b as int, 0),
        lin_spec(o.a as int, i.c as int, o.c as int, i.d as int, 0),
        lin_spec(o.b as int, i.c as int, o.d as int, i.d as int, 0),
        lin_spec(o.a as int, i.e as int, o.c as int, i.f as int, o.e as int),
        lin_spec(o.b as int, i.e as int, o.d as int, i.f as int, o.f as int),
    )
}

/// The composition of `outer` after `inner`, where every entry fits.
pub open spec fn compose_spec(o: Transform, i: Transform) -> Option<Transform> {
    let m = compose_ints(o, i);
    if fits(m.0) && fits(m.1) && fits(m.2) && fits(m.3) && fits(m.4) && fits(m.5) {
        Some(Transform { a: m.0 as i64, b: m.1 as i64, c: m.2 as i64, d: m.3 as i64, e: m.4 as i64, f: m.5 as i64 })
    } else {
        None
    }
}

/// Where `t` takes the point `(x, y)`, as exact integers.
pub open spec fn apply_ints(t: Transform, x: int, y: int) -> (int, int) {
    (
        lin_spec(t.a as int, x, t.c as int, y, t.e as int),
        lin_spec(t.b as int, x, t.d as int, y, t.f as int),
    )
}

/// Where `t` takes the point `(x, y)`, where both coordinates fit.
pub open spec fn apply_spec(t: Transform, x: int, y: int) -> Option<(i64, i64)> {
    let p = apply_ints(t, x, y);
    if fits(p.0) && fits(p.1) {
        Some((p.0 as i64, p.1 as i64))
    } else {
        None
    }
}

/// A transform that is a translation and a scale only (no rotation or skew,
/// up to the tolerance), with positive scale factors beyond the tolerance:
/// a degenerate scale or a flip is not decomposable.
pub open spec fn decomposable(t: Transform) -> bool {
    &&& near(t.b as int, 0)
    &&& near(t.c as int, 0)
    &&& t.a > EPS
    &&& t.d > EPS
}

/// The scale factors of a decomposable transform.
pub open spec fn scale_of(t: Transform) -> (int, int) {
    (t.a as int, t.d as int)
}

/// Whether a decomposable transform scales, up to the tolerance.
pub open spec fn scales(t: Transform) -> bool {
    !near(scale_of(t).0, UNIT as int) || !near(scale_of(t).1, UNIT as int)
}

impl Transform {
    /// The identity transform.
    pub fn identity() -> (r: Transform)
        ensures
            r == (Transform { a: UNIT, b: 0, c: 0, d: UNIT, e: 0, f: 0 }),
    {
        Transform { a: UNIT, b: 0, c: 0, d: UNIT, e: 0, f: 0 }
    }

    /// A translation by `(tx, ty)`.
    pub fn translate(tx: i64, ty: i64) -> (r: Transform)
        ensures
            r == (Transform { a: UNIT, b: 0, c: 0, d: UNIT, e: tx, f: ty }),
    {
        Transform { a: UNIT, b: 0, c: 0, d: UNIT, e: tx, f: ty }
    }

    /// A scale by `(sx, sy)` about the origin.
    pub fn scale(sx: i64, sy: i64) -> (r: Transform)
        ensures
            r == (Transform { a: sx, b: 0, c: 0, d: sy, e: 0, f: 0 }),
    {
        Transform { a: sx, b: 0, c: 0, d: sy, e: 0, f: 0 }
    }

    /// The transform that applies `inner` first and then `self`; `None`
    /// where an entry does not fit.
    pub fn compose(&self, inner: &Transform) -> (r: Option<Transform>)
        ensures
            r == compose_spec(*self, *inner),
    {
        let o = *self;
        let i = *inner;
        let a = lin(o.a, i.a, o.c, i.b, 0);
        let b = lin(o.b, i.a, o.d, i.b, 0);
        let c = lin(o.a, i.c, o.c, i.d, 0);
        let d = lin(o.b, i.c, o.d, i.d, 0);
        let e = lin(o.a, i.e, o.c, i.f, o.e);
        let f = lin(o.b, i.e, o.d, i.f, o.f);
        match (a, b, c, d, e, f) {
            (Some(a), Some(b), Some(c), Some(d), Some(e), Some(f)) => Some(
                Transform { a, b, c, d, e, f },
            ),
            _ => None,
        }
    }

    /// Where `self` takes the point `(x, y)`; `None` where a coordinate does
    /// not fit.
    pub fn apply(&self, x: i64, y: i64) -> (r: Option<(i64, i64)>)
        ensures
            r == apply_spec(*self, x as int, y as int),
    {
        let nx = lin(self.a, x, self.c, y, self.e);
        let ny = lin(self.b, x, self.d, y, self.f);
        match (nx, ny) {
            (Some(nx), Some(ny)) => Some((nx, ny)),
            _ => None,
        }
    }

    /// Whether `self` is a translation and a positive, non-degenerate scale
    /// only.
    pub fn is_decomposable(&self) -> (r: bool)
        ensures
            r == decomposable(*self),
    {
        near_fixed(self.b, 0) && near_fixed(self.c, 0) && self.a > EPS && self.d > EPS
    }

    /// The scale factors `(sx, sy)` of a decomposable transform.
    pub fn get_scale(&self) -> (r: (i64, i64))
        requires
            decomposable(*self),
        ensures
            r.0 == scale_of(*self).0,
            r.1 == scale_of(*self).1,
    {
        (self.a, self.d)
    }

    /// Whether a decomposable transform scales, up to the tolerance.
    pub fn has_scale(&self) -> (r: bool)
        requires
            decomposable(*self),
        ensures
            r == scales(*self),
    {
        let (sx, sy) = self.get_scale();
        !near_fixed(sx, UNIT) || !near_fixed(sy, UNIT)
    }

    /// The translation part `(e, f)`.
    pub fn get_translation(&self) -> (r: (i64, i64))
        ensures
            r == (self.e, self.f),
    {
        (self.e, self.f)
    }
}

} // verus!
