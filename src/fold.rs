//! The shape-folding pass: group transforms are pushed down onto shape
//! children, then each shape's transform is folded into its geometry.
use vstd::prelude::*;
use crate::attrs::{AttrId, AttrValue, Attrs};
use crate::fixed::{fits, fx_mul, lin, UNIT};
use crate::guards::{
    attrs_ok, coords_ok, has_valid_transform, is_shape, is_shape_kind, is_valid_attrs,
    is_valid_coords, transform_ok,
};
use crate::transform::{apply_spec, compose_spec, decomposable, scale_of, scales, Transform};
use crate::tree::{DocView, Document, ElemKind};

verus! {

/// The unit-less number held by `v`, or `0` (the default of a coordinate).
pub open spec fn num(v: Option<AttrValue>) -> int {
    match v {
        Some(AttrValue::Number(n)) => n as int,
        _ => 0,
    }
}

/// Moves the point held by the keys `kx` and `ky` through `t`.
pub open spec fn move_pair(a: Attrs, kx: AttrId, ky: AttrId, t: Transform) -> Option<Attrs> {
    match apply_spec(t, num(a.get_spec(kx)), num(a.get_spec(ky))) {
        Some(p) => Some(
            a.with(kx, Some(AttrValue::Number(p.0))).with(ky, Some(AttrValue::Number(p.1))),
        ),
        None => None,
    }
}

/// Scales the number held by `k`, where it is present, by `s`.
pub open spec fn scale_key(a: Attrs, k: AttrId, s: int) -> Option<Attrs> {
    match a.get_spec(k) {
        Some(AttrValue::Number(n)) => if fits(fx_mul(n as int, s)) {
            Some(a.with(k, Some(AttrValue::Number(fx_mul(n as int, s) as i64))))
        } else {
            None
        },
        _ => Some(a),
    }
}

pub open spec fn then_move(o: Option<Attrs>, kx: AttrId, ky: AttrId, t: Transform) -> Option<Attrs> {
    match o {
        Some(a) => move_pair(a, kx, ky, t),
        None => None,
    }
}

pub open spec fn then_scale(o: Option<Attrs>, k: AttrId, s: int) -> Option<Attrs> {
    match o {
        Some(a) => scale_key(a, k, s),
        None => None,
    }
}

/// The geometry rewrite of a shape of kind `k`: its coordinates go through
/// `t`, and where `t` scales, its sizes are multiplied by the x-scale.
/// `None` where a value does not fit.
pub open spec fn geometry(k: ElemKind, a: Attrs, t: Transform) -> Option<Attrs> {
    let s = scale_of(t).0;
    match k {
        ElemKind::Rect => {
            let m = move_pair(a, AttrId::X, AttrId::Y, t);
            if scales(t) {
                then_scale(
                    then_scale(
                        then_scale(then_scale(m, AttrId::Width, s), AttrId::Height, s),
                        AttrId::Rx,
                        s,
                    ),
                    AttrId::Ry,
                    s,
                )
            } else {
                m
            }
        },
        ElemKind::Circle => {
            let m = move_pair(a, AttrId::Cx, AttrId::Cy, t);
            if scales(t) {
                then_scale(m, AttrId::R, s)
            } else {
                m
            }
        },
        ElemKind::Ellipse => {
            let m = move_pair(a, AttrId::Cx, AttrId::Cy, t);
            if scales(t) {
                then_scale(then_scale(m, AttrId::Rx, s), AttrId::Ry, s)
            } else {
                m
            }
        },
        ElemKind::Line => then_move(move_pair(a, AttrId::X1, AttrId::Y1, t), AttrId::X2, AttrId::Y2, t),
        _ => Some(a),
    }
}

/// The stroke width `sw` (the default `1` where `None`) multiplied by `s`,
/// keeping its unit; `None` where it is not a length or does not fit.
pub open spec fn stroke_scaled(sw: Option<AttrValue>, s: int) -> Option<AttrValue> {
    match sw {
        None => if fits(fx_mul(UNIT as int, s)) {
            Some(AttrValue::Number(fx_mul(UNIT as int, s) as i64))
        } else {
            None
        },
        Some(AttrValue::Number(w)) => if fits(fx_mul(w as int, s)) {
            Some(AttrValue::Number(fx_mul(w as int, s) as i64))
        } else {
            None
        },
        Some(AttrValue::Length(w, u)) => if fits(fx_mul(w as int, s)) {
            Some(AttrValue::Length(fx_mul(w as int, s) as i64, u))
        } else {
            None
        },
        Some(_) => None,
    }
}

/// Folds `t` into a shape of kind `k` that renders with the stroke width
/// `sw`: the geometry is rewritten, a scaling transform sets the stroke
/// width scaled by the x-scale, and the transform is removed. `None` where
/// a value does not fit.
pub open spec fn fold_shape(k: ElemKind, a: Attrs, t: Transform, sw: Option<AttrValue>) -> Option<Attrs> {
    match geometry(k, a, t) {
        None => None,
        Some(g) => if scales(t) {
            match stroke_scaled(sw, scale_of(t).0) {
                Some(w) => Some(g.with(AttrId::StrokeWidth, Some(w)).with(AttrId::Transform, None)),
                None => None,
            }
        } else {
            Some(g.with(AttrId::Transform, None))
        },
    }
}

/// The transform held by `a`, or the identity.
pub open spec fn ts_of(a: Attrs) -> Transform {
    match a.transform {
        Some(AttrValue::Transform(t)) => t,
        _ => Transform { a: UNIT, b: 0, c: 0, d: UNIT, e: 0, f: 0 },
    }
}

/// Node `i` is a shape with a transform that passes the three guards.
pub open spec fn foldable(v: DocView, i: int) -> bool {
    let a = v.attrs[i];
    let k = v.kinds[i];
    is_shape(k) && a.transform is Some && transform_ok(a) && attrs_ok(v, i) && coords_ok(k, a)
}

/// The attributes of node `i` after shape-local folding.
pub open spec fn fold_node(v: DocView, i: int) -> Attrs {
    if foldable(v, i) {
        match fold_shape(v.kinds[i], v.attrs[i], ts_of(v.attrs[i]), v.lookup(i, AttrId::StrokeWidth)) {
            Some(b) => b,
            None => v.attrs[i],
        }
    } else {
        v.attrs[i]
    }
}

/// The tree after shape-local folding of every node, each computed from
/// the tree before.
pub open spec fn fold_shapes(v: DocView) -> DocView {
    v.with_attrs(Seq::new(v.attrs.len(), |i: int| fold_node(v, i)))
}

fn num_of(v: Option<AttrValue>) -> (r: i64)
    ensures
        r == num(v),
{
    match v {
        Some(AttrValue::Number(n)) => n,
        _ => 0,
    }
}

fn move_point(a: Attrs, kx: AttrId, ky: AttrId, t: &Transform) -> (r: Option<Attrs>)
    ensures
        r == move_pair(a, kx, ky, *t),
{
    match t.apply(num_of(a.get(kx)), num_of(a.get(ky))) {
        Some((x, y)) => {
            let mut b = a;
            b.set(kx, AttrValue::Number(x));
            b.set(ky, AttrValue::Number(y));
            Some(b)
        },
        None => None,
    }
}

fn scale_attr(o: Option<Attrs>, k: AttrId, s: i64) -> (r: Option<Attrs>)
    ensures
        r == then_scale(o, k, s as int),
{
    match o {
        None => None,
        Some(a) => match a.get(k) {
            Some(AttrValue::Number(n)) => match lin(n, s, 0, 0, 0) {
                Some(m) => {
                    let mut b = a;
                    b.set(k, AttrValue::Number(m));
                    Some(b)
                },
                None => None,
            },
            _ => Some(a),
        },
    }
}

fn process_rect(a: Attrs, t: &Transform) -> (r: Option<Attrs>)
    requires
        decomposable(*t),
    ensures
        r == geometry(ElemKind::Rect, a, *t),
{
    let m = move_point(a, AttrId::X, AttrId::Y, t);
    if t.has_scale() {
        let (sx, _) = t.get_scale();
        let m = scale_attr(m, AttrId::Width, sx);
        let m = scale_attr(m, AttrId::Height, sx);
        let m = scale_attr(m, AttrId::Rx, sx);
        scale_attr(m, AttrId::Ry, sx)
    } else {
        m
    }
}

fn process_circle(a: Attrs, t: &Transform) -> (r: Option<Attrs>)
    requires
        decomposable(*t),
    ensures
        r == geometry(ElemKind::Circle, a, *t),
{
    let m = move_point(a, AttrId::Cx, AttrId::Cy, t);
    if t.has_scale() {
        let (sx, _) = t.get_scale();
        scale_attr(m, AttrId::R, sx)
    } else {
        m
    }
}

fn process_ellipse(a: Attrs, t: &Transform) -> (r: Option<Attrs>)
    requires
        decomposable(*t),
    ensures
        r == geometry(ElemKind::Ellipse, a, *t),
{
    let m = move_point(a, AttrId::Cx, AttrId::Cy, t);
    if t.has_scale() {
        let (sx, _) = t.get_scale();
        let m = scale_attr(m, AttrId::Rx, sx);
        scale_attr(m, AttrId::Ry, sx)
    } else {
        m
    }
}

fn process_line(a: Attrs, t: &Transform) -> (r: Option<Attrs>)
    ensures
        r == geometry(ElemKind::Line, a, *t),
{
    match move_point(a, AttrId::X1, AttrId::Y1, t) {
        Some(b) => move_point(b, AttrId::X2, AttrId::Y2, t),
        None => None,
    }
}

/// The stroke width `sw` (the default `1` where `None`) multiplied by `s`.
pub fn scale_stroke(sw: Option<AttrValue>, s: i64) -> (r: Option<AttrValue>)
    ensures
        r == stroke_scaled(sw, s as int),
{
    match sw {
        None => match lin(UNIT, s, 0, 0, 0) {
            Some(w) => Some(AttrValue::Number(w)),
            None => None,
        },
        Some(AttrValue::Number(w)) => match lin(w, s, 0, 0, 0) {
            Some(w) => Some(AttrValue::Number(w)),
            None => None,
        },
        Some(AttrValue::Length(w, u)) => match lin(w, s, 0, 0, 0) {
            Some(w) => Some(AttrValue::Length(w, u)),
            None => None,
        },
        Some(_) => None,
    }
}

/// Folds the decomposable transform `t` into a shape of kind `k` whose
/// stroke width is `sw`; `None` where a value does not fit.
pub fn process(k: ElemKind, a: Attrs, t: &Transform, sw: Option<AttrValue>) -> (r: Option<Attrs>)
    requires
        decomposable(*t),
    ensures
        r == fold_shape(k, a, *t, sw),
{
    let g = match k {
        ElemKind::Rect => process_rect(a, t),
        ElemKind::Circle => process_circle(a, t),
        ElemKind::Ellipse => process_ellipse(a, t),
        ElemKind::Line => process_line(a, t),
        _ => Some(a),
    };
    match g {
        None => None,
        Some(g) => if t.has_scale() {
            let (sx, _) = t.get_scale();
            match scale_stroke(sw, sx) {
                Some(w) => {
                    let mut b = g;
                    b.set(AttrId::StrokeWidth, w);
                    b.remove(AttrId::Transform);
                    Some(b)
                },
                None => None,
            }
        } else {
            let mut b = g;
            b.remove(AttrId::Transform);
            Some(b)
        },
    }
}

/// The attributes of node `i` after shape-local folding.
pub fn fold_node_attrs(doc: &Document, i: usize) -> (r: Attrs)
    requires
        doc.wf(),
        i < doc.len_spec(),
    ensures
        r == fold_node(doc@, i as int),
{
    let a = doc.attrs[i];
    let k = doc.kinds[i];
    if is_shape_kind(k) && a.transform.is_some() && has_valid_transform(&a) && is_valid_attrs(doc, i)
        && is_valid_coords(k, &a) {
        let t = match a.transform {
            Some(AttrValue::Transform(t)) => t,
            _ => Transform::identity(),
        };
        let sw = doc.find_attribute(i, AttrId::StrokeWidth);
        match process(k, a, &t, sw) {
            Some(b) => b,
            None => a,
        }
    } else {
        a
    }
}

/// A direct child that may take its group's transform: a shape that
/// passes the three guards.
pub open spec fn child_ok(v: DocView, c: int) -> bool {
    let a = v.attrs[c];
    let k = v.kinds[c];
    is_shape(k) && transform_ok(a) && attrs_ok(v, c) && coords_ok(k, a)
}

/// The transform that a child with attributes `a` takes from a group with
/// transform `g`: `g` after its own, or `g` alone.
pub open spec fn pushed_ts(g: Transform, a: Attrs) -> Option<Transform> {
    match a.transform {
        Some(AttrValue::Transform(t)) => compose_spec(g, t),
        _ => Some(g),
    }
}

/// Node `g` is a group with a valid transform and valid attributes whose
/// direct children all pass the guards and can take its transform.
pub open spec fn group_eligible(v: DocView, g: int) -> bool {
    let a = v.attrs[g];
    &&& v.kinds[g] == ElemKind::G
    &&& a.transform is Some
    &&& transform_ok(a)
    &&& attrs_ok(v, g)
    &&& forall|k: int|
        0 <= k < v.children[g].len() ==> {
            let c = #[trigger] v.children[g][k] as int;
            child_ok(v, c) && pushed_ts(ts_of(a), v.attrs[c]) is Some
        }
}

/// The attributes of node `i` after group push-down: an eligible group
/// loses its transform, and each of its children takes it.
pub open spec fn push_node(v: DocView, i: int) -> Attrs {
    let a = v.attrs[i];
    if group_eligible(v, i) {
        a.with(AttrId::Transform, None)
    } else if v.parents[i] is Some && group_eligible(v, v.parents[i].unwrap() as int) {
        let g = ts_of(v.attrs[v.parents[i].unwrap() as int]);
        a.with(AttrId::Transform, Some(AttrValue::Transform(pushed_ts(g, a).unwrap())))
    } else {
        a
    }
}

/// The tree after group push-down of every node, each computed from the
/// tree before.
pub open spec fn push_down(v: DocView) -> DocView {
    v.with_attrs(Seq::new(v.attrs.len(), |i: int| push_node(v, i)))
}

/// The transform that a child takes from a group with transform `g`.
fn pushed_transform(g: &Transform, a: &Attrs) -> (r: Option<Transform>)
    ensures
        r == pushed_ts(*g, *a),
{
    match a.transform {
        Some(AttrValue::Transform(t)) => g.compose(&t),
        _ => Some(*g),
    }
}

/// Whether node `g` is a group whose transform can be pushed down.
pub fn is_group_eligible(doc: &Document, g: usize) -> (r: bool)
    requires
        doc.wf(),
        g < doc.len_spec(),
    ensures
        r == group_eligible(doc@, g as int),
{
    let a = doc.attrs[g];
    if !(doc.kinds[g] == ElemKind::G && a.transform.is_some() && has_valid_transform(&a)
        && is_valid_attrs(doc, g)) {
        return false;
    }
    let ts = match a.transform {
        Some(AttrValue::Transform(t)) => t,
        _ => Transform::identity(),
    };
    let ch = doc.children_of(g);
    let ghost v = doc@;
    assert(v.children[g as int] == ch@);
    let mut k: usize = 0;
    while k < ch.len()
        invariant
            doc.wf(),
            v == doc@,
            g < doc.len_spec(),
            ch@ == v.children[g as int],
            ts == ts_of(a),
            a == v.attrs[g as int],
            k <= ch.len(),
            forall|j: int|
                0 <= j < k ==> {
                    let c = #[trigger] v.children[g as int][j] as int;
                    child_ok(v, c) && pushed_ts(ts_of(a), v.attrs[c]) is Some
                },
        decreases ch.len() - k,
    {
        let c = ch[k];
        assert(c < doc.len_spec());
        let ca = doc.attrs[c];
        let ck = doc.kinds[c];
        if !(is_shape_kind(ck) && has_valid_transform(&ca) && is_valid_attrs(doc, c) && is_valid_coords(
            ck,
            &ca,
        )) {
            return false;
        }
        if pushed_transform(&ts, &ca).is_none() {
            return false;
        }
        k = k + 1;
    }
    true
}

/// The attributes of node `i` after group push-down.
pub fn push_node_attrs(doc: &Document, i: usize) -> (r: Attrs)
    requires
        doc.wf(),
        i < doc.len_spec(),
    ensures
        r == push_node(doc@, i as int),
{
    let mut a = doc.attrs[i];
    if is_group_eligible(doc, i) {
        a.remove(AttrId::Transform);
        return a;
    }
    match doc.parents[i] {
        Some(p) => {
            if is_group_eligible(doc, p) {
                let g = match doc.attrs[p].transform {
                    Some(AttrValue::Transform(t)) => t,
                    _ => Transform::identity(),
                };
                proof {
                    let v = doc@;
                    let j = choose|j: int|
                        0 <= j < v.children[p as int].len() && v.children[p as int][j] == i;
                    assert(v.children[p as int][j] == i);
                }
                let t = pushed_transform(&g, &a).unwrap();
                a.set(AttrId::Transform, AttrValue::Transform(t));
            }
            a
        },
        None => a,
    }
}

/// Folds transforms into shapes: first every group whose transform can be
/// pushed down hands it to its children, then every shape whose transform
/// passes the guards has it folded into its geometry. The structure of the
/// tree does not change.
pub fn apply_transform_to_shapes(doc: &mut Document)
    requires
        old(doc).wf(),
    ensures
        final(doc).wf(),
        final(doc)@ == fold_shapes(push_down(old(doc)@)),
{
    let n = doc.len();
    let ghost v0 = doc@;
    let mut pushed: Vec<Attrs> = Vec::new();
    let mut i: usize = 0;
    while i < n
        invariant
            doc.wf(),
            doc@ == v0,
            n == doc.len_spec(),
            i <= n,
            pushed@.len() == i,
            forall|j: int| 0 <= j < i ==> pushed@[j] == push_node(v0, j),
        decreases n - i,
    {
        pushed.push(push_node_attrs(doc, i));
        i = i + 1;
    }
    assert(pushed@ =~= Seq::new(v0.attrs.len(), |j: int| push_node(v0, j)));
    doc.attrs = pushed;
    assert(doc@.children =~= v0.children);
    let ghost v1 = doc@;
    assert(v1 == push_down(v0));
    let mut folded: Vec<Attrs> = Vec::new();
    let mut i: usize = 0;
    while i < n
        invariant
            doc.wf(),
            doc@ == v1,
            n == doc.len_spec(),
            i <= n,
            folded@.len() == i,
            forall|j: int| 0 <= j < i ==> folded@[j] == fold_node(v1, j),
        decreases n - i,
    {
        folded.push(fold_node_attrs(doc, i));
        i = i + 1;
    }
    assert(folded@ =~= Seq::new(v1.attrs.len(), |j: int| fold_node(v1, j)));
    doc.attrs = folded;
    assert(doc@.children =~= v1.children);
    assert(doc@ == fold_shapes(v1));
}

} // verus!
