//! Properties of the folding pass, proved over its specification.
use vstd::prelude::*;
use crate::attrs::{AttrId, AttrValue, Attrs};
use crate::fixed::{abs, fx_mul, lemma_fx_mul_add, lemma_fx_mul_unit, EPS, UNIT};
use crate::fold::{
    child_ok, fold_node, fold_shape, fold_shapes, foldable, group_eligible, num, push_down,
    push_node, pushed_ts, ts_of,
};
use crate::guards::{attrs_ok, is_shape};
use crate::transform::{apply_ints, decomposable, scale_of, scales, Transform};
use crate::tree::{Document, ElemKind};

verus! {

/// Where no group can push its transform down and no shape can fold its
/// transform, the pass changes nothing.
pub proof fn lemma_converged_pass_is_identity(doc: &Document)
    requires
        doc.wf(),
        forall|i: int| 0 <= i < doc@.len() ==> !group_eligible(doc@, i) && !foldable(doc@, i),
    ensures
        fold_shapes(push_down(doc@)) == doc@,
{
    let v = doc@;
    assert forall|i: int| 0 <= i < v.len() implies push_node(v, i) == v.attrs[i] by {
        if v.parents[i] is Some {
            assert(0 <= v.parents[i].unwrap() < i);
        }
    }
    let p = push_down(v);
    assert(p.attrs =~= v.attrs);
    assert(p =~= v);
    assert(fold_shapes(p).attrs =~= v.attrs);
}

proof fn lemma_child_parent(doc: &Document, g: int, k: int)
    requires
        doc.wf(),
        0 <= g < doc@.len(),
        0 <= k < doc@.children[g].len(),
    ensures
        0 < doc@.children[g][k] < doc@.len(),
        doc@.parents[doc@.children[g][k] as int] == Some(g as usize),
{
    assert(doc.children@[g]@[k] == doc@.children[g][k]);
}

proof fn lemma_pushed_child(doc: &Document, g: int, k: int)
    requires
        doc.wf(),
        0 <= g < doc@.len(),
        0 <= k < doc@.children[g].len(),
        group_eligible(doc@, g),
    ensures
        push_down(doc@).attrs[doc@.children[g][k] as int].transform == Some(
            AttrValue::Transform(pushed_ts(ts_of(doc@.attrs[g]), doc@.attrs[doc@.children[g][k] as int]).unwrap()),
        ),
{
    let v = doc@;
    lemma_child_parent(doc, g, k);
    let c = v.children[g][k] as int;
    assert(child_ok(v, c));
    assert(!group_eligible(v, c));
    assert(doc.kinds.len() == v.len());
    assert((g as usize) as int == g);
    assert(push_down(v).attrs[c] == push_node(v, c));
}

proof fn lemma_kept_child(doc: &Document, g: int, k: int)
    requires
        doc.wf(),
        0 <= g < doc@.len(),
        0 <= k < doc@.children[g].len(),
        !group_eligible(doc@, g),
        !group_eligible(doc@, doc@.children[g][k] as int),
    ensures
        push_down(doc@).attrs[doc@.children[g][k] as int] == doc@.attrs[doc@.children[g][k] as int],
{
    let v = doc@;
    lemma_child_parent(doc, g, k);
    let c = v.children[g][k] as int;
    assert(doc.kinds.len() == v.len());
    assert((g as usize) as int == g);
    assert(push_down(v).attrs[c] == push_node(v, c));
}

/// A group's transform is removed by push-down exactly when the group is
/// eligible, that is when every direct child passes the guards. A group
/// that is not eligible leaves every child that is not itself an eligible
/// group as it was; an eligible one gives each child its transform.
pub proof fn lemma_push_down_all_or_nothing(doc: &Document, g: int)
    requires
        doc.wf(),
        0 <= g < doc@.len(),
        doc@.kinds[g] == ElemKind::G,
        doc@.attrs[g].transform is Some,
    ensures
        (push_down(doc@).attrs[g].transform is None) == group_eligible(doc@, g),
        !group_eligible(doc@, g) ==> forall|k: int|
            0 <= k < doc@.children[g].len() && !group_eligible(doc@, #[trigger] doc@.children[g][k] as int)
                ==> push_down(doc@).attrs[doc@.children[g][k] as int] == doc@.attrs[doc@.children[g][k] as int],
        group_eligible(doc@, g) ==> forall|k: int|
            0 <= k < doc@.children[g].len() ==> push_down(doc@).attrs[#[trigger] doc@.children[g][k] as int].transform
                == Some(AttrValue::Transform(pushed_ts(ts_of(doc@.attrs[g]), doc@.attrs[doc@.children[g][k] as int]).unwrap())),
{
    let v = doc@;
    if !group_eligible(v, g) && g > 0 {
        let p = v.parents[g].unwrap() as int;
        assert(v.children[p].contains(g as usize));
        let j = choose|j: int| 0 <= j < v.children[p].len() && v.children[p][j] == g as usize;
        if group_eligible(v, p) {
            assert(child_ok(v, v.children[p][j] as int));
            assert(!is_shape(v.kinds[g]));
        }
    }
    assert forall|k: int|
        0 <= k < v.children[g].len() && !group_eligible(v, #[trigger] v.children[g][k] as int)
            && !group_eligible(v, g) implies push_down(v).attrs[v.children[g][k] as int]
        == v.attrs[v.children[g][k] as int] by {
        lemma_kept_child(doc, g, k);
    }
    assert forall|k: int|
        0 <= k < v.children[g].len() && group_eligible(v, g) implies push_down(v).attrs[
        #[trigger] v.children[g][k] as int].transform == Some(
        AttrValue::Transform(pushed_ts(ts_of(v.attrs[g]), v.attrs[v.children[g][k] as int]).unwrap()),
    ) by {
        lemma_pushed_child(doc, g, k);
    }
}

/// Folding a transform that scales onto a shape with its own stroke width
/// `w` sets the stroke width to `w` times the x-scale; folding one that
/// does not scale leaves the stroke width as it was, so none is added.
pub proof fn lemma_stroke_width(doc: &Document, i: int)
    requires
        doc.wf(),
        0 <= i < doc@.len(),
        foldable(doc@, i),
        fold_shape(doc@.kinds[i], doc@.attrs[i], ts_of(doc@.attrs[i]), doc@.lookup(i, AttrId::StrokeWidth)) is Some,
    ensures
        scales(ts_of(doc@.attrs[i])) ==> forall|w: i64|
            doc@.attrs[i].stroke_width == Some(AttrValue::Number(w)) ==> #[trigger] fold_node(doc@, i).stroke_width
                == Some(AttrValue::Number(fx_mul(w as int, scale_of(ts_of(doc@.attrs[i])).0) as i64)),
        !scales(ts_of(doc@.attrs[i])) ==> fold_node(doc@, i).stroke_width == doc@.attrs[i].stroke_width,
        fold_node(doc@, i).transform is None,
{
}

/// The transform `translate(tx, ty) scale(s)`.
pub open spec fn translate_scale(tx: i64, ty: i64, s: i64) -> Transform {
    Transform { a: s, b: 0, c: 0, d: s, e: tx, f: ty }
}

/// Folding `translate(tx, ty) scale(s)` into a rectangle, for every `s`
/// that the transform guard admits, gives the box that the transform maps
/// the rectangle onto: the same near corner exactly, and the far corner up
/// to the tolerance. A scale within the tolerance of one but not exactly
/// one is folded as a translation and is left out.
pub proof fn lemma_rect_fold_renders_same(a: Attrs, tx: i64, ty: i64, s: i64, w: i64, h: i64, sw: Option<AttrValue>, b: Attrs)
    requires
        decomposable(translate_scale(tx, ty, s)),
        scales(translate_scale(tx, ty, s)) || s == UNIT,
        a.width == Some(AttrValue::Number(w)),
        a.height == Some(AttrValue::Number(h)),
        fold_shape(ElemKind::Rect, a, translate_scale(tx, ty, s), sw) == Some(b),
    ensures
        num(b.x) == apply_ints(translate_scale(tx, ty, s), num(a.x), num(a.y)).0,
        num(b.y) == apply_ints(translate_scale(tx, ty, s), num(a.x), num(a.y)).1,
        abs(num(b.x) + num(b.width) - apply_ints(translate_scale(tx, ty, s), num(a.x) + w, num(a.y) + h).0) <= EPS,
        abs(num(b.y) + num(b.height) - apply_ints(translate_scale(tx, ty, s), num(a.x) + w, num(a.y) + h).1) <= EPS,
        b.transform is None,
{
    let x = num(a.x);
    let y = num(a.y);
    assert(fx_mul(0, y) == 0);
    assert(fx_mul(0, x) == 0);
    assert(fx_mul(0, y + h) == 0);
    assert(fx_mul(0, x + w) == 0);
    if scales(translate_scale(tx, ty, s)) {
        lemma_fx_mul_add(s as int, x, w as int);
        lemma_fx_mul_add(s as int, y, h as int);
    } else {
        lemma_fx_mul_unit(x);
        lemma_fx_mul_unit(y);
        lemma_fx_mul_unit(x + w);
        lemma_fx_mul_unit(y + h);
    }
}

/// Folding `translate(tx, ty) scale(s)` into a circle, for every `s` that
/// the transform guard admits, gives the circle that the transform maps it
/// onto: the same centre exactly, and the rightmost and lowest points up to
/// the tolerance.
pub proof fn lemma_circle_fold_renders_same(a: Attrs, tx: i64, ty: i64, s: i64, r: i64, sw: Option<AttrValue>, b: Attrs)
    requires
        decomposable(translate_scale(tx, ty, s)),
        scales(translate_scale(tx, ty, s)) || s == UNIT,
        a.r == Some(AttrValue::Number(r)),
        fold_shape(ElemKind::Circle, a, translate_scale(tx, ty, s), sw) == Some(b),
    ensures
        num(b.cx) == apply_ints(translate_scale(tx, ty, s), num(a.cx), num(a.cy)).0,
        num(b.cy) == apply_ints(translate_scale(tx, ty, s), num(a.cx), num(a.cy)).1,
        abs(num(b.cx) + num(b.r) - apply_ints(translate_scale(tx, ty, s), num(a.cx) + r, num(a.cy)).0) <= EPS,
        abs(num(b.cy) + num(b.r) - apply_ints(translate_scale(tx, ty, s), num(a.cx), num(a.cy) + r).1) <= EPS,
        b.transform is None,
{
    let x = num(a.cx);
    let y = num(a.cy);
    assert(fx_mul(0, y) == 0);
    assert(fx_mul(0, x) == 0);
    assert(fx_mul(0, y + r) == 0);
    assert(fx_mul(0, x + r) == 0);
    if scales(translate_scale(tx, ty, s)) {
        lemma_fx_mul_add(s as int, x, r as int);
        lemma_fx_mul_add(s as int, y, r as int);
    } else {
        lemma_fx_mul_unit(x);
        lemma_fx_mul_unit(y);
        lemma_fx_mul_unit(x + r);
        lemma_fx_mul_unit(y + r);
    }
}

/// Folding `translate(tx, ty) scale(s)` into an ellipse, for every `s`
/// that the transform guard admits, gives the ellipse that the transform
/// maps it onto: the same centre exactly, and the rightmost and lowest
/// points up to the tolerance.
pub proof fn lemma_ellipse_fold_renders_same(a: Attrs, tx: i64, ty: i64, s: i64, rx: i64, ry: i64, sw: Option<AttrValue>, b: Attrs)
    requires
        decomposable(translate_scale(tx, ty, s)),
        scales(translate_scale(tx, ty, s)) || s == UNIT,
        a.rx == Some(AttrValue::Number(rx)),
        a.ry == Some(AttrValue::Number(ry)),
        fold_shape(ElemKind::Ellipse, a, translate_scale(tx, ty, s), sw) == Some(b),
    ensures
        num(b.cx) == apply_ints(translate_scale(tx, ty, s), num(a.cx), num(a.cy)).0,
        num(b.cy) == apply_ints(translate_scale(tx, ty, s), num(a.cx), num(a.cy)).1,
        abs(num(b.cx) + num(b.rx) - apply_ints(translate_scale(tx, ty, s), num(a.cx) + rx, num(a.cy)).0) <= EPS,
        abs(num(b.cy) + num(b.ry) - apply_ints(translate_scale(tx, ty, s), num(a.cx), num(a.cy) + ry).1) <= EPS,
        b.transform is None,
{
    let x = num(a.cx);
    let y = num(a.cy);
    assert(fx_mul(0, y) == 0);
    assert(fx_mul(0, x) == 0);
    assert(fx_mul(0, y + ry) == 0);
    assert(fx_mul(0, x + rx) == 0);
    if scales(translate_scale(tx, ty, s)) {
        lemma_fx_mul_add(s as int, x, rx as int);
        lemma_fx_mul_add(s as int, y, ry as int);
    } else {
        lemma_fx_mul_unit(x);
        lemma_fx_mul_unit(y);
        lemma_fx_mul_unit(x + rx);
        lemma_fx_mul_unit(y + ry);
    }
}

proof fn lemma_group_unchanged(doc: &Document, g: int)
    requires
        doc.wf(),
        0 <= g < doc@.len(),
        doc@.kinds[g] == ElemKind::G,
        !group_eligible(doc@, g),
    ensures
        push_down(doc@).attrs[g] == doc@.attrs[g],
{
    let v = doc@;
    assert(doc.kinds.len() == v.len());
    assert((g as usize) as int == g);
    if g > 0 {
        let p = v.parents[g].unwrap() as int;
        assert(v.children[p].contains(g as usize));
        let j = choose|j: int| 0 <= j < v.children[p].len() && v.children[p][j] == g as usize;
        if group_eligible(v, p) {
            assert(child_ok(v, v.children[p][j] as int));
            assert(!is_shape(v.kinds[g]));
        }
    }
    assert(push_down(v).attrs[g] == push_node(v, g));
}

/// A group that cannot push its transform down (one whose mask, say,
/// references another element, or one with a child that fails a guard)
/// comes out of the whole pass as it was, and so does every direct child
/// without a transform of its own.
pub proof fn lemma_blocked_group_pass(doc: &Document, g: int)
    requires
        doc.wf(),
        0 <= g < doc@.len(),
        doc@.kinds[g] == ElemKind::G,
        !group_eligible(doc@, g) || !attrs_ok(doc@, g),
    ensures
        !group_eligible(doc@, g),
        fold_shapes(push_down(doc@)).attrs[g] == doc@.attrs[g],
        forall|k: int|
            0 <= k < doc@.children[g].len() && doc@.attrs[#[trigger] doc@.children[g][k] as int].transform is None
                ==> fold_shapes(push_down(doc@)).attrs[doc@.children[g][k] as int]
                == doc@.attrs[doc@.children[g][k] as int],
{
    let v = doc@;
    let p = push_down(v);
    lemma_group_unchanged(doc, g);
    assert(fold_shapes(p).attrs[g] == fold_node(p, g));
    assert forall|k: int|
        0 <= k < v.children[g].len() && v.attrs[#[trigger] v.children[g][k] as int].transform is None
            implies fold_shapes(p).attrs[v.children[g][k] as int] == v.attrs[v.children[g][k] as int] by {
        lemma_child_parent(doc, g, k);
        let c = v.children[g][k] as int;
        assert(!group_eligible(v, c));
        lemma_kept_child(doc, g, k);
        assert(fold_shapes(p).attrs[c] == fold_node(p, c));
    }
}

} // verus!
