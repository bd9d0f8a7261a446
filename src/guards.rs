//! The validity guards that decide whether a node may be rewritten.
use vstd::prelude::*;
use crate::attrs::{AttrId, AttrValue, Attrs};
use crate::transform::decomposable;
use crate::tree::{DocView, Document, ElemKind};

verus! {

/// The shape kinds whose geometry a transform can be folded into.
pub open spec fn is_shape(k: ElemKind) -> bool {
    k == ElemKind::Rect || k == ElemKind::Circle || k == ElemKind::Ellipse || k == ElemKind::Line
}

/// Transform validity: no transform, or one that is a translation and a
/// non-degenerate scale only.
pub open spec fn transform_ok(a: Attrs) -> bool {
    match a.transform {
        None => true,
        Some(AttrValue::Transform(t)) => decomposable(t),
        Some(_) => false,
    }
}

/// A reference to another element.
pub open spec fn is_link(v: Option<AttrValue>) -> bool {
    match v {
        Some(AttrValue::Link(_)) => true,
        _ => false,
    }
}

/// Attribute validity of node `i`: the fill, stroke, filter, mask and clip
/// path that apply to it (the first value on the node or its nearest
/// ancestors) reference no other element. Such an element is laid out in
/// the node's coordinate space and would have to be transformed too.
pub open spec fn attrs_ok(v: DocView, i: int) -> bool {
    &&& !is_link(v.lookup(i, AttrId::Fill))
    &&& !is_link(v.lookup(i, AttrId::Stroke))
    &&& !is_link(v.lookup(i, AttrId::Filter))
    &&& !is_link(v.lookup(i, AttrId::Mask))
    &&& !is_link(v.lookup(i, AttrId::ClipPath))
}

/// Absent, or a number without a unit.
pub open spec fn unitless(v: Option<AttrValue>) -> bool {
    match v {
        None => true,
        Some(AttrValue::Number(_)) => true,
        Some(_) => false,
    }
}

/// Coordinate validity: every geometric attribute that folding rewrites on
/// a shape of kind `k` is absent or a unit-less number.
pub open spec fn coords_ok(k: ElemKind, a: Attrs) -> bool {
    match k {
        ElemKind::Rect => unitless(a.x) && unitless(a.y) && unitless(a.width) && unitless(a.height)
            && unitless(a.rx) && unitless(a.ry),
        ElemKind::Circle => unitless(a.cx) && unitless(a.cy) && unitless(a.r),
        ElemKind::Ellipse => unitless(a.cx) && unitless(a.cy) && unitless(a.rx) && unitless(a.ry),
        ElemKind::Line => unitless(a.x1) && unitless(a.y1) && unitless(a.x2) && unitless(a.y2),
        _ => false,
    }
}

/// Whether `k` is a shape kind that folding rewrites.
pub fn is_shape_kind(k: ElemKind) -> (r: bool)
    ensures
        r == is_shape(k),
{
    match k {
        ElemKind::Rect | ElemKind::Circle | ElemKind::Ellipse | ElemKind::Line => true,
        _ => false,
    }
}

/// Transform validity of a node's attributes.
pub fn has_valid_transform(a: &Attrs) -> (r: bool)
    ensures
        r == transform_ok(*a),
{
    match a.transform {
        None => true,
        Some(AttrValue::Transform(t)) => t.is_decomposable(),
        Some(_) => false,
    }
}

fn is_link_value(v: Option<AttrValue>) -> (r: bool)
    ensures
        r == is_link(v),
{
    match v {
        Some(AttrValue::Link(_)) => true,
        _ => false,
    }
}

/// Attribute validity of node `i`.
pub fn is_valid_attrs(doc: &Document, i: usize) -> (r: bool)
    requires
        doc.wf(),
        i < doc.len_spec(),
    ensures
        r == attrs_ok(doc@, i as int),
{
    !is_link_value(doc.find_attribute(i, AttrId::Fill)) && !is_link_value(
        doc.find_attribute(i, AttrId::Stroke),
    ) && !is_link_value(doc.find_attribute(i, AttrId::Filter)) && !is_link_value(
        doc.find_attribute(i, AttrId::Mask),
    ) && !is_link_value(doc.find_attribute(i, AttrId::ClipPath))
}

fn is_unitless(v: Option<AttrValue>) -> (r: bool)
    ensures
        r == unitless(v),
{
    match v {
        None => true,
        Some(AttrValue::Number(_)) => true,
        Some(_) => false,
    }
}

/// Coordinate validity of a shape of kind `k`.
pub fn is_valid_coords(k: ElemKind, a: &Attrs) -> (r: bool)
    ensures
        r == coords_ok(k, *a),
{
    match k {
        ElemKind::Rect => is_unitless(a.x) && is_unitless(a.y) && is_unitless(a.width) && is_unitless(
            a.height,
        ) && is_unitless(a.rx) && is_unitless(a.ry),
        ElemKind::Circle => is_unitless(a.cx) && is_unitless(a.cy) && is_unitless(a.r),
        ElemKind::Ellipse => is_unitless(a.cx) && is_unitless(a.cy) && is_unitless(a.rx)
            && is_unitless(a.ry),
        ElemKind::Line => is_unitless(a.x1) && is_unitless(a.y1) && is_unitless(a.x2) && is_unitless(
            a.y2,
        ),
        _ => false,
    }
}

} // verus!
