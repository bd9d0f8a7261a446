use svgfold::attrs::{AttrId, AttrValue, Attrs, LengthUnit};
use svgfold::fixed::UNIT;
use svgfold::fold::apply_transform_to_shapes;
use svgfold::transform::Transform;
use svgfold::tree::{Document, ElemKind};

fn n(v: i64) -> AttrValue {
    AttrValue::Number(v * UNIT)
}

fn ts(t: Transform) -> AttrValue {
    AttrValue::Transform(t)
}

/// `translate(tx ty) scale(s)` as one matrix.
fn translate_scale(tx: i64, ty: i64, s: i64) -> Transform {
    Transform::translate(tx * UNIT, ty * UNIT)
        .compose(&Transform::scale(s * UNIT, s * UNIT))
        .unwrap()
}

fn attrs(list: &[(AttrId, AttrValue)]) -> Attrs {
    let mut a = Attrs::new();
    for (k, v) in list {
        a.set(*k, *v);
    }
    a
}

fn svg_with(kind: ElemKind, child: Attrs) -> (Document, usize) {
    let mut doc = Document::new(ElemKind::Svg, Attrs::new());
    let c = doc.add_child(0, kind, child);
    (doc, c)
}

#[test]
fn apply_1() {
    let (mut doc, r) = svg_with(
        ElemKind::Rect,
        attrs(&[
            (AttrId::Height, n(10)),
            (AttrId::Width, n(10)),
            (AttrId::X, n(10)),
            (AttrId::Y, n(10)),
            (AttrId::Transform, ts(Transform::translate(10 * UNIT, 20 * UNIT))),
        ]),
    );
    apply_transform_to_shapes(&mut doc);
    let expected = attrs(&[
        (AttrId::Height, n(10)),
        (AttrId::Width, n(10)),
        (AttrId::X, n(20)),
        (AttrId::Y, n(30)),
    ]);
    assert_eq!(doc.attrs[r], expected);
    assert_eq!(doc.get_attr(r, AttrId::StrokeWidth), None);
}

#[test]
fn apply_2() {
    let (mut doc, r) = svg_with(
        ElemKind::Rect,
        attrs(&[
            (AttrId::Height, n(10)),
            (AttrId::Rx, n(2)),
            (AttrId::Ry, n(2)),
            (AttrId::Width, n(10)),
            (AttrId::X, n(10)),
            (AttrId::Y, n(10)),
            (AttrId::Transform, ts(translate_scale(10, 20, 2))),
        ]),
    );
    apply_transform_to_shapes(&mut doc);
    let expected = attrs(&[
        (AttrId::Height, n(20)),
        (AttrId::Rx, n(4)),
        (AttrId::Ry, n(4)),
        (AttrId::StrokeWidth, n(2)),
        (AttrId::Width, n(20)),
        (AttrId::X, n(30)),
        (AttrId::Y, n(40)),
    ]);
    assert_eq!(doc.attrs[r], expected);
}

#[test]
fn apply_3() {
    let (mut doc, r) = svg_with(
        ElemKind::Rect,
        attrs(&[
            (AttrId::Height, n(10)),
            (AttrId::Width, n(10)),
            (AttrId::Transform, ts(translate_scale(10, 20, 2))),
        ]),
    );
    apply_transform_to_shapes(&mut doc);
    let expected = attrs(&[
        (AttrId::Height, n(20)),
        (AttrId::StrokeWidth, n(2)),
        (AttrId::Width, n(20)),
        (AttrId::X, n(10)),
        (AttrId::Y, n(20)),
    ]);
    assert_eq!(doc.attrs[r], expected);
}

#[test]
fn apply_4() {
    let mut doc = Document::new(ElemKind::Svg, attrs(&[(AttrId::StrokeWidth, n(2))]));
    let r = doc.add_child(
        0,
        ElemKind::Rect,
        attrs(&[
            (AttrId::Height, n(10)),
            (AttrId::Width, n(10)),
            (AttrId::Transform, ts(Transform::scale(2 * UNIT, 2 * UNIT))),
        ]),
    );
    apply_transform_to_shapes(&mut doc);
    let expected = attrs(&[
        (AttrId::Height, n(20)),
        (AttrId::StrokeWidth, n(4)),
        (AttrId::Width, n(20)),
        (AttrId::X, n(0)),
        (AttrId::Y, n(0)),
    ]);
    assert_eq!(doc.attrs[r], expected);
    assert_eq!(doc.attrs[0], attrs(&[(AttrId::StrokeWidth, n(2))]));
}

#[test]
fn inherited_stroke_width_example() {
    // A rect inside an svg with a stroke width of 2, under
    // translate(10 20) scale(2): sizes double and the stroke width is 4.
    let mut doc = Document::new(ElemKind::Svg, attrs(&[(AttrId::StrokeWidth, n(2))]));
    let r = doc.add_child(
        0,
        ElemKind::Rect,
        attrs(&[
            (AttrId::Height, n(10)),
            (AttrId::Width, n(10)),
            (AttrId::Transform, ts(translate_scale(10, 20, 2))),
        ]),
    );
    apply_transform_to_shapes(&mut doc);
    assert_eq!(doc.get_attr(r, AttrId::Height), Some(n(20)));
    assert_eq!(doc.get_attr(r, AttrId::Width), Some(n(20)));
    assert_eq!(doc.get_attr(r, AttrId::X), Some(n(10)));
    assert_eq!(doc.get_attr(r, AttrId::Y), Some(n(20)));
    assert_eq!(doc.get_attr(r, AttrId::StrokeWidth), Some(n(4)));
    assert_eq!(doc.get_attr(r, AttrId::Transform), None);
}

#[test]
fn apply_circle_1() {
    let (mut doc, c) = svg_with(
        ElemKind::Circle,
        attrs(&[
            (AttrId::Cx, n(10)),
            (AttrId::Cy, n(10)),
            (AttrId::R, n(15)),
            (AttrId::Transform, ts(translate_scale(10, 20, 2))),
        ]),
    );
    apply_transform_to_shapes(&mut doc);
    let expected = attrs(&[
        (AttrId::Cx, n(30)),
        (AttrId::Cy, n(40)),
        (AttrId::R, n(30)),
        (AttrId::StrokeWidth, n(2)),
    ]);
    assert_eq!(doc.attrs[c], expected);
}

#[test]
fn apply_ellipse_1() {
    let (mut doc, e) = svg_with(
        ElemKind::Ellipse,
        attrs(&[
            (AttrId::Cx, n(10)),
            (AttrId::Cy, n(10)),
            (AttrId::Rx, n(15)),
            (AttrId::Ry, n(15)),
            (AttrId::Transform, ts(translate_scale(10, 20, 2))),
        ]),
    );
    apply_transform_to_shapes(&mut doc);
    let expected = attrs(&[
        (AttrId::Cx, n(30)),
        (AttrId::Cy, n(40)),
        (AttrId::Rx, n(30)),
        (AttrId::Ry, n(30)),
        (AttrId::StrokeWidth, n(2)),
    ]);
    assert_eq!(doc.attrs[e], expected);
}

#[test]
fn apply_line_1() {
    let (mut doc, l) = svg_with(
        ElemKind::Line,
        attrs(&[
            (AttrId::X1, n(10)),
            (AttrId::X2, n(10)),
            (AttrId::Y1, n(15)),
            (AttrId::Y2, n(15)),
            (AttrId::Transform, ts(translate_scale(10, 20, 2))),
        ]),
    );
    apply_transform_to_shapes(&mut doc);
    let expected = attrs(&[
        (AttrId::StrokeWidth, n(2)),
        (AttrId::X1, n(30)),
        (AttrId::X2, n(30)),
        (AttrId::Y1, n(50)),
        (AttrId::Y2, n(50)),
    ]);
    assert_eq!(doc.attrs[l], expected);
}

fn plain_rect() -> Attrs {
    attrs(&[(AttrId::Height, n(10)), (AttrId::Width, n(10)), (AttrId::X, n(10)), (AttrId::Y, n(10))])
}

#[test]
fn apply_g_1() {
    let mut doc = Document::new(ElemKind::Svg, Attrs::new());
    let g = doc.add_child(0, ElemKind::G, attrs(&[(AttrId::Transform, ts(translate_scale(10, 20, 2)))]));
    let mut first = plain_rect();
    first.set(AttrId::Transform, ts(Transform::scale(2 * UNIT, 2 * UNIT)));
    let r1 = doc.add_child(g, ElemKind::Rect, first);
    let r2 = doc.add_child(g, ElemKind::Rect, plain_rect());
    let r3 = doc.add_child(g, ElemKind::Rect, plain_rect());
    apply_transform_to_shapes(&mut doc);
    assert_eq!(doc.attrs[g], Attrs::new());
    let big = attrs(&[
        (AttrId::Height, n(40)),
        (AttrId::StrokeWidth, n(4)),
        (AttrId::Width, n(40)),
        (AttrId::X, n(50)),
        (AttrId::Y, n(60)),
    ]);
    let small = attrs(&[
        (AttrId::Height, n(20)),
        (AttrId::StrokeWidth, n(2)),
        (AttrId::Width, n(20)),
        (AttrId::X, n(30)),
        (AttrId::Y, n(40)),
    ]);
    assert_eq!(doc.attrs[r1], big);
    assert_eq!(doc.attrs[r2], small);
    assert_eq!(doc.attrs[r3], small);
}

#[test]
fn keep_1() {
    let before = attrs(&[
        (AttrId::Height, n(10)),
        (AttrId::Transform, ts(Transform::scale(2 * UNIT, 2 * UNIT))),
        (AttrId::Width, n(10)),
        (AttrId::X, AttrValue::Length(10 * UNIT, LengthUnit::In)),
        (AttrId::Y, n(10)),
    ]);
    let (mut doc, r) = svg_with(ElemKind::Rect, before);
    apply_transform_to_shapes(&mut doc);
    assert_eq!(doc.attrs[r], before);
}

#[test]
fn group_with_mask_keeps_its_transform() {
    let mut doc = Document::new(ElemKind::Svg, Attrs::new());
    let g_attrs = attrs(&[
        (AttrId::Mask, AttrValue::Link(0)),
        (AttrId::Transform, ts(Transform::scale(2 * UNIT, 2 * UNIT))),
    ]);
    let g = doc.add_child(0, ElemKind::G, g_attrs);
    let r = doc.add_child(g, ElemKind::Rect, plain_rect());
    apply_transform_to_shapes(&mut doc);
    assert_eq!(doc.attrs[g], g_attrs);
    assert_eq!(doc.attrs[r], plain_rect());
}

#[test]
fn group_non_uniform_scale_is_pushed_down() {
    let mut doc = Document::new(ElemKind::Svg, Attrs::new());
    let g = doc.add_child(
        0,
        ElemKind::G,
        attrs(&[(AttrId::Transform, ts(Transform::scale(2 * UNIT, 3 * UNIT)))]),
    );
    let r = doc.add_child(g, ElemKind::Rect, plain_rect());
    apply_transform_to_shapes(&mut doc);
    assert_eq!(doc.get_attr(g, AttrId::Transform), None);
    let expected = attrs(&[
        (AttrId::Height, n(20)),
        (AttrId::StrokeWidth, n(2)),
        (AttrId::Width, n(20)),
        (AttrId::X, n(20)),
        (AttrId::Y, n(30)),
    ]);
    assert_eq!(doc.attrs[r], expected);
}

#[test]
fn one_bad_child_blocks_push_down() {
    let mut doc = Document::new(ElemKind::Svg, Attrs::new());
    let g_attrs = attrs(&[(AttrId::Transform, ts(translate_scale(10, 20, 2)))]);
    let g = doc.add_child(0, ElemKind::G, g_attrs);
    let r = doc.add_child(g, ElemKind::Rect, plain_rect());
    let other = doc.add_child(g, ElemKind::Other, Attrs::new());
    apply_transform_to_shapes(&mut doc);
    assert_eq!(doc.attrs[g], g_attrs);
    assert_eq!(doc.attrs[r], plain_rect());
    assert_eq!(doc.attrs[other], Attrs::new());
}

#[test]
fn skewed_transform_is_kept() {
    let skew = Transform { a: UNIT, b: 0, c: UNIT / 2, d: UNIT, e: 0, f: 0 };
    let mut before = plain_rect();
    before.set(AttrId::Transform, ts(skew));
    let (mut doc, r) = svg_with(ElemKind::Rect, before);
    apply_transform_to_shapes(&mut doc);
    assert_eq!(doc.attrs[r], before);
}

#[test]
fn degenerate_scale_is_kept() {
    let mut before = plain_rect();
    before.set(AttrId::Transform, ts(Transform::scale(0, UNIT)));
    let (mut doc, r) = svg_with(ElemKind::Rect, before);
    apply_transform_to_shapes(&mut doc);
    assert_eq!(doc.attrs[r], before);
}

#[test]
fn clipped_shape_is_kept() {
    let mut before = plain_rect();
    before.set(AttrId::ClipPath, AttrValue::Link(3));
    before.set(AttrId::Transform, ts(Transform::translate(UNIT, UNIT)));
    let (mut doc, r) = svg_with(ElemKind::Rect, before);
    apply_transform_to_shapes(&mut doc);
    assert_eq!(doc.attrs[r], before);
}

#[test]
fn overflowing_fold_is_kept() {
    let mut before = plain_rect();
    before.set(AttrId::Transform, ts(Transform::translate(i64::MAX, 0)));
    let (mut doc, r) = svg_with(ElemKind::Rect, before);
    apply_transform_to_shapes(&mut doc);
    assert_eq!(doc.attrs[r], before);
}

#[test]
fn explicit_stroke_width_is_scaled() {
    let mut before = plain_rect();
    before.set(AttrId::StrokeWidth, n(3));
    before.set(AttrId::Transform, ts(Transform::scale(2 * UNIT, 2 * UNIT)));
    let (mut doc, r) = svg_with(ElemKind::Rect, before);
    apply_transform_to_shapes(&mut doc);
    assert_eq!(doc.get_attr(r, AttrId::StrokeWidth), Some(n(6)));
}

#[test]
fn stroke_width_with_unit_keeps_unit() {
    let mut before = plain_rect();
    before.set(AttrId::StrokeWidth, AttrValue::Length(3 * UNIT, LengthUnit::Px));
    before.set(AttrId::Transform, ts(Transform::scale(UNIT / 2, UNIT / 2)));
    let (mut doc, r) = svg_with(ElemKind::Rect, before);
    apply_transform_to_shapes(&mut doc);
    assert_eq!(
        doc.get_attr(r, AttrId::StrokeWidth),
        Some(AttrValue::Length(3 * UNIT / 2, LengthUnit::Px))
    );
    assert_eq!(doc.get_attr(r, AttrId::Width), Some(n(5)));
}

#[test]
fn no_stroke_width_without_scale() {
    let mut before = plain_rect();
    before.set(AttrId::Transform, ts(Transform::translate(-5 * UNIT, 0)));
    let (mut doc, r) = svg_with(ElemKind::Rect, before);
    apply_transform_to_shapes(&mut doc);
    assert_eq!(doc.get_attr(r, AttrId::StrokeWidth), None);
    assert_eq!(doc.get_attr(r, AttrId::X), Some(n(5)));
}

#[test]
fn second_run_changes_nothing() {
    let mut doc = Document::new(ElemKind::Svg, Attrs::new());
    let g = doc.add_child(0, ElemKind::G, attrs(&[(AttrId::Transform, ts(translate_scale(1, 2, 3)))]));
    doc.add_child(g, ElemKind::Circle, attrs(&[(AttrId::R, n(1))]));
    doc.add_child(0, ElemKind::Line, attrs(&[(AttrId::Transform, ts(Transform::translate(UNIT, 0)))]));
    apply_transform_to_shapes(&mut doc);
    let once = doc.attrs.clone();
    apply_transform_to_shapes(&mut doc);
    assert_eq!(doc.attrs, once);
}

#[test]
fn rounding_toward_zero() {
    let mut before = attrs(&[(AttrId::X, AttrValue::Number(-3)), (AttrId::Y, AttrValue::Number(3))]);
    before.set(AttrId::Transform, ts(Transform::scale(UNIT / 2, UNIT / 2)));
    let (mut doc, r) = svg_with(ElemKind::Rect, before);
    apply_transform_to_shapes(&mut doc);
    assert_eq!(doc.get_attr(r, AttrId::X), Some(AttrValue::Number(-1)));
    assert_eq!(doc.get_attr(r, AttrId::Y), Some(AttrValue::Number(1)));
}

#[test]
fn flipped_shape_is_kept() {
    let mut before = plain_rect();
    before.set(AttrId::Transform, ts(Transform::scale(-UNIT, -UNIT)));
    let (mut doc, r) = svg_with(ElemKind::Rect, before);
    apply_transform_to_shapes(&mut doc);
    assert_eq!(doc.attrs[r], before);
    let mut doubled = plain_rect();
    doubled.set(AttrId::Transform, ts(Transform::scale(-2 * UNIT, 2 * UNIT)));
    let (mut doc, r) = svg_with(ElemKind::Rect, doubled);
    apply_transform_to_shapes(&mut doc);
    assert_eq!(doc.attrs[r], doubled);
}

#[test]
fn gradient_fill_is_kept() {
    let mut before = plain_rect();
    before.set(AttrId::Fill, AttrValue::Link(1));
    before.set(AttrId::Transform, ts(Transform::translate(UNIT, UNIT)));
    let (mut doc, r) = svg_with(ElemKind::Rect, before);
    apply_transform_to_shapes(&mut doc);
    assert_eq!(doc.attrs[r], before);
}

#[test]
fn inherited_stroke_reference_blocks_fold() {
    let mut doc = Document::new(ElemKind::Svg, attrs(&[(AttrId::Stroke, AttrValue::Link(2))]));
    let mut before = plain_rect();
    before.set(AttrId::Transform, ts(Transform::translate(UNIT, UNIT)));
    let r = doc.add_child(0, ElemKind::Rect, before);
    apply_transform_to_shapes(&mut doc);
    assert_eq!(doc.attrs[r], before);
}

#[test]
fn own_colour_overrides_inherited_reference() {
    let mut doc = Document::new(ElemKind::Svg, attrs(&[(AttrId::Fill, AttrValue::Link(2))]));
    let mut before = plain_rect();
    before.set(AttrId::Fill, AttrValue::Keyword(0));
    before.set(AttrId::Transform, ts(Transform::translate(UNIT, UNIT)));
    let r = doc.add_child(0, ElemKind::Rect, before);
    apply_transform_to_shapes(&mut doc);
    assert_eq!(doc.get_attr(r, AttrId::X), Some(n(11)));
    assert_eq!(doc.get_attr(r, AttrId::Fill), Some(AttrValue::Keyword(0)));
    assert_eq!(doc.get_attr(r, AttrId::Transform), None);
}

#[test]
fn group_under_filtered_parent_keeps_transform() {
    let mut doc = Document::new(ElemKind::Svg, attrs(&[(AttrId::Filter, AttrValue::Link(4))]));
    let g_attrs = attrs(&[(AttrId::Transform, ts(Transform::scale(2 * UNIT, 2 * UNIT)))]);
    let g = doc.add_child(0, ElemKind::G, g_attrs);
    let r = doc.add_child(g, ElemKind::Rect, plain_rect());
    apply_transform_to_shapes(&mut doc);
    assert_eq!(doc.attrs[g], g_attrs);
    assert_eq!(doc.attrs[r], plain_rect());
}
