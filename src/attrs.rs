//! Attribute keys, typed attribute values and the attribute store of a node.
use vstd::prelude::*;
use crate::transform::Transform;

verus! {

/// The closed set of attribute keys that the cleaning passes read or write.
#[derive(Clone, Copy, Debug, PartialEq, Eq, Structural)]
pub enum AttrId {
    Transform,
    X,
    Y,
    Width,
    Height,
    Rx,
    Ry,
    Cx,
    Cy,
    R,
    X1,
    Y1,
    X2,
    Y2,
    StrokeWidth,
    Mask,
    ClipPath,
    Filter,
    Fill,
    Stroke,
}

/// A physical or relative length unit.
#[derive(Clone, Copy, Debug, PartialEq, Eq, Structural)]
pub enum LengthUnit {
    Em,
    Ex,
    Px,
    In,
    Cm,
    Mm,
    Pt,
    Pc,
    Percent,
}

/// A typed attribute value. Numbers are fixed-point.
#[derive(Clone, Copy, Debug, PartialEq, Eq, Structural)]
pub enum AttrValue {
    /// A unit-less number.
    Number(i64),
    /// A number with a unit.
    Length(i64, LengthUnit),
    /// A transform list, already multiplied out.
    Transform(Transform),
    /// A reference to another element (a paint server, mask, clip path or
    /// filter), by its index in the id table.
    Link(u32),
    /// A keyword or a colour, by its index in a table of names.
    Keyword(u32),
}

/// The attributes of one node: for each key, its value or `None` where the
/// attribute is not present.
#[derive(Clone, Copy, Debug, PartialEq, Eq, Structural)]
pub struct Attrs {
    pub transform: Option<AttrValue>,
    pub x: Option<AttrValue>,
    pub y: Option<AttrValue>,
    pub width: Option<AttrValue>,
    pub height: Option<AttrValue>,
    pub rx: Option<AttrValue>,
    pub ry: Option<AttrValue>,
    pub cx: Option<AttrValue>,
    pub cy: Option<AttrValue>,
    pub r: Option<AttrValue>,
    pub x1: Option<AttrValue>,
    pub y1: Option<AttrValue>,
    pub x2: Option<AttrValue>,
    pub y2: Option<AttrValue>,
    pub stroke_width: Option<AttrValue>,
    pub mask: Option<AttrValue>,
    pub clip_path: Option<AttrValue>,
    pub filter: Option<AttrValue>,
    pub fill: Option<AttrValue>,
    pub stroke: Option<AttrValue>,
}

impl Attrs {
    /// The value of `key`, or `None` where it is not present.
    pub open spec fn get_spec(self, key: AttrId) -> Option<AttrValue> {
        match key {
            AttrId::Transform => self.transform,
            AttrId::X => self.x,
            AttrId::Y => self.y,
            AttrId::Width => self.width,
            AttrId::Height => self.height,
            AttrId::Rx => self.rx,
            AttrId::Ry => self.ry,
            AttrId::Cx => self.cx,
            AttrId::Cy => self.cy,
            AttrId::R => self.r,
            AttrId::X1 => self.x1,
            AttrId::Y1 => self.y1,
            AttrId::X2 => self.x2,
            AttrId::Y2 => self.y2,
            AttrId::StrokeWidth => self.stroke_width,
            AttrId::Mask => self.mask,
            AttrId::ClipPath => self.clip_path,
            AttrId::Filter => self.filter,
            AttrId::Fill => self.fill,
            AttrId::Stroke => self.stroke,
        }
    }

    /// The same attributes with `key` holding `v` (absent where `None`).
    pub open spec fn with(self, key: AttrId, v: Option<AttrValue>) -> Attrs {
        match key {
            AttrId::Transform => Attrs { transform: v, ..self },
            AttrId::X => Attrs { x: v, ..self },
            AttrId::Y => Attrs { y: v, ..self },
            AttrId::Width => Attrs { width: v, ..self },
            AttrId::Height => Attrs { height: v, ..self },
            AttrId::Rx => Attrs { rx: v, ..self },
            AttrId::Ry => Attrs { ry: v, ..self },
            AttrId::Cx => Attrs { cx: v, ..self },
            AttrId::Cy => Attrs { cy: v, ..self },
            AttrId::R => Attrs { r: v, ..self },
            AttrId::X1 => Attrs { x1: v, ..self },
            AttrId::Y1 => Attrs { y1: v, ..self },
            AttrId::X2 => Attrs { x2: v, ..self },
            AttrId::Y2 => Attrs { y2: v, ..self },
            AttrId::StrokeWidth => Attrs { stroke_width: v, ..self },
            AttrId::Mask => Attrs { mask: v, ..self },
            AttrId::ClipPath => Attrs { clip_path: v, ..self },
            AttrId::Filter => Attrs { filter: v, ..self },
            AttrId::Fill => Attrs { fill: v, ..self },
            AttrId::Stroke => Attrs { stroke: v, ..self },
        }
    }

    /// No attribute present.
    pub fn new() -> (r: Attrs)
        ensures
            forall|k: AttrId| r.get_spec(k) is None,
    {
        Attrs {
            transform: None,
            x: None,
            y: None,
            width: None,
            height: None,
            rx: None,
            ry: None,
            cx: None,
            cy: None,
            r: None,
            x1: None,
            y1: None,
            x2: None,
            y2: None,
            stroke_width: None,
            mask: None,
            clip_path: None,
            filter: None,
            fill: None,
            stroke: None,
        }
    }

    /// The value of `key`, or `None` where it is not present.
    pub fn get(&self, key: AttrId) -> (r: Option<AttrValue>)
        ensures
            r == self.get_spec(key),
    {
        match key {
            AttrId::Transform => self.transform,
            AttrId::X => self.x,
            AttrId::Y => self.y,
            AttrId::Width => self.width,
            AttrId::Height => self.height,
            AttrId::Rx => self.rx,
            AttrId::Ry => self.ry,
            AttrId::Cx => self.cx,
            AttrId::Cy => self.cy,
            AttrId::R => self.r,
            AttrId::X1 => self.x1,
            AttrId::Y1 => self.y1,
            AttrId::X2 => self.x2,
            AttrId::Y2 => self.y2,
            AttrId::StrokeWidth => self.stroke_width,
            AttrId::Mask => self.mask,
            AttrId::ClipPath => self.clip_path,
            AttrId::Filter => self.filter,
            AttrId::Fill => self.fill,
            AttrId::Stroke => self.stroke,
        }
    }

    /// Whether `key` is present.
    pub fn has(&self, key: AttrId) -> (r: bool)
        ensures
            r == self.get_spec(key) is Some,
    {
        self.get(key).is_some()
    }

    /// Gives `key` the value `v`, or removes it where `v` is `None`; the
    /// other keys keep their values.
    pub fn put(&mut self, key: AttrId, v: Option<AttrValue>)
        ensures
            *final(self) == old(self).with(key, v),
            final(self).get_spec(key) == v,
            forall|k: AttrId| k != key ==> final(self).get_spec(k) == old(self).get_spec(k),
    {
        match key {
            AttrId::Transform => self.transform = v,
            AttrId::X => self.x = v,
            AttrId::Y => self.y = v,
            AttrId::Width => self.width = v,
            AttrId::Height => self.height = v,
            AttrId::Rx => self.rx = v,
            AttrId::Ry => self.ry = v,
            AttrId::Cx => self.cx = v,
            AttrId::Cy => self.cy = v,
            AttrId::R => self.r = v,
            AttrId::X1 => self.x1 = v,
            AttrId::Y1 => self.y1 = v,
            AttrId::X2 => self.x2 = v,
            AttrId::Y2 => self.y2 = v,
            AttrId::StrokeWidth => self.stroke_width = v,
            AttrId::Mask => self.mask = v,
            AttrId::ClipPath => self.clip_path = v,
            AttrId::Filter => self.filter = v,
            AttrId::Fill => self.fill = v,
            AttrId::Stroke => self.stroke = v,
        }
    }

    /// Gives `key` the value `v`; the other keys keep their values.
    pub fn set(&mut self, key: AttrId, v: AttrValue)
        ensures
            *final(self) == old(self).with(key, Some(v)),
            final(self).get_spec(key) == Some(v),
            forall|k: AttrId| k != key ==> final(self).get_spec(k) == old(self).get_spec(k),
    {
        self.put(key, Some(v));
    }

    /// Removes `key`; the other keys keep their values.
    pub fn remove(&mut self, key: AttrId)
        ensures
            *final(self) == old(self).with(key, None),
            final(self).get_spec(key) is None,
            forall|k: AttrId| k != key ==> final(self).get_spec(k) == old(self).get_spec(k),
    {
        self.put(key, None);
    }
}

} // verus!
