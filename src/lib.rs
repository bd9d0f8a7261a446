//! A verified model of the transform-folding cleaning pass for SVG documents
//! and of the decisions of the multipass cleaning driver.
//!
//! Numbers are fixed-point: an attribute value `v` stands for `v / UNIT`
//! user units.
use vstd::prelude::*;

pub mod fixed;
pub mod transform;
pub mod attrs;
pub mod tree;
pub mod guards;
pub mod fold;
pub mod driver;
pub mod laws;

