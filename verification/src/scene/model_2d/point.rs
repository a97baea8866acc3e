//! A point in screen space, in whole pixels.

use vstd::prelude::*;

verus! {

/// A screen-space point.  The y axis points up, as in the Cartesian
/// convention; the conversion to bitmap rows happens when a triangle is
/// prepared for rasterization.
#[derive(Clone, Copy, Debug, PartialEq, Eq, Structural)]
pub struct Point {
    pub x: i64,
    pub y: i64,
}

} // verus!
