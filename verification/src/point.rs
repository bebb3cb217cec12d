//! Points of the plane.

use vstd::prelude::*;
use vstd::std_specs::cmp::PartialEqSpecImpl;
use crate::number::{eq, same};

verus! {

/// A point. Each coordinate is a double-precision number, held by its bit
/// pattern.
#[derive(Clone, Copy, Debug)]
pub struct Point {
    pub x: u64,
    pub y: u64,
}

impl Point {
    /// The point with the coordinates `x` and `y`.
    pub fn new(x: u64, y: u64) -> (p: Point)
        ensures
            p.x == x,
            p.y == y,
    {
        Point { x, y }
    }
}

impl PartialEq for Point {
    /// Whether the two points have the same coordinates, as numbers.
    fn eq(&self, other: &Point) -> (r: bool) {
        same(self.x, other.x) && same(self.y, other.y)
    }
}

impl PartialEqSpecImpl for Point {
    open spec fn obeys_eq_spec() -> bool {
        true
    }

    open spec fn eq_spec(&self, other: &Point) -> bool {
        eq(self.x, other.x) && eq(self.y, other.y)
    }
}

} // verus!
