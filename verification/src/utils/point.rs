use vstd::prelude::*;

use crate::utils::scalar::Scalar;

verus! {

/// An immutable 2D coordinate value. Each coordinate is an exact scalar, so
/// a point can carry the (generally irrational) boundary crossings that the
/// intersection solver reports.
#[derive(Clone, Copy, Debug, PartialEq, Eq, Structural)]
pub struct Point {
    pub x: Scalar,
    pub y: Scalar,
}

impl Point {
    pub fn new(x: Scalar, y: Scalar) -> (r: Point)
        ensures
            r.x == x,
            r.y == y,
    {
        Point { x, y }
    }

    pub fn get_tuple(&self) -> (r: (Scalar, Scalar))
        ensures
            r.0 == self.x,
            r.1 == self.y,
    {
        (self.x, self.y)
    }
}

} // verus!
