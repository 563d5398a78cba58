use vstd::prelude::*;

verus! {

/// An axis-sized rectangular shape: a bare data holder with no collision
/// behavior of its own.
#[derive(Clone, Copy, Debug, PartialEq, Eq, Structural)]
pub struct Rectangle {
    pub x: i64,
    pub y: i64,
    pub height: i64,
    pub width: i64,
    pub angle: i64,
}

impl Rectangle {
    /// A missing angle defaults to zero.
    pub fn new(x: i64, y: i64, height: i64, width: i64, angle: Option<i64>) -> (r: Rectangle)
        ensures
            r.x == x,
            r.y == y,
            r.height == height,
            r.width == width,
            r.angle == (match angle {
                None => 0i64,
                Some(a) => a,
            }),
    {
        let angle_or_default: i64 = match angle {
            None => 0,
            Some(a) => a,
        };

        Rectangle { x, y, height, width, angle: angle_or_default }
    }

    pub fn get_position(&self) -> (r: (i64, i64))
        ensures
            r.0 == self.x,
            r.1 == self.y,
    {
        (self.x, self.y)
    }

    pub fn get_size(&self) -> (r: (i64, i64))
        ensures
            r.0 == self.height,
            r.1 == self.width,
    {
        (self.height, self.width)
    }

    pub fn get_angle(&self) -> (r: i64)
        ensures
            r == self.angle,
    {
        self.angle
    }
}

} // verus!
