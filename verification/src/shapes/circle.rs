use vstd::prelude::*;

use crate::dynamics::acceleration::Acceleration;
use crate::dynamics::velocity::Velocity;
use crate::utils::scalar::{lemma_sq_bound, sq};
use crate::COORD_LIMIT;

verus! {

/// An immutable rigid circular body: a position and radius on the coordinate
/// grid, an orientation angle, and the body's kinematic state.
#[derive(Clone, Copy, Debug, PartialEq, Eq, Structural)]
pub struct Circle {
    pub x: i64,
    pub y: i64,
    pub radius: i64,
    pub angle: i64,
    pub velocity: Velocity,
    pub acceleration: Acceleration,
}

impl Circle {
    /// The radius is nonnegative -- the implicit precondition of a circular
    /// body -- and position and radius are within the grid cap, so the
    /// intersection solver's products fit in machine integers.
    pub open spec fn in_bounds(self) -> bool {
        &&& -COORD_LIMIT <= self.x <= COORD_LIMIT
        &&& -COORD_LIMIT <= self.y <= COORD_LIMIT
        &&& 0 <= self.radius <= COORD_LIMIT
    }

    /// A missing angle defaults to zero.
    pub fn new(
        x: i64,
        y: i64,
        radius: i64,
        angle: Option<i64>,
        velocity: Velocity,
        acceleration: Acceleration,
    ) -> (r: Circle)
        ensures
            r.x == x,
            r.y == y,
            r.radius == radius,
            r.angle == (match angle {
                None => 0i64,
                Some(a) => a,
            }),
            r.velocity == velocity,
            r.acceleration == acceleration,
    {
        let angle_or_default: i64 = match angle {
            None => 0,
            Some(a) => a,
        };

        Circle { x, y, radius, angle: angle_or_default, velocity, acceleration }
    }

    pub fn get_position(&self) -> (r: (i64, i64))
        ensures
            r.0 == self.x,
            r.1 == self.y,
    {
        (self.x, self.y)
    }

    pub fn get_radius(&self) -> (r: i64)
        ensures
            r == self.radius,
    {
        self.radius
    }

    /// The body's area in multiples of pi: `radius^2`. The factor pi is
    /// common to every body, and the collision resolution reads the area only
    /// through mass ratios, so it cancels everywhere it is used.
    pub fn get_area(&self) -> (r: i64)
        requires
            self.in_bounds(),
        ensures
            r as int == sq(self.radius as int),
            0 <= r <= 1_000_000_000_000,
    {
        proof {
            lemma_sq_bound(self.radius as int, COORD_LIMIT as int);
            assert(sq(COORD_LIMIT as int) == 1_000_000_000_000);
        }
        self.radius * self.radius
    }

    pub fn get_angle(&self) -> (r: i64)
        ensures
            r == self.angle,
    {
        self.angle
    }

    pub fn get_velocity(&self) -> (r: Velocity)
        ensures
            r == self.velocity,
    {
        self.velocity
    }

    pub fn get_acceleration(&self) -> (r: Acceleration)
        ensures
            r == self.acceleration,
    {
        self.acceleration
    }
}

} // verus!
