use vstd::prelude::*;

use crate::utils::scalar::{lemma_sq_bound, scalar_is, sq, Scalar};
use crate::COORD_LIMIT;

verus! {

/// The kinematic velocity of a body: a 2D linear component on the coordinate
/// grid and a scalar angular component.
#[derive(Clone, Copy, Debug, PartialEq, Eq, Structural)]
pub struct Velocity {
    pub vx: i64,
    pub vy: i64,
    pub vangular: i64,
}

impl Velocity {
    /// Both linear components are within the grid cap, so their squares and
    /// the mass-weighted resolution products fit in machine integers. The
    /// angular component never enters any arithmetic and is not bounded.
    pub open spec fn in_bounds(self) -> bool {
        &&& -COORD_LIMIT <= self.vx <= COORD_LIMIT
        &&& -COORD_LIMIT <= self.vy <= COORD_LIMIT
    }

    pub fn new(vx: i64, vy: i64, vangular: i64) -> (r: Velocity)
        ensures
            r == (Velocity { vx, vy, vangular }),
    {
        Velocity { vx, vy, vangular }
    }

    pub fn get_velocity(&self) -> (r: (i64, i64))
        ensures
            r.0 == self.vx,
            r.1 == self.vy,
    {
        (self.vx, self.vy)
    }

    /// The magnitude of the linear component: `sqrt(vx^2 + vy^2)`, returned
    /// exactly as a scalar with an irrational part.
    pub fn get_speed(&self) -> (r: Scalar)
        requires
            self.in_bounds(),
        ensures
            scalar_is(r, 0, 1, sq(self.vx as int) + sq(self.vy as int), 1),
            r.wf(),
    {
        proof {
            lemma_sq_bound(self.vx as int, COORD_LIMIT as int);
            lemma_sq_bound(self.vy as int, COORD_LIMIT as int);
        }
        let total: i128 = self.vx as i128 * self.vx as i128 + self.vy as i128 * self.vy as i128;
        Scalar { num: 0, coeff: 1, root: total, den: 1 }
    }

    pub fn get_angular_velocity(&self) -> (r: i64)
        ensures
            r == self.vangular,
    {
        self.vangular
    }

    /// The mass-normalized linear kinetic energy `(vx^2 + vy^2) / 2`,
    /// returned exactly as a rational scalar. The angular component does not
    /// contribute to this quantity.
    pub fn get_kinetic_energy(&self) -> (r: Scalar)
        requires
            self.in_bounds(),
        ensures
            scalar_is(r, sq(self.vx as int) + sq(self.vy as int), 0, 0, 2),
            r.is_rational(),
            r.wf(),
    {
        proof {
            lemma_sq_bound(self.vx as int, COORD_LIMIT as int);
            lemma_sq_bound(self.vy as int, COORD_LIMIT as int);
        }
        let total: i128 = self.vx as i128 * self.vx as i128 + self.vy as i128 * self.vy as i128;
        Scalar { num: total, coeff: 0, root: 0, den: 2 }
    }
}

} // verus!
