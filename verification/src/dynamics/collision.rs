use vstd::prelude::*;

use crate::dynamics::acceleration::Acceleration;
use crate::dynamics::velocity::Velocity;
use crate::shapes::circle::Circle;
use crate::utils::intersection::{
    circle_intersection, intersection_points_correct, radius_sum_sq, separated, Intersection,
    IntersectionResult,
};
use crate::utils::scalar::{lemma_mul_bound, lemma_sq_bound, scalar_is, sq, Scalar};

verus! {

/// One ordered pair of bodies, bound for a single discrete-time interaction
/// query. A collision neither owns simulation state nor mutates its bodies.
#[derive(Debug, PartialEq)]
pub struct Collision<B> {
    pub body1: B,
    pub body2: B,
}

/// The mass proxy of a body: its area in multiples of pi, `radius^2`, under
/// an assumed unit areal density. The factor pi is common to both bodies and
/// cancels out of every mass ratio of the resolution.
pub open spec fn mass(c: Circle) -> int {
    sq(c.radius as int)
}

/// The common denominator of the resolved velocities: the mass sum.
pub open spec fn mass_sum(b1: Circle, b2: Circle) -> int {
    mass(b1) + mass(b2)
}

/// Numerator of the first body's post-impact x velocity, over `mass_sum`:
/// `v1' = ((m1-m2) v1 + 2 m2 v2) / (m1+m2)`, the one-dimensional elastic
/// collision formula applied along the global x axis.
pub open spec fn resolved1_x_num(b1: Circle, b2: Circle) -> int {
    (mass(b1) - mass(b2)) * b1.velocity.vx + 2 * mass(b2) * b2.velocity.vx
}

/// Numerator of the first body's post-impact y velocity, over `mass_sum`.
pub open spec fn resolved1_y_num(b1: Circle, b2: Circle) -> int {
    (mass(b1) - mass(b2)) * b1.velocity.vy + 2 * mass(b2) * b2.velocity.vy
}

/// Numerator of the second body's post-impact x velocity, over `mass_sum`:
/// `v2' = (2 m1 v1 - (m1-m2) v2) / (m1+m2)`.
pub open spec fn resolved2_x_num(b1: Circle, b2: Circle) -> int {
    2 * mass(b1) * b1.velocity.vx - (mass(b1) - mass(b2)) * b2.velocity.vx
}

/// Numerator of the second body's post-impact y velocity, over `mass_sum`.
pub open spec fn resolved2_y_num(b1: Circle, b2: Circle) -> int {
    2 * mass(b1) * b1.velocity.vy - (mass(b1) - mass(b2)) * b2.velocity.vy
}

/// A post-impact velocity. The linear components generally leave the integer
/// grid, so they are exact rational scalars; the angular component is carried
/// through unchanged and stays a grid value.
#[derive(Clone, Copy, Debug, PartialEq, Eq, Structural)]
pub struct ResolvedVelocity {
    pub vx: Scalar,
    pub vy: Scalar,
    pub vangular: i64,
}

/// `r` is exactly the unchanged velocity `v`.
pub open spec fn passes_through(v: Velocity, r: ResolvedVelocity) -> bool {
    &&& scalar_is(r.vx, v.vx as int, 0, 0, 1)
    &&& scalar_is(r.vy, v.vy as int, 0, 0, 1)
    &&& r.vangular == v.vangular
}

/// `r1`, `r2` are exactly the elastic-impact resolution for `b1`, `b2`:
/// the axis-wise formula on the linear components, over the mass sum, with
/// both angular components carried through unchanged.
pub open spec fn resolves_elastic(
    b1: Circle,
    b2: Circle,
    r1: ResolvedVelocity,
    r2: ResolvedVelocity,
) -> bool {
    &&& scalar_is(r1.vx, resolved1_x_num(b1, b2), 0, 0, mass_sum(b1, b2))
    &&& scalar_is(r1.vy, resolved1_y_num(b1, b2), 0, 0, mass_sum(b1, b2))
    &&& r1.vangular == b1.velocity.vangular
    &&& scalar_is(r2.vx, resolved2_x_num(b1, b2), 0, 0, mass_sum(b1, b2))
    &&& scalar_is(r2.vy, resolved2_y_num(b1, b2), 0, 0, mass_sum(b1, b2))
    &&& r2.vangular == b2.velocity.vangular
}

impl<B> Collision<B> {
    pub fn new(body1: B, body2: B) -> (r: Collision<B>)
        ensures
            r.body1 == body1,
            r.body2 == body2,
    {
        Collision { body1, body2 }
    }
}

impl Collision<Circle> {
    /// True exactly when the two bodies overlap under the solver's
    /// separation test.
    pub fn is_collision(&self) -> (r: bool)
        requires
            self.body1.in_bounds(),
            self.body2.in_bounds(),
        ensures
            r == !separated(self.body1, self.body2),
    {
        match self.get_contacts().result_type {
            IntersectionResult::NoIntersection => false,
            IntersectionResult::Intersection => true,
        }
    }

    /// Delegates to the intersection solver on `(body1, body2)`.
    pub fn get_contacts(&self) -> (r: Intersection)
        requires
            self.body1.in_bounds(),
            self.body2.in_bounds(),
        ensures
            (r.result_type == IntersectionResult::Intersection) <==> !separated(
                self.body1,
                self.body2,
            ),
            (r.result is Some) <==> (r.result_type == IntersectionResult::Intersection),
            !separated(self.body1, self.body2) ==> (r.result matches Some(pts)
                && intersection_points_correct(self.body1, self.body2, pts.0, pts.1)),
            !separated(self.body1, self.body2) ==> crate::utils::intersection::inter_den(
                self.body1,
                self.body2,
            ) > 0,
    {
        circle_intersection(self.body1, self.body2)
    }

    /// Reads both bodies' current velocities, unchanged.
    pub fn get_velocities(&self) -> (r: (Velocity, Velocity))
        ensures
            r.0 == self.body1.velocity,
            r.1 == self.body2.velocity,
    {
        (self.body1.get_velocity(), self.body2.get_velocity())
    }

    /// Reads both bodies' current accelerations, unchanged.
    pub fn get_accelerations(&self) -> (r: (Acceleration, Acceleration))
        ensures
            r.0 == self.body1.acceleration,
            r.1 == self.body2.acceleration,
    {
        (self.body1.get_acceleration(), self.body2.get_acceleration())
    }

    /// The elastic-collision resolution. Without an overlap, both velocities
    /// pass through unchanged. With one, the one-dimensional elastic formula
    /// is applied independently along the global x and y axes, with the areas
    /// as mass proxies; angular velocity is carried through unchanged in both
    /// branches. Overlap forces a positive radius sum, so the mass sum -- the
    /// common denominator of the result -- is positive.
    pub fn get_new_velocities(&self) -> (r: (ResolvedVelocity, ResolvedVelocity))
        requires
            self.body1.in_bounds(),
            self.body2.in_bounds(),
            self.body1.velocity.in_bounds(),
            self.body2.velocity.in_bounds(),
        ensures
            separated(self.body1, self.body2) ==> passes_through(self.body1.velocity, r.0)
                && passes_through(self.body2.velocity, r.1),
            !separated(self.body1, self.body2) ==> resolves_elastic(
                self.body1,
                self.body2,
                r.0,
                r.1,
            ),
            r.0.vx.wf() && r.0.vy.wf() && r.1.vx.wf() && r.1.vy.wf(),
    {
        let body1 = self.body1.get_velocity();
        let body2 = self.body2.get_velocity();

        let body1_velocity: (i64, i64) = body1.get_velocity();
        let body2_velocity: (i64, i64) = body2.get_velocity();

        let is_collision: bool = self.is_collision();

        if is_collision == false {
            (
                ResolvedVelocity {
                    vx: Scalar::from_int(body1_velocity.0),
                    vy: Scalar::from_int(body1_velocity.1),
                    vangular: body1.get_angular_velocity(),
                },
                ResolvedVelocity {
                    vx: Scalar::from_int(body2_velocity.0),
                    vy: Scalar::from_int(body2_velocity.1),
                    vangular: body2.get_angular_velocity(),
                },
            )
        } else {
            let (v1_x, v1_y): (i64, i64) = body1_velocity;
            let (v2_x, v2_y): (i64, i64) = body2_velocity;

            let m1: i128 = self.body1.get_area() as i128;
            let m2: i128 = self.body2.get_area() as i128;

            proof {
                // the overlap rules out coincident centers, so the squared
                // distance is at least 1, and with it the squared radius sum
                lemma_sq_bound(self.body2.x - self.body1.x, 2_000_000);
                lemma_sq_bound(self.body2.y - self.body1.y, 2_000_000);
                assert(radius_sum_sq(self.body1, self.body2) >= 1);
                let r0 = self.body1.radius as int;
                let r1 = self.body2.radius as int;
                assert(r0 * r0 + r1 * r1 >= 1) by (nonlinear_arith)
                    requires
                        0 <= r0,
                        0 <= r1,
                        (r0 + r1) * (r0 + r1) >= 1,
                ;
            }
            let msum: i128 = m1 + m2;

            proof {
                lemma_mul_bound(m1 - m2, v1_x as int, 1_000_000_000_000, 1_000_000);
                lemma_mul_bound(m1 - m2, v1_y as int, 1_000_000_000_000, 1_000_000);
                lemma_mul_bound(m1 - m2, v2_x as int, 1_000_000_000_000, 1_000_000);
                lemma_mul_bound(m1 - m2, v2_y as int, 1_000_000_000_000, 1_000_000);
                lemma_mul_bound(2 * m1 as int, v1_x as int, 2_000_000_000_000, 1_000_000);
                lemma_mul_bound(2 * m1 as int, v1_y as int, 2_000_000_000_000, 1_000_000);
                lemma_mul_bound(2 * m2 as int, v2_x as int, 2_000_000_000_000, 1_000_000);
                lemma_mul_bound(2 * m2 as int, v2_y as int, 2_000_000_000_000, 1_000_000);
            }
            let num1_x: i128 = (m1 - m2) * v1_x as i128 + 2 * m2 * v2_x as i128;
            let num1_y: i128 = (m1 - m2) * v1_y as i128 + 2 * m2 * v2_y as i128;

            let num2_x: i128 = 2 * m1 * v1_x as i128 - (m1 - m2) * v2_x as i128;
            let num2_y: i128 = 2 * m1 * v1_y as i128 - (m1 - m2) * v2_y as i128;

            (
                ResolvedVelocity {
                    vx: Scalar { num: num1_x, coeff: 0, root: 0, den: msum },
                    vy: Scalar { num: num1_y, coeff: 0, root: 0, den: msum },
                    vangular: body1.get_angular_velocity(),
                },
                ResolvedVelocity {
                    vx: Scalar { num: num2_x, coeff: 0, root: 0, den: msum },
                    vy: Scalar { num: num2_y, coeff: 0, root: 0, den: msum },
                    vangular: body2.get_angular_velocity(),
                },
            )
        }
    }
}

/// In an elastic impact, total linear momentum -- the mass-weighted sum of
/// the two linear velocities -- is conserved on each axis. The resolved
/// velocities share the denominator `mass_sum`, so the statement is
/// cross-multiplied by it.
pub proof fn lemma_momentum_conserved(b1: Circle, b2: Circle)
    ensures
        mass(b1) * resolved1_x_num(b1, b2) + mass(b2) * resolved2_x_num(b1, b2) == (mass(b1)
            * b1.velocity.vx + mass(b2) * b2.velocity.vx) * mass_sum(b1, b2),
        mass(b1) * resolved1_y_num(b1, b2) + mass(b2) * resolved2_y_num(b1, b2) == (mass(b1)
            * b1.velocity.vy + mass(b2) * b2.velocity.vy) * mass_sum(b1, b2),
{
    lemma_axis_momentum(mass(b1), mass(b2), b1.velocity.vx as int, b2.velocity.vx as int);
    lemma_axis_momentum(mass(b1), mass(b2), b1.velocity.vy as int, b2.velocity.vy as int);
}

/// The one-dimensional elastic formula conserves momentum along its axis:
/// a ring identity in the two masses and the two incoming components.
proof fn lemma_axis_momentum(m1: int, m2: int, v1: int, v2: int)
    ensures
        m1 * ((m1 - m2) * v1 + 2 * m2 * v2) + m2 * (2 * m1 * v1 - (m1 - m2) * v2) == (m1 * v1
            + m2 * v2) * (m1 + m2),
{
    assert(m1 * ((m1 - m2) * v1 + 2 * m2 * v2) == m1 * m1 * v1 - m1 * m2 * v1 + 2 * (m1 * m2
        * v2)) by (nonlinear_arith);
    assert(m2 * (2 * m1 * v1 - (m1 - m2) * v2) == 2 * (m1 * m2 * v1) - m1 * m2 * v2 + m2 * m2
        * v2) by (nonlinear_arith);
    assert((m1 * v1 + m2 * v2) * (m1 + m2) == m1 * m1 * v1 + m1 * m2 * v1 + m1 * m2 * v2 + m2
        * m2 * v2) by (nonlinear_arith);
}

/// An elastic impact between equal-mass bodies exchanges the two linear
/// velocities: each resolved numerator is the other body's incoming velocity
/// component times the common denominator.
pub proof fn lemma_equal_mass_exchange(b1: Circle, b2: Circle)
    requires
        mass(b1) == mass(b2),
    ensures
        resolved1_x_num(b1, b2) == b2.velocity.vx * mass_sum(b1, b2),
        resolved1_y_num(b1, b2) == b2.velocity.vy * mass_sum(b1, b2),
        resolved2_x_num(b1, b2) == b1.velocity.vx * mass_sum(b1, b2),
        resolved2_y_num(b1, b2) == b1.velocity.vy * mass_sum(b1, b2),
{
    let m = mass(b1);
    let v1x = b1.velocity.vx as int;
    let v2x = b2.velocity.vx as int;
    let v1y = b1.velocity.vy as int;
    let v2y = b2.velocity.vy as int;
    assert(0 * v1x + 2 * m * v2x == v2x * (m + m)) by (nonlinear_arith);
    assert(0 * v1y + 2 * m * v2y == v2y * (m + m)) by (nonlinear_arith);
    assert(2 * m * v1x - 0 * v2x == v1x * (m + m)) by (nonlinear_arith);
    assert(2 * m * v1y - 0 * v2y == v1y * (m + m)) by (nonlinear_arith);
}

} // verus!
