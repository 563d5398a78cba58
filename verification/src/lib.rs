//! A minimal 2D rigid-body kinematics kernel for circular bodies.
//!
//! The kernel tracks linear and angular velocity and acceleration per body,
//! detects pairwise circle-circle intersection, and computes post-collision
//! velocities under a perfectly elastic collision model.
//!
//! All positions, radii and velocity components live on an integer grid whose
//! unit the caller picks (half units, tenths, ...). Every derived quantity
//! that leaves the grid -- a chord point, a speed, a resolved velocity -- is
//! returned exactly as a [`utils::scalar::Scalar`], a value of the form
//! `(num + coeff * sqrt(root)) / den`, instead of being rounded.

use vstd::prelude::*;

pub mod dynamics;
pub mod shapes;
pub mod utils;

verus! {

/// Greatest magnitude a grid coordinate, radius or velocity component may
/// have. The cap is what machine arithmetic forces: with every input bounded
/// by it, every intermediate product of the intersection solver and of the
/// collision resolution fits comfortably in an `i128`.
pub const COORD_LIMIT: i64 = 1_000_000;

} // verus!
