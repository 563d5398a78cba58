use vstd::prelude::*;

verus! {

/// An exact scalar of the form `(num + coeff * sqrt(root)) / den`.
///
/// The kernel computes on an integer coordinate grid, but its derived
/// quantities -- distances, chord offsets, resolved velocities -- are
/// generally not grid values. They are handed out exactly in this form
/// rather than rounded. `den` is positive in every value the kernel builds.
///
/// When `root` is negative the value is not a real number: the geometric
/// query that produced it was degenerate (for instance one circle lying deep
/// inside the other), and a consumer should treat the value as "no meaningful
/// result" -- for example map it to NaN when converting to floating point.
#[derive(Clone, Copy, Debug, PartialEq, Eq, Structural)]
pub struct Scalar {
    pub num: i128,
    pub coeff: i128,
    pub root: i128,
    pub den: i128,
}

/// `s` represents exactly `(num + coeff * sqrt(root)) / den`.
pub open spec fn scalar_is(s: Scalar, num: int, coeff: int, root: int, den: int) -> bool {
    &&& s.num as int == num
    &&& s.coeff as int == coeff
    &&& s.root as int == root
    &&& s.den as int == den
}

impl Scalar {
    /// The scalar is a plain rational number: no irrational part.
    pub open spec fn is_rational(self) -> bool {
        self.coeff == 0 && self.root == 0
    }

    /// The denominator is positive, as in every value the kernel builds.
    pub open spec fn wf(self) -> bool {
        self.den > 0
    }

    /// Embeds a grid value exactly.
    pub fn from_int(n: i64) -> (r: Scalar)
        ensures
            scalar_is(r, n as int, 0, 0, 1),
            r.is_rational(),
            r.wf(),
    {
        Scalar { num: n as i128, coeff: 0, root: 0, den: 1 }
    }
}

/// The square of an integer.
pub open spec fn sq(x: int) -> int {
    x * x
}

/// A square grows with the magnitude of its argument.
pub proof fn lemma_sq_bound(x: int, b: int) by (nonlinear_arith)
    requires
        -b <= x <= b,
    ensures
        0 <= sq(x) <= sq(b),
{
}

/// A product is bounded by the product of the operand bounds.
pub proof fn lemma_mul_bound(x: int, y: int, bx: int, by: int) by (nonlinear_arith)
    requires
        -bx <= x <= bx,
        -by <= y <= by,
    ensures
        -(bx * by) <= x * y <= bx * by,
{
}

} // verus!
