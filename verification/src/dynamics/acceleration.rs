use vstd::prelude::*;

verus! {

/// The kinematic acceleration of a body: a 2D linear component on the
/// coordinate grid and a scalar angular component. Structurally it mirrors
/// `Velocity`, but the two are never interchanged.
#[derive(Clone, Copy, Debug, PartialEq, Eq, Structural)]
pub struct Acceleration {
    pub ax: i64,
    pub ay: i64,
    pub aangular: i64,
}

impl Acceleration {
    pub fn new(ax: i64, ay: i64, aangular: i64) -> (r: Acceleration)
        ensures
            r == (Acceleration { ax, ay, aangular }),
    {
        Acceleration { ax, ay, aangular }
    }

    pub fn get_linear_acceleration(&self) -> (r: (i64, i64))
        ensures
            r.0 == self.ax,
            r.1 == self.ay,
    {
        (self.ax, self.ay)
    }

    pub fn get_angular_acceleration(&self) -> (r: i64)
        ensures
            r == self.aangular,
    {
        self.aangular
    }
}

} // verus!
