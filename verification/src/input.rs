//! The directional pad as the game reads it: one three-way value per axis.

use vstd::prelude::*;

verus! {

/// What one axis of the directional pad reads: towards the origin, at rest,
/// or away from the origin.
#[derive(Clone, Copy, Debug, PartialEq, Eq, Structural)]
pub enum Tri {
    /// Left or up.
    Negative,
    /// Unpressed.
    Zero,
    /// Right or down.
    Positive,
}

impl Tri {
    /// The reading as a number: -1, 0 or +1.
    pub open spec fn sign(self) -> int {
        match self {
            Tri::Negative => -1,
            Tri::Zero => 0,
            Tri::Positive => 1,
        }
    }

    /// The reading as a number: -1, 0 or +1.
    pub fn value(self) -> (r: i32)
        ensures
            r == self.sign(),
    {
        match self {
            Tri::Negative => -1,
            Tri::Zero => 0,
            Tri::Positive => 1,
        }
    }
}

} // verus!
