//! A pair of two values of one type.

use vstd::prelude::*;

verus! {

/// Two values of the same type.
pub struct Pair<T> {
    x: T,
    y: T,
}

impl<T> Pair<T> {
    /// The first value.
    pub closed spec fn spec_x(self) -> T {
        self.x
    }

    /// The second value.
    pub closed spec fn spec_y(self) -> T {
        self.y
    }

    /// A pair from its two values.
    pub fn new(x: T, y: T) -> (p: Self)
        ensures
            p.spec_x() == x,
            p.spec_y() == y,
    {
        Self { x, y }
    }
}

} // verus!
