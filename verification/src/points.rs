//! A generic point with independently typed axes.

use vstd::prelude::*;

verus! {

/// A pair of coordinates whose two axes may have different types.
#[derive(Debug)]
pub struct Point<T, U> {
    x: T,
    y: U,
}

impl<T, U> Point<T, U> {
    /// The first coordinate.
    pub closed spec fn spec_x(self) -> T {
        self.x
    }

    /// The second coordinate.
    pub closed spec fn spec_y(self) -> U {
        self.y
    }

    /// A point from its two coordinates.
    pub fn new(x: T, y: U) -> (p: Point<T, U>)
        ensures
            p.spec_x() == x,
            p.spec_y() == y,
    {
        Point { x, y }
    }

    /// As `new`, written with the `Self` alias.
    pub fn from(x: T, y: U) -> (p: Self)
        ensures
            p.spec_x() == x,
            p.spec_y() == y,
    {
        Self { x, y }
    }

    /// Consumes the point and hands both coordinates back.
    pub fn moving(self) -> (r: (T, U))
        ensures
            r.0 == self.spec_x(),
            r.1 == self.spec_y(),
    {
        (self.x, self.y)
    }

    /// Borrows both coordinates.
    pub fn borrow(&self) -> (r: (&T, &U))
        ensures
            *r.0 == self.spec_x(),
            *r.1 == self.spec_y(),
    {
        (&self.x, &self.y)
    }
}

impl<X1, Y1> Point<X1, Y1> {
    /// A point made of this point's first coordinate and another point's
    /// second coordinate.
    pub fn mix_up<X2, Y2>(self, other: Point<X2, Y2>) -> (p: Point<X1, Y2>)
        ensures
            p.spec_x() == self.spec_x(),
            p.spec_y() == other.spec_y(),
    {
        Point { x: self.x, y: other.y }
    }
}

} // verus!
