//! Reading tuple elements by position.

use vstd::prelude::*;

verus! {

/// Reads each element of a three-element tuple by its index.
pub fn access_tuple_element() {
    let x: (i32, i64, u8) = (500, 64, 1);

    let five_hundred = x.0;
    assert(five_hundred == 500);

    let sixty_four = x.1;
    assert(sixty_four == 64);

    let one = x.2;
    assert(one == 1);
}

} // verus!
