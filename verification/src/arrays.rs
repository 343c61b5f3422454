//! Reading array elements, by index and through `get`.

use vstd::prelude::*;

verus! {

/// Indexing panics past the end, so every index here is proved in
/// bounds; `get` answers with `None` instead.
pub fn access_array_element() {
    let array: [i8; 5] = [1, 3, 5, 7, 9];
    let first = array[0];
    assert(first == 1);

    let chars: [char; 2] = ['中', '_'];
    let head = chars[0];
    assert(head == '中');

    let safe: [i8; 5] = [0, 2, 4, 6, 8];
    let got = safe.get(0);
    assert(got == Some(&safe[0]));
    let missing = safe.get(10);
    assert(missing is None);
}

} // verus!
