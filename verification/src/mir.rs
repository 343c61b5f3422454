//! The implicit scope a `let` binding opens.

use vstd::prelude::*;

verus! {

/// Two bindings; the second copies the first, and each lives to the end
/// of the enclosing block.
pub fn let_implicit_scope() {
    let v1: i32 = 1;
    let v2: i32 = v1;
    assert(v2 == 1);
}

} // verus!
