//! Borrowing: reading through a shared reference, and the scopes of
//! mutable borrows.

use vstd::prelude::*;

verus! {

/// The byte length of a string read through a shared borrow; the string
/// itself stays with the caller.
pub fn string_length(s: &String) -> (n: usize)
    ensures
        n == vstd::utf8::encode_utf8(s@).len() as usize,
{
    s.as_str().len()
}

/// Shared and mutable borrows may be declared side by side as long as
/// their uses never overlap.
pub fn weak_restriction() {
    let mut s = String::from("rust");
    let _r0: &String = &s;
    let _r1: &mut String = &mut s;
    let _r2: &mut String = &mut s;
    let _r3: &String = &s;
}

} // verus!
