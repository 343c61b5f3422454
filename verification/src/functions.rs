//! Function parameters, bodies and return types.

use vstd::prelude::*;

verus! {

/// A tuple parameter destructured in the signature; only the first half
/// is kept.
pub fn function_parameter(pair: (i32, i32)) -> (r: i32)
    ensures
        r == pair.0,
{
    let (value, _) = pair;
    value
}

/// A block is an expression: its last expression is its value.
pub fn function_body() {
    let y: i32 = {
        let x: i32 = 3;
        x + 1
    };
    assert(y == 4);
}

/// A function without an output type returns the unit value.
pub fn function_return() -> () {
}

} // verus!
