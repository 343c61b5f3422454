//! Struct sizes, reported for single-field structs of each width.
//!
//! The verifier's layout model leaves these sizes abstract, so each
//! function only ties its result to `core::mem::size_of`; the concrete
//! values are checked by the test suite at run time.

use vstd::prelude::*;

verus! {

struct OneBytes {
    f: i8,
}

/// The size of a struct holding one `i8`.
pub fn size_of_struct_in_one_bytes() -> (n: usize)
    ensures
        n == vstd::layout::size_of::<OneBytes>(),
{
    core::mem::size_of::<OneBytes>()
}

struct TwoBytes {
    f: i16,
}

/// The size of a struct holding one `i16`.
pub fn size_of_struct_in_two_bytes() -> (n: usize)
    ensures
        n == vstd::layout::size_of::<TwoBytes>(),
{
    core::mem::size_of::<TwoBytes>()
}

struct FourBytes {
    f: char,
}

/// The size of a struct holding one `char`.
pub fn size_of_struct_in_four_bytes() -> (n: usize)
    ensures
        n == vstd::layout::size_of::<FourBytes>(),
{
    core::mem::size_of::<FourBytes>()
}

struct EightBytes {
    f: i64,
}

/// The size of a struct holding one `i64`.
pub fn size_of_struct_in_eight_bytes() -> (n: usize)
    ensures
        n == vstd::layout::size_of::<EightBytes>(),
{
    core::mem::size_of::<EightBytes>()
}

struct TwentyFourBytes {
    f: String,
}

/// The size of a struct holding one `String`: its pointer, capacity and
/// length words.
pub fn size_of_struct_in_twenty_four_bytes() -> (n: usize)
    ensures
        n == vstd::layout::size_of::<TwentyFourBytes>(),
{
    core::mem::size_of::<TwentyFourBytes>()
}

} // verus!
