//! Selecting the longer of two string slices.
//!
//! Length is measured in bytes of the underlying storage, as `str::len`
//! reports it. On equal lengths the second argument wins: the test in
//! `longest` is strict (`x.len() > y.len()`), so `y` is returned whenever
//! `x` is not strictly longer.

use vstd::prelude::*;
use vstd::string::StringSliceAdditionalSpecFns;

verus! {

/// The byte length of a string slice, as `str::len` returns it.
pub open spec fn byte_len(s: &str) -> usize {
    s.spec_bytes().len() as usize
}

/// The length of the longer input, in bytes.
pub fn no_need_lifetime_annotation(x: &str, y: &str) -> (n: usize)
    ensures
        n == if byte_len(x) > byte_len(y) {
            byte_len(x)
        } else {
            byte_len(y)
        },
{
    if x.len() > y.len() {
        x.len()
    } else {
        y.len()
    }
}

/// The longer input itself; on equal byte lengths, the second.
pub fn do_need_lifetime_annotation<'a>(x: &'a str, y: &'a str) -> (r: &'a str)
    ensures
        byte_len(x) > byte_len(y) ==> r@ == x@,
        byte_len(x) <= byte_len(y) ==> r@ == y@,
{
    if x.len() > y.len() {
        x
    } else {
        y
    }
}

/// Returns whichever of the two string slices is longer in bytes; on equal
/// lengths, the second. The result borrows from both inputs, so it lives no
/// longer than the shorter-lived of the two.
pub fn longest<'a>(x: &'a str, y: &'a str) -> (r: &'a str)
    ensures
        byte_len(x) > byte_len(y) ==> r@ == x@,
        byte_len(x) <= byte_len(y) ==> r@ == y@,
{
    if x.len() > y.len() {
        x
    } else {
        y
    }
}

/// The longer of two text spans, byte-measured, ties resolved in favour of
/// the second argument.
pub fn select_longer<'a>(span_a: &'a str, span_b: &'a str) -> (r: &'a str)
    ensures
        byte_len(span_a) > byte_len(span_b) ==> r@ == span_a@,
        byte_len(span_a) <= byte_len(span_b) ==> r@ == span_b@,
{
    longest(span_a, span_b)
}

} // verus!
