//! Contracts for the few standard-library functions this crate calls that
//! vstd leaves unspecified. Each contract states only what the standard
//! library documents; nothing here is checked by the verifier.

use vstd::prelude::*;

verus! {

/// Relies on `String::push`: appends the given char to the end of this
/// `String`.
pub assume_specification[ String::push ](s: &mut String, ch: char)
    ensures
        final(s)@ == old(s)@.push(ch),
;

/// Relies on `String::from`: converts a `&str` into a `String` holding the
/// same characters.
pub assume_specification<'_0, 'a>[ <String as From<&'a str>>::from ](s: &'a str) -> (r: String)
    ensures
        r@ == s@,
;

/// Relies on `String::with_capacity`: creates a new empty `String` with at
/// least the given capacity.
pub assume_specification[ String::with_capacity ](capacity: usize) -> (r: String)
    ensures
        r@ == Seq::<char>::empty(),
;

/// Relies on `char::len_utf8`: the number of bytes this char needs in
/// UTF-8, which depends only on its scalar value's range.
pub assume_specification[ char::len_utf8 ](c: char) -> (n: usize)
    ensures
        n == crate::chars::utf8_width(c),
;

/// Relies on `core::mem::drop`: takes ownership of the value and disposes
/// of it.
pub assume_specification<T>[ core::mem::drop::<T> ](value: T);

} // verus!
