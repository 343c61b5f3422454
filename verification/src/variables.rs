//! Bindings: immutability, mutation, annotations and shadowing.

use vstd::prelude::*;
use vstd::string::StringSliceAdditionalSpecFns;

verus! {

/// Four hours, in seconds.
pub const FOUR_HOURS_IN_SECONDS: u32 = 60 * 60 * 4;

/// A binding is immutable unless declared otherwise.
pub fn immutable_variable() {
    let x: i32 = 1;
    assert(x == 1);
}

/// `mut` lets a binding be assigned again.
pub fn mutable_variable() {
    let mut x: i32 = 1;
    x = 2;
    assert(x == 2);
}

/// A leading underscore silences the unused-binding warning.
pub fn unused_variable() {
    let _x: i32 = 1;
}

/// A type annotation fixes the type of the value.
pub fn type_annotation_for_variable() {
    let _i: u8 = 1;
    let _n: i64 = 12;
}

/// Shadowing reuses a name for a new binding, possibly of another type.
pub fn variable_shadowing() {
    let x: i32 = 5;
    let x: i32 = x + 1;
    {
        let x: i32 = x * 2;
        assert(x == 12);
    }
    assert(x == 6);

    let spaces: &str = "    ";
    proof {
        reveal_strlit("    ");
        broadcast use vstd::string::is_ascii_spec_bytes;

        assert(vstd::string::is_ascii(spaces));
    }
    let spaces: usize = spaces.len();
    assert(spaces == 4);
}

} // verus!
