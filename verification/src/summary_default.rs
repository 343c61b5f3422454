//! A trait with a default method, kept by one type and overridden by
//! another.

use vstd::prelude::*;

verus! {

/// Content that can describe itself, with a stock description for types
/// that provide none of their own.
pub trait Summary {
    /// A one-line description; the default is `(Read more...)`.
    fn summarize(&self) -> (r: String)
        default_ensures
            r@ == "(Read more...)"@,
    {
        String::from("(Read more...)")
    }
}

/// Keeps the default description.
pub struct Facebook {}

impl Summary for Facebook {

}

/// Overrides the default description.
pub struct Tweet {}

impl Summary for Tweet {
    fn summarize(&self) -> (r: String)
        ensures
            r@ == "override default behavior"@,
    {
        String::from("override default behavior")
    }
}

} // verus!
