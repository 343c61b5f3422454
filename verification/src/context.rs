//! A struct borrowing a string, returned with two lifetime choices.

use vstd::prelude::*;

verus! {

/// A context holding a borrowed name.
pub struct Context<'a> {
    pub name: &'a str,
}

impl<'a> Context<'a> {
    /// The name, tied to the lifetime of this borrow of the context.
    pub fn danger_mode(&self) -> (r: &str)
        ensures
            r@ == self.name@,
    {
        self.name
    }

    /// The name, tied to the longer lifetime of the underlying string.
    pub fn safety_mode(&self) -> (r: &'a str)
        ensures
            r@ == self.name@,
    {
        self.name
    }
}

} // verus!
