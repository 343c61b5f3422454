//! Returning a value by the trait it implements.

use vstd::prelude::*;

verus! {

/// Something that can be read as text; each implementor fixes in
/// specification what its reading is.
pub trait Reader {
    /// The text this reader yields.
    spec fn spec_read(&self) -> Seq<char>;

    /// The text read.
    fn read(&self) -> (r: &str)
        ensures
            r@ == self.spec_read(),
    ;
}

/// An office: its reading is always the same word.
pub struct Office {}

impl Reader for Office {
    open spec fn spec_read(&self) -> Seq<char> {
        "rust"@
    }

    fn read(&self) -> (r: &str)
        ensures
            r@ == self.spec_read(),
    {
        "rust"
    }
}

/// Some reader; the concrete type stays hidden behind the trait, but its
/// reading is still pinned to `rust`.
pub fn return_reader() -> (r: impl Reader)
    ensures
        r.spec_read() == "rust"@,
{
    Office {  }
}

} // verus!
