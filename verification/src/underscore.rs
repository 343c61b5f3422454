//! Discarding values with the underscore pattern.

use vstd::prelude::*;

verus! {

/// A fixed surname-first pair of names.
pub fn surname() -> (r: (&'static str, &'static str))
    ensures
        r.0@ == "jordan"@,
        r.1@ == "michael"@,
{
    ("jordan", "michael")
}

/// Ignoring a value outright, and ignoring one half of a returned pair.
pub fn applications() {
    let _ = "rust";

    let (_, name) = surname();
    assert(name@ == "michael"@);
}

} // verus!
