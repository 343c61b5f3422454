//! A struct holding a borrowed part of a longer-lived text.

use vstd::prelude::*;
use vstd::string::StrSliceExecFns;

verus! {

/// An excerpt borrowing part of a novel; it cannot outlive the borrowed
/// text.
pub struct ImportantExcerpt<'a> {
    pub part: &'a str,
}

impl<'a> ImportantExcerpt<'a> {
    /// The excerpt's level; not a reference, so no lifetime ties it to the
    /// excerpt.
    pub fn level(&self) -> (r: i32)
        ensures
            r == 0,
    {
        0
    }
}

/// A selection that always returns its first argument: only that
/// argument's lifetime constrains the result, so the second needs no
/// lifetime annotation at all.
pub fn longest<'a>(x: &'a str, _y: &str) -> (r: &'a str)
    ensures
        r@ == x@,
{
    x
}

/// An excerpt built inside an inner scope may not be read once the text
/// it borrows from is gone; here it is never read again, so the borrow
/// checker accepts it.
pub fn error_nth1() {
    let _ie: ImportantExcerpt;
    {
        let novel: String = String::from("rust will be the best language in the future.");
        proof {
            reveal_strlit("rust will be the best language in the future.");
        }
        _ie = ImportantExcerpt { part: novel.as_str().substring_char(0, 4) };
    }
}

} // verus!
