//! Several trait bounds on one parameter, three ways to write them.

use std::fmt::Debug;
use std::fmt::Display;
use vstd::prelude::*;

verus! {

/// Something that can be read as text.
pub trait Reader {
    /// The text read.
    fn read(&self) -> &str;
}

/// Two bounds with the `impl Trait` syntax.
pub fn simple_way(r: &(impl Reader + Display)) {
    let _text = r.read();
}

/// Two bounds on a named type parameter.
pub fn better_way<T: Reader + Display>(r: &T) {
    let _text = r.read();
}

/// Two bounds moved into a `where` clause.
pub fn where_clause<T>(r: &T) where T: Reader + Display {
    let _text = r.read();
}

/// Bounds on two parameters, in a `where` clause.
pub fn some_<T, U>(_t: &T, _u: &U) where T: Display + Clone, U: Clone + Debug {
}

} // verus!
