//! Trait bounds: `impl Trait` sugar and the equivalent generic form.

use vstd::prelude::*;

verus! {

/// Something that can be read as text.
pub trait Reader {
    /// The text read.
    fn read(&self) -> &str;
}

/// Reads from one reader, through a generic bound.
pub fn request<T: Reader>(r: &T) {
    let _text = r.read();
}

/// Reads from two readers that may have different types.
pub fn simple_way(r1: &impl Reader, r2: &impl Reader) {
    let _t1 = r1.read();
    let _t2 = r2.read();
}

/// Reads from two readers constrained to one type.
pub fn better_way<T: Reader>(r1: &T, r2: &T) {
    let _t1 = r1.read();
    let _t2 = r2.read();
}

} // verus!
