//! A trait taken as an `impl Trait` parameter.

use vstd::prelude::*;

verus! {

/// A machine that can state its model name.
pub trait Laptop {
    /// The model name.
    fn name(&self) -> &str;
}

/// A laptop of one make.
pub struct Apple {
    name: String,
}

impl Apple {
    /// An `Apple` with the given model name.
    pub fn new(name: String) -> Apple {
        Apple { name }
    }
}

impl Laptop for Apple {
    fn name(&self) -> &str {
        self.name.as_str()
    }
}

/// Asks any laptop for its name.
pub fn notify(laptop: &impl Laptop) {
    let _name = laptop.name();
}

} // verus!
