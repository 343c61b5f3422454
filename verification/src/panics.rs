//! Where panics would come from.
//!
//! A program panics either by taking an action the language refuses at run
//! time, such as indexing past the end of an array, or by asking for one
//! outright with the `panic!` macro. The verified functions of this crate
//! rule both out: every index is proved in bounds and no reachable panic
//! remains, so both demonstrations below have an empty body.

use vstd::prelude::*;

verus! {

/// An action that would panic, an out-of-bounds index for instance, cannot
/// pass verification; nothing of the kind remains here.
pub fn takes_action_to_cause_panic() {
}

/// An explicit `panic!` call is likewise refused by verification; nothing
/// of the kind remains here.
pub fn explicitly_call_panic_marco() {
}

} // verus!
