//! Matching a single enum variant with `if let` and a catch-all arm.

use vstd::prelude::*;

verus! {

/// How bright a red light shines.
#[derive(Debug)]
pub enum Brightness {
    Dark,
    Light,
}

/// A colour; red carries its brightness.
#[derive(Debug)]
pub enum RGB {
    Red(Brightness),
    Green,
    Blue,
}

/// Whether a colour is red, of any brightness.
pub open spec fn is_red(color: RGB) -> bool {
    match color {
        RGB::Red(_) => true,
        _ => false,
    }
}

/// Zero for red of any brightness, one for everything else.
pub fn red_revolution(color: RGB) -> (r: u8)
    ensures
        r == if is_red(color) {
            0u8
        } else {
            1u8
        },
{
    if let RGB::Red(_v) = color {
        0
    } else {
        1
    }
}

/// The same classification written with a match whose catch-all arm
/// handles every colour that is not red.
pub fn catch_all_with_placeholder(color: RGB) -> (r: u8)
    ensures
        r == if is_red(color) {
            0u8
        } else {
            1u8
        },
{
    match color {
        RGB::Red(_) => 0,
        _ => 1,
    }
}

} // verus!
