//! Calling along module paths: a restaurant's front and back of house.

use vstd::prelude::*;

verus! {

/// Puts a party on the waiting list.
pub fn add_to_wait_list() {
}

/// Front of house seats a guest by way of the waiting list.
pub fn eat_at_restaurant() {
    add_to_wait_list();
}

/// Sends an order out.
pub fn deliver_order() {
}

/// Prepares an order.
pub fn cook_order() {
}

/// Back of house fixes an incorrect order: cooks it again, then sends it.
pub fn fix_incorrect_order() {
    cook_order();
    deliver_order();
}

} // verus!
