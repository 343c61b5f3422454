//! Creating, updating, querying and emptying hash maps.

use std::collections::HashMap;
use vstd::prelude::*;

verus! {

broadcast use vstd::std_specs::hash::group_hash_axioms;

/// An empty map, which allocates nothing until first use.
pub fn with_new() {
    let map: HashMap<u8, String> = HashMap::new();
    assert(map@ == Map::<u8, String>::empty());
}

/// Relies on `HashMap::from`: builds a map holding the listed pairs.
#[verifier::external_body]
pub fn with_from() {
    let _map: HashMap<&str, bool> = HashMap::from([("rust", true), ("c++", false)]);
}

/// Relies on `Into::into` for arrays of pairs: builds a map holding the
/// listed pairs.
#[verifier::external_body]
pub fn with_into() {
    let _map: HashMap<&str, i32> = [("rust", 2), ("c++", 4)].into();
}

/// An empty map that can hold at least the given number of elements
/// before reallocating.
pub fn with_capacity() {
    let map: HashMap<String, bool> = HashMap::with_capacity(10);
    assert(map@ == Map::<String, bool>::empty());
}

/// Inserting returns the previous value for the key: `None` the first
/// time, the replaced value afterwards.
pub fn insert() {
    let mut map: HashMap<u32, i8> = HashMap::new();
    let first = map.insert(1, 1);
    assert(first is None);
    let second = map.insert(1, 2);
    assert(second == Some(1i8));
    assert(map@[1] == 2);
}

/// `entry().or_insert()` writes only when the key is absent: the existing
/// value stays.
pub fn entry_to_insert() {
    let mut map: HashMap<u32, u8> = HashMap::new();
    map.entry(1).or_insert(1);
    assert(map@[1] == 1);
    map.entry(1).or_insert(2);
    assert(map@[1] == 1);
}

/// Removing returns the value that was under the key, once.
pub fn remove() {
    let mut map: HashMap<i32, &str> = HashMap::new();
    map.insert(1, "a");
    let taken = map.remove(&1);
    assert(taken == Some("a"));
    let again = map.remove(&1);
    assert(again is None);
}

/// A fresh map has no elements.
pub fn len() {
    let map: HashMap<i32, &str> = HashMap::new();
    let n = map.len();
    assert(n == 0);
}

/// Relies on `HashMap::capacity`: how many elements the map can hold
/// without reallocating; the standard library promises nothing about the
/// exact number.
#[verifier::external_body]
fn map_capacity(map: &HashMap<i32, &str>) -> usize {
    map.capacity()
}

/// Reads the capacity of a fresh map and discards it.
pub fn capacity() {
    let map: HashMap<i32, &str> = HashMap::new();
    let _cap = map_capacity(&map);
}

/// A key is contained exactly after it was inserted.
pub fn contains_key() {
    let mut map: HashMap<i32, &str> = HashMap::new();
    map.insert(1, "rust");
    let b = map.contains_key(&1);
    assert(b);
}

/// Getting a present key yields its value.
pub fn get() {
    let mut map: HashMap<i32, &str> = HashMap::new();
    map.insert(1, "rust");
    match map.get(&1) {
        Some(v) => assert((*v)@ == "rust"@),
        None => assert(false),
    }
}

/// Owned keys and values move into the map, which owns them from then on.
pub fn demonstrated() {
    let field_name: String = String::from("Favorite color");
    let field_value: String = String::from("Blue");

    let mut map: HashMap<String, String> = HashMap::new();
    map.insert(field_name, field_value);
}

} // verus!
