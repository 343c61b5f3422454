//! Creating, updating, reading and consuming vectors.

use vstd::prelude::*;

verus! {

/// An empty vector, then one grown by a push.
pub fn with_new() {
    let iv: Vec<&str> = Vec::new();
    assert(iv@.len() == 0);

    let mut mv: Vec<&str> = Vec::new();
    mv.push("rust");
    assert(mv@.len() == 1);
}

/// A vector with room reserved up front is still empty.
pub fn with_capacity() {
    let iv: Vec<&str> = Vec::with_capacity(0);
    assert(iv@.len() == 0);

    let mut mv: Vec<&str> = Vec::with_capacity(10);
    mv.push("rust");
    assert(mv@.len() == 1);
}

/// The `vec!` macro builds a vector from listed elements.
pub fn with_marco() {
    let iv: Vec<&str> = vec![];
    assert(iv@.len() == 0);

    let mut mv: Vec<&str> = vec!["c++"];
    mv.push("rust");
    assert(mv@.len() == 2);
}

/// Pushing appends at the end.
pub fn push() {
    let mut v: Vec<i8> = vec![];
    v.push(1);
    assert(v@ =~= seq![1i8]);
}

/// Popping removes from the end until the vector is empty; popping an
/// empty vector yields nothing.
pub fn pop() {
    let mut v: Vec<i8> = vec![1, 3, 5, 7, 9];
    while v.len() > 0
        decreases v@.len(),
    {
        let _x = v.pop();
    }
    let nothing = v.pop();
    assert(nothing is None);
}

/// Reading by index, as a value and through a reference.
pub fn with_index() {
    let v: Vec<i8> = vec![1, 2, 3];
    let first_value: i8 = v[0];
    assert(first_value == 1);

    let first_ref: &i8 = &v[0];
    assert(*first_ref == 1);
}

/// `get` answers with a reference for an index in bounds and `None` for
/// one past the end, where indexing would panic.
pub fn with_get() {
    let v: Vec<i32> = vec![1, 2, 3, 4, 5];

    let first_value: Option<&i32> = v.get(0);
    assert(first_value == Some(&v[0]));

    let not_exist_value: Option<&i32> = v.get(100);
    assert(not_exist_value is None);

    let w: Vec<&str> = vec!["c", "c++", "rust"];
    match w.get(2) {
        Some(r) => assert((*r)@ == "rust"@),
        None => assert(false),
    }
}

/// Dropping a vector by hand ends its life early.
pub fn explicit_call() {
    let v: Vec<i8> = vec![1, 2, 3];
    core::mem::drop(v);
}

/// A cell of a spreadsheet row: a number or a text.
pub enum SpreadsheetCell {
    Int(i32),
    Text(String),
}

/// One vector may hold differently shaped data through an enum.
pub fn spread_sheet_cell() {
    let row = vec![SpreadsheetCell::Int(3), SpreadsheetCell::Text(String::from("blue"))];
    assert(row@.len() == 2);
}

/// A `for` loop over the vector itself moves it; it cannot be used
/// afterwards.
pub fn iter_vector() {
    let v: Vec<i32> = vec![1, 2, 3];
    for _x in v {
    }
}

/// Iterating borrows each element; iterating by value moves each out.
pub fn read() {
    let v: Vec<i8> = vec![1, 2, 3, 4, 5];

    for x in v.iter() {
        let _borrowed: &i8 = x;
    }

    for x in v {
        let _value: i8 = x;
    }
}

} // verus!
