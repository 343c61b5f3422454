//! Defining, instantiating and updating structs.

use vstd::prelude::*;

verus! {

/// A laptop with a model name and a screen size in inches.
pub struct Laptop {
    pub name: String,
    pub size: usize,
}

impl Laptop {
    /// The screen size.
    pub fn size(&self) -> (s: usize)
        ensures
            s == self.size,
    {
        self.size
    }

    /// Replaces the screen size, leaving the name unchanged.
    pub fn alter_size(&mut self, new_size: usize)
        ensures
            final(self).size == new_size,
            final(self).name == old(self).name,
    {
        self.size = new_size;
    }
}

/// Builds a struct by naming every field.
pub fn instantiating_structs() {
    let _laptop = Laptop { name: String::from("mac"), size: 13 };
}

/// Reads a field of a freshly built struct.
pub fn read_structs_filed() {
    let laptop = Laptop { name: String::from("mac"), size: 13 };
    let name = laptop.name;
    assert(name@ == "mac"@);
}

/// Writes a field of a mutable struct.
pub fn write_structs_filed() {
    let mut laptop = Laptop { name: String::from("mac"), size: 13 };
    laptop.size = 16;
    assert(laptop.size == 16);
}

/// Field init shorthand: a parameter with the field's name fills it.
pub fn short_hand_for_parameter(name: String) -> (laptop: Laptop)
    ensures
        laptop.name == name,
        laptop.size == 13,
{
    Laptop { name, size: 13 }
}

/// Struct update syntax: `..` carries the remaining fields over.
pub fn create_new_instance_with_struct_update_syntax() {
    let laptop = Laptop { name: String::from("mac"), size: 13 };
    let new_laptop = Laptop { size: 16, ..laptop };
    assert(new_laptop.name@ == "mac"@);
    assert(new_laptop.size == 16);
}

/// A colour as three channels, named only by position.
pub struct Color(pub i32, pub i32, pub i32);

/// A position as three coordinates; a distinct type from `Color` even
/// though the fields line up.
pub struct Point(pub i32, pub i32, pub i32);

/// Builds tuple structs.
pub fn instantiating_tuple_structs() {
    let _white = Color(255, 255, 255);
    let _origin = Point(0, 0, 0);
}

/// Reads tuple struct fields by position.
pub fn read_tuple_structs_field() {
    let white = Color(255, 255, 255);
    assert(white.0 == 255);
    assert(white.1 == 255);
    assert(white.2 == 255);
}

} // verus!
