//! A small library of verified utilities over Rust's basic data types:
//! an extremum finder for slices, a longest-span selector for string
//! slices, a word-frequency counter, and a collection of verified
//! exercises over structs, enums, strings, vectors, maps and slices.

pub mod arrays;
pub mod chars;
pub mod context;
pub mod enums;
pub mod excerpt;
pub mod extremum;
pub mod frequency;
pub mod functions;
pub mod hashmaps;
pub mod laptop_trait;
pub mod mir;
pub mod orphan;
pub mod pair;
pub mod panics;
pub mod paths;
pub mod player;
pub mod points;
pub mod readers;
pub mod readers_multi;
pub mod readers_return;
pub mod references;
pub mod rgb;
pub mod selection;
pub mod sizes;
pub mod slices;
pub mod stdlib;
pub mod strings;
pub mod structs;
pub mod summary;
pub mod summary_default;
pub mod tuples;
pub mod underscore;
pub mod variables;
pub mod vectors;
