//! Policies for the map types of the standard library.

pub mod btreemap;
pub mod hashmap;
