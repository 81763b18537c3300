//! Policies for the set types of the standard library.

pub mod btreeset;
pub mod hashset;
