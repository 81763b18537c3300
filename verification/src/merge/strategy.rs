//! Named merge policies.
//!
//! A type has one [`Merge`](crate::merge::Merge) implementation, but a
//! configuration often needs several policies for one type: one string field
//! is concatenated, another is only filled in when it is empty. Each policy is
//! a plain function `fn(&mut T, T)`, grouped here by the type it works on.

pub mod bool;
pub mod float;
pub mod maps;
pub mod sets;
pub mod string;
pub mod vec;
