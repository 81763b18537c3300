//! Deriving [`Merge`](crate::merge::Merge) for a struct.
//!
//! The derivation looks at a struct once, field by field in the order of
//! declaration, and writes one statement per field into the body of `merge`:
//! a call of the field type's own `merge`, a call of the function that the
//! field names with `#[merge(strategy = path)]`, or nothing at all for a
//! field marked `#[merge(skip)]`. Enums and unions are turned down.
//!
//! The struct comes in as a [`DeriveInput`](input::DeriveInput), a plain
//! description of what a parser of Rust source found; what goes out is an
//! [`Expansion`](expand::Expansion), which [renders](expand::Expansion::render)
//! as the source of the `impl` block, or an [`Error`](error::Error) that says
//! what is wrong and where.
//!
//! Whether the value of `strategy` or `crate` is a path is asked of a parser
//! of Rust source. Nothing is taken for granted of what it says: what the
//! derivation gives is stated over its [answers](answers) as they came, and
//! where no value has to be a path it is fixed by the struct alone.

pub mod answers;
pub mod container;
pub mod effect;
pub mod emit;
pub mod error;
pub mod expand;
pub mod field;
pub mod input;
pub mod path;
