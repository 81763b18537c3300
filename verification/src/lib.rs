//! Application configuration, piece by piece:
//!
//! - [`merge`]: deep merging of two configurations of the same shape, with
//!   the [`Merge`](merge::Merge) trait and named policies per type;
//! - [`derive`]: deriving `Merge` for a struct, field by field;
//! - [`env`]: values from the text of environment variables;
//! - [`util`]: small helpers.

pub mod derive;
pub mod env;
pub mod merge;
pub mod util;
