//! Schema-driven validation of untyped values.
//!
//! A declarative schema is compiled once into an immutable validator tree;
//! the tree is then applied any number of times to untyped input values,
//! producing either a validated output value or a complete, location-annotated
//! list of every violation found.

pub mod errors;
pub mod laws;
pub mod schema;
pub mod validators;
pub mod value;
