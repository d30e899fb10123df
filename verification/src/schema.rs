//! The schema description: the read-only configuration a validator tree is
//! compiled from.
//!
//! A schema node carries a discriminator naming the validator kind plus the
//! kind-specific fields: an optional nested schema for list elements and
//! optional cardinality bounds. It is consumed once at build time; a built
//! validator retains only the scalar fields it extracted.

use vstd::prelude::*;

verus! {

/// One node of a schema description.
#[derive(Debug, PartialEq, Eq)]
pub struct Schema {
    /// Discriminator naming the validator kind, e.g. `"list"` or `"int"`.
    pub tag: String,
    /// Nested schema for list elements, if elements are to be validated.
    pub items: Option<Box<Schema>>,
    /// Least number of elements a valid list may have.
    pub min_items: Option<usize>,
    /// Greatest number of elements a valid list may have.
    pub max_items: Option<usize>,
}

} // verus!
