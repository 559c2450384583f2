//! What a view is defined by.

use crate::query_fragment::{Query, QueryFragment};
use vstd::prelude::*;

verus! {

/// A view that the database is to hold: its name, and the select statement
/// that defines it.
pub trait ViewDefinition {
    /// The type of the statement that defines the view: one that can be
    /// walked and that has a row type.
    type Definition: QueryFragment + Query;

    /// The name of the view, the same at every call.
    fn name() -> String;

    /// The statement that defines the view.
    fn definition() -> Self::Definition;
}

} // verus!
