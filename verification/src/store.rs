//! What the service tells apart when the database fails.
use vstd::prelude::*;

verus! {

/// A failure of the database.
#[derive(Debug, Clone, Copy, PartialEq, Eq, Structural)]
pub enum StoreError {
    /// No row was found.
    NotFound,
    /// A row with the same unique value is there already.
    UniqueViolation,
    /// A row refers to another that is not there.
    ForeignKeyViolation,
    /// Anything else.
    Other,
}

} // verus!
