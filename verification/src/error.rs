//! The error type of the core store and sync logic.

use vstd::prelude::*;

use crate::text::owned;

verus! {

/// Failures of the core store and its sync protocol.
#[derive(Debug, Clone, PartialEq, Eq)]
pub enum CoreError {
    /// The database refused an operation (its message).
    Db(String),
    /// A JSON payload could not be read or written (its message).
    Serde(String),
    /// A stored or incoming value was malformed; names the field.
    DataFormat(String),
    /// The row with this id does not exist (or is not the caller's).
    NotFound(String),
    /// The remote provider failed (its message).
    Provider(String),
}

impl CoreError {
    /// A [`CoreError::DataFormat`] naming `field`.
    pub fn data_format(field: &str) -> (e: CoreError)
        ensures
            e matches CoreError::DataFormat(f) && f@ == field@,
    {
        CoreError::DataFormat(owned(field))
    }

    /// A [`CoreError::NotFound`] for the row `id`.
    pub fn not_found(id: &str) -> (e: CoreError)
        ensures
            e matches CoreError::NotFound(f) && f@ == id@,
    {
        CoreError::NotFound(owned(id))
    }
}

} // verus!
