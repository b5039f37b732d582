//! Errors of the highlight store.
use vstd::prelude::*;

verus! {

/// Why the highlight store failed.
#[derive(Debug, Clone, PartialEq, Eq)]
pub enum DbError {
    /// The database could not be opened; the text is the store's message.
    ConnectionFailed(String),
    /// A statement failed; the text is the store's message.
    QueryFailed(String),
}

} // verus!
