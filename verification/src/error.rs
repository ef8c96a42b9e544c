//! The error taxonomy of the store and its flattening to the string-only
//! channel that the host boundary carries.

use vstd::prelude::*;

use crate::messages::{address_not_found_message, wallet_not_found_message};

verus! {

/// A failure reported by a store operation.
///
/// A missing file is kept distinct from every other filesystem failure, so
/// that a caller can tell "not initialized yet" from a real fault. Both
/// variants carry the human-readable description that is handed to the host
/// once the result reaches the boundary.
#[derive(Debug)]
pub enum StoreError {
    /// The requested file does not exist.
    NotFound { message: String },
    /// Any other filesystem failure, described verbatim.
    Io { message: String },
}

impl StoreError {
    /// The descriptive message of either variant.
    pub open spec fn message_spec(self) -> Seq<char> {
        match self {
            StoreError::NotFound { message } => message@,
            StoreError::Io { message } => message@,
        }
    }

    /// True exactly on the `NotFound` variant.
    pub fn is_not_found(&self) -> (r: bool)
        ensures
            r == (self is NotFound),
    {
        match self {
            StoreError::NotFound { .. } => true,
            StoreError::Io { .. } => false,
        }
    }

    /// The flat descriptive string that crosses the host boundary.
    pub fn into_message(self) -> (r: String)
        ensures
            r@ == self.message_spec(),
    {
        match self {
            StoreError::NotFound { message } => message,
            StoreError::Io { message } => message,
        }
    }

    /// The error for a keystore file that does not exist.
    pub fn wallet_not_found() -> (r: StoreError)
        ensures
            r is NotFound,
            r.message_spec() == wallet_not_found_message(),
    {
        StoreError::NotFound { message: "No wallet file found.".to_owned() }
    }

    /// The error for an address file that does not exist.
    pub fn address_not_found() -> (r: StoreError)
        ensures
            r is NotFound,
            r.message_spec() == address_not_found_message(),
    {
        StoreError::NotFound { message: "No wallet address file found.".to_owned() }
    }

    /// An error wrapping a raw filesystem failure description.
    pub fn io(message: String) -> (r: StoreError)
        ensures
            r is Io,
            r.message_spec() == message@,
    {
        StoreError::Io { message }
    }
}

/// Flattens a typed result into the success-or-message shape that the host
/// convention transmits: contents pass through, errors become their message.
pub fn to_boundary(r: Result<String, StoreError>) -> (b: Result<String, String>)
    ensures
        r matches Ok(s) ==> (b matches Ok(out) && out@ == s@),
        r matches Err(e) ==> (b matches Err(m) && m@ == e.message_spec()),
{
    match r {
        Ok(s) => Ok(s),
        Err(e) => Err(e.into_message()),
    }
}

} // verus!
