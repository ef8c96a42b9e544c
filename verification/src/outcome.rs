//! Decision rules over raw filesystem outcomes.
//!
//! The filesystem calls themselves happen outside this crate; each hands its
//! outcome in as a plain value — a write result, an existence bit, a read
//! result — and these functions turn it into the typed result of the
//! operation. Because the outcome is an argument, the rules are verified
//! for every value it can take.

use vstd::prelude::*;

use crate::error::StoreError;
use crate::messages::{address_not_found_message, saved_message, saved_message_string,
    wallet_not_found_message};

verus! {

/// Result of a full save, given the outcomes of the two writes, keystore
/// first. Propagation stops at the first failing write: a keystore failure
/// is reported before the address write is considered, and only a run in
/// which both writes succeeded reports the fixed success message.
pub fn save_outcome(
    keystore_write: Result<(), String>,
    address_write: Result<(), String>,
) -> (r: Result<String, StoreError>)
    ensures
        keystore_write is Err ==> (r is Err && r->Err_0 is Io
            && r->Err_0.message_spec() == keystore_write->Err_0@),
        keystore_write is Ok && address_write is Err ==> (r is Err && r->Err_0 is Io
            && r->Err_0.message_spec() == address_write->Err_0@),
        keystore_write is Ok && address_write is Ok ==> (r is Ok
            && r->Ok_0@ == saved_message()),
{
    match keystore_write {
        Err(e) => Err(StoreError::io(e)),
        Ok(()) => match address_write {
            Err(e) => Err(StoreError::io(e)),
            Ok(()) => Ok(saved_message_string()),
        },
    }
}

/// Result of a keystore read, given whether the file exists and, if it does,
/// what reading it returned. A missing file is the distinct not-found error,
/// never empty contents; an existing file's contents pass through unchanged,
/// and a raw read failure is reported verbatim.
pub fn read_wallet_outcome(
    file_exists: bool,
    contents: Result<String, String>,
) -> (r: Result<String, StoreError>)
    ensures
        !file_exists ==> (r is Err && r->Err_0 is NotFound
            && r->Err_0.message_spec() == wallet_not_found_message()),
        file_exists && contents is Ok ==> (r is Ok && r->Ok_0@ == contents->Ok_0@),
        file_exists && contents is Err ==> (r is Err && r->Err_0 is Io
            && r->Err_0.message_spec() == contents->Err_0@),
{
    if !file_exists {
        Err(StoreError::wallet_not_found())
    } else {
        match contents {
            Ok(s) => Ok(s),
            Err(e) => Err(StoreError::io(e)),
        }
    }
}

/// Result of an address read: the same rule as the keystore read, against
/// the address file and with its own not-found error.
pub fn read_address_outcome(
    file_exists: bool,
    contents: Result<String, String>,
) -> (r: Result<String, StoreError>)
    ensures
        !file_exists ==> (r is Err && r->Err_0 is NotFound
            && r->Err_0.message_spec() == address_not_found_message()),
        file_exists && contents is Ok ==> (r is Ok && r->Ok_0@ == contents->Ok_0@),
        file_exists && contents is Err ==> (r is Err && r->Err_0 is Io
            && r->Err_0.message_spec() == contents->Err_0@),
{
    if !file_exists {
        Err(StoreError::address_not_found())
    } else {
        match contents {
            Ok(s) => Ok(s),
            Err(e) => Err(StoreError::io(e)),
        }
    }
}

} // verus!
