//! The fixed strings that cross the host boundary.

use vstd::prelude::*;

verus! {

/// Message reported when a save overwrote both files successfully.
pub open spec fn saved_message() -> Seq<char> {
    "Saved successfully"@
}

/// Message carried by the error for a missing keystore file.
pub open spec fn wallet_not_found_message() -> Seq<char> {
    "No wallet file found."@
}

/// Message carried by the error for a missing address file.
pub open spec fn address_not_found_message() -> Seq<char> {
    "No wallet address file found."@
}

/// The success message as an owned string.
pub fn saved_message_string() -> (r: String)
    ensures
        r@ == saved_message(),
{
    "Saved successfully".to_owned()
}

} // verus!
