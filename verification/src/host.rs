//! What the library takes from the NEAR SDK. Nothing here is proved: each
//! contract restates what the SDK's source shows.

use vstd::prelude::*;

verus! {

/// Whether the NEAR SDK accepts a string as an account identifier: the answer
/// of `near_sdk::env::is_valid_account_id` on the string's bytes.
pub uninterp spec fn valid_account_id(id: Seq<char>) -> bool;

/// Asks `near_sdk::env::is_valid_account_id` about the bytes of `id`.
///
/// Trusted: the answer depends on the bytes alone, and the SDK accepts only
/// identifiers of 2 to 64 bytes, all of them ASCII, so an accepted string
/// has as many characters as bytes.
#[verifier::external_body]
pub(crate) fn is_valid_account_id(id: &str) -> (valid: bool)
    ensures
        valid == valid_account_id(id@),
        valid ==> 2 <= id@.len() <= 64,
{
    near_sdk::env::is_valid_account_id(id.as_bytes())
}

} // verus!
