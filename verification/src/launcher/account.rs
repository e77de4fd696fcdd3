//! The tokens of a signed-in account that the game needs.

use vstd::prelude::*;

verus! {

/// The access token of an account and its validity period.
#[derive(Debug)]
pub struct Account {
    pub access_token: String,
    pub access_token_timestamp: String,
    pub access_token_expiration: String,
}

} // verus!
