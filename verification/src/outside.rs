//! Types of other crates that values of this library carry.

use vstd::prelude::*;

verus! {

/// The key-length error of the `crypto_mac` crate, carried through unread.
#[verifier::external_type_specification]
#[verifier::external_body]
pub struct ExInvalidKeyLength(crypto_mac::InvalidKeyLength);

/// The header-value error of the HTTP layer, carried through unread.
#[verifier::external_type_specification]
#[verifier::external_body]
pub struct ExInvalidHeaderValue(reqwest::header::InvalidHeaderValue);

/// A value of `serde_json`, handed from the parser to the conversion.
#[verifier::external_type_specification]
#[verifier::external_body]
pub struct ExValue(serde_json::Value);

} // verus!
