//! Trusted boundary: the few outside calls the ledger relies on, each
//! behind a wrapper whose contract Verus believes.

use vstd::prelude::*;
use sha2::{Digest, Sha256};

verus! {

/// The SHA-256 digest of a byte sequence, named; no statement is made of
/// its value beyond what the wrapper below promises.
pub uninterp spec fn spec_sha256(data: Seq<u8>) -> Seq<u8>;

/// Relies on sha2's Sha256: the digest depends on the input bytes alone
/// and is always 32 bytes long.
#[verifier::external_body]
pub fn sha256_bytes(data: &Vec<u8>) -> (r: Vec<u8>)
    ensures
        r@ == spec_sha256(data@),
        r@.len() == 32,
{
    Sha256::digest(data.as_slice()).to_vec()
}

/// Relies on uuid's Uuid::new_v4 and its Display form: a random
/// identifier, rendered hyphenated as exactly 36 characters. Nothing is
/// promised of its value; two calls may differ.
#[verifier::external_body]
pub fn fresh_event_id() -> (r: String)
    ensures
        r@.len() == 36,
{
    uuid::Uuid::new_v4().to_string()
}

/// Relies on std's SystemTime::now and duration_since: seconds of Unix
/// time, or 0 for a clock set before the epoch. Nothing is promised of
/// the value; the clock is outside the model.
#[verifier::external_body]
pub fn unix_now() -> u64 {
    match std::time::SystemTime::now().duration_since(std::time::UNIX_EPOCH) {
        Ok(d) => d.as_secs(),
        Err(_) => 0,
    }
}

/// Relies on std's String::from_utf8: ASCII bytes decode to exactly
/// those characters.
#[verifier::external_body]
pub fn ascii_to_string(v: Vec<u8>) -> (r: String)
    requires
        forall|i: int| 0 <= i < v@.len() ==> v@[i] < 128,
    ensures
        r@.len() == v@.len(),
        forall|i: int| 0 <= i < v@.len() ==> r@[i] == v@[i] as char,
{
    match String::from_utf8(v) {
        Ok(s) => s,
        Err(_) => String::new(),
    }
}

} // verus!
