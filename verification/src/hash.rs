//! The hash function used for commitments and session-key derivation.

use sha2::Digest;
use vstd::prelude::*;

verus! {

/// The SHA-256 digest of a byte string.
pub uninterp spec fn sha256_of(m: Seq<u8>) -> Seq<u8>;

/// Relies on `sha2::Sha256`: the digest is a pure function of the input
/// bytes and is 32 bytes long.
#[verifier::external_body]
pub fn sha256(m: &[u8]) -> (d: Vec<u8>)
    ensures
        d@ == sha256_of(m@),
        d@.len() == 32,
{
    let mut hasher = sha2::Sha256::new();
    hasher.update(m);
    hasher.finalize().to_vec()
}

} // verus!
