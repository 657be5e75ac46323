//! Protocol failure taxonomy.
//!
//! A failed verification aborts the handshake for that client id and never
//! yields a usable session key.

use vstd::prelude::*;

verus! {

/// Why a round was aborted.
#[derive(Clone, Copy, Debug, PartialEq, Eq, Structural)]
pub enum ProtocolError {
    /// A received message's signature did not verify: the broadcast is not
    /// authentic or was tampered with.
    SignatureInvalid,
    /// The server's per-recipient ciphertexts are not a uniform encryption
    /// of one nonce, breaking anonymity.
    ConsistencyFailure,
    /// A claimed opening does not match the earlier commitment.
    CommitmentInvalid,
    /// A primitive failed: encryption or decryption error, or malformed
    /// material.
    PrimitiveFailure,
}

} // verus!
