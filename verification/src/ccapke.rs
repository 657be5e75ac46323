//! Randomized public-key encryption for the final opening message.
//!
//! The round-5 client-to-server message does not need to be reproducible, so
//! it uses standard CCA-secure encryption with fresh randomness.
//!
//! The contracts in this module describe the `ecies` crate under its
//! default configuration. That crate keeps a process-global configuration
//! (ephemeral-key compression and nonce layout); nothing in this library
//! rewrites it, and code that did so elsewhere in the process would change
//! the key and ciphertext formats these wrappers rely on.

use vstd::prelude::*;

use crate::utils::opt_bytes;

verus! {

/// The serialized public key that the underlying scheme derives from a
/// serialized secret key.
pub uninterp spec fn cca_keypair_pub_of(sk: Seq<u8>) -> Seq<u8>;

/// The outcome of the underlying decryption for a serialized secret key and
/// a ciphertext: the plaintext, or `None` where decryption fails.
pub uninterp spec fn cca_plain_of(sk: Seq<u8>, ct: Seq<u8>) -> Option<Seq<u8>>;

/// Relies on `ecies::utils::generate_keypair` (secp256k1, OS RNG): the
/// public key is the one derived from the secret key; the serializations are
/// 65 and 32 bytes.
#[verifier::external_body]
pub fn ccapke_gen() -> (r: (Vec<u8>, Vec<u8>))
    ensures
        r.0@ == cca_keypair_pub_of(r.1@),
        r.0@.len() == 65,
        r.1@.len() == 32,
{
    let (sk, pk) = ecies::utils::generate_keypair();
    (pk.serialize().to_vec(), sk.serialize().to_vec())
}

/// Relies on `ecies::encrypt` (secp256k1 ECIES with fresh OS randomness):
/// any ciphertext it returns decrypts, under the secret key matching `pk`,
/// to the encrypted message.
#[verifier::external_body]
pub fn ccapke_enc(pk: &Vec<u8>, m: &Vec<u8>) -> (r: Option<Vec<u8>>)
    ensures
        r matches Some(c) ==> forall|sk: Seq<u8>|
            pk@ == cca_keypair_pub_of(sk) ==> cca_plain_of(sk, c@) == Some(m@),
{
    match ecies::encrypt(pk, m) {
        Ok(c) => Some(c),
        Err(_) => None,
    }
}

/// Relies on `ecies::decrypt`: deterministic in the secret key and the
/// ciphertext.
#[verifier::external_body]
pub fn ccapke_dec(sk: &Vec<u8>, ct: &Vec<u8>) -> (r: Option<Vec<u8>>)
    ensures
        opt_bytes(r) == cca_plain_of(sk@, ct@),
{
    match ecies::decrypt(sk, ct) {
        Ok(p) => Some(p),
        Err(_) => None,
    }
}

} // verus!
