//! Signature adapter: thin sign/verify wiring over ECDSA.

use k256::ecdsa::signature::{Signer, Verifier};
use k256::elliptic_curve::sec1::ToEncodedPoint;
use vstd::prelude::*;

use crate::utils::opt_bytes;

verus! {

/// The 33-byte SEC1 public key derived from a 32-byte secret scalar.
pub uninterp spec fn sig_keypair_pub_of(sk: Seq<u8>) -> Seq<u8>;

/// The outcome of deterministic signing for a serialized secret key and a
/// message: the 64-byte signature, or `None` where the key is rejected or
/// signing fails.
pub uninterp spec fn sig_bytes_of(sk: Seq<u8>, m: Seq<u8>) -> Option<Seq<u8>>;

/// Whether the verifier accepts `s` as a signature on `m` under the
/// serialized public key `pk`; false on malformed keys or signatures.
pub uninterp spec fn sig_accepts(pk: Seq<u8>, m: Seq<u8>, s: Seq<u8>) -> bool;

/// Relies on `k256::ecdsa::SigningKey::random` with the OS RNG and
/// `VerifyingKey::from`: the public key is derived from the secret key.
#[verifier::external_body]
pub fn sig_gen() -> (r: (Vec<u8>, Vec<u8>))
    ensures
        r.0@ == sig_keypair_pub_of(r.1@),
        r.0@.len() == 33,
        r.1@.len() == 32,
{
    let sk = k256::ecdsa::SigningKey::random(&mut rand_core::OsRng);
    let pk = k256::ecdsa::VerifyingKey::from(&sk);
    (pk.to_encoded_point(true).as_bytes().to_vec(), sk.to_bytes().to_vec())
}

/// Relies on `k256::ecdsa::SigningKey::try_sign` (deterministic ECDSA per
/// RFC 6979): the outcome is a function of key and message alone, and a
/// produced signature is accepted by the matching verifying key.
#[verifier::external_body]
pub fn sig_sign(sk: &Vec<u8>, m: &Vec<u8>) -> (r: Option<Vec<u8>>)
    ensures
        opt_bytes(r) == sig_bytes_of(sk@, m@),
        r matches Some(s) ==> sig_accepts(sig_keypair_pub_of(sk@), m@, s@),
{
    let key = match k256::ecdsa::SigningKey::from_slice(sk) {
        Ok(k) => k,
        Err(_) => return None,
    };
    let sig: Result<k256::ecdsa::Signature, _> = key.try_sign(m);
    match sig {
        Ok(s) => Some(s.to_bytes().to_vec()),
        Err(_) => None,
    }
}

/// Relies on `k256::ecdsa::VerifyingKey::verify`: deterministic, and false
/// on malformed keys and signatures.
#[verifier::external_body]
pub fn sig_vry(pk: &Vec<u8>, m: &Vec<u8>, s: &Vec<u8>) -> (r: bool)
    ensures
        r == sig_accepts(pk@, m@, s@),
{
    let key = match k256::ecdsa::VerifyingKey::from_sec1_bytes(pk) {
        Ok(k) => k,
        Err(_) => return false,
    };
    let sig = match k256::ecdsa::Signature::from_slice(s) {
        Ok(x) => x,
        Err(_) => return false,
    };
    key.verify(m, &sig).is_ok()
}

} // verus!
