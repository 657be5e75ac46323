//! Keyed pseudorandom function driving the per-recipient encryption schedule.
//!
//! A 32-byte key and a 16-byte counter block deterministically expand into 16
//! bytes of per-recipient randomness, so a ciphertext schedule can be
//! re-derived and checked by anyone who holds the seed.

use aes::cipher::{KeyIvInit, StreamCipher};
use vstd::prelude::*;

verus! {

/// The 16-byte AES-256-CTR keystream block for a 32-byte key and a 16-byte
/// counter block.
pub uninterp spec fn prf_of(key: Seq<u8>, nonce: Seq<u8>) -> Seq<u8>;

/// Relies on `ctr::Ctr64BE<aes::Aes256>`: the keystream is a pure function
/// of key and counter block, and applying it keeps the buffer's length.
#[verifier::external_body]
fn aes256_ctr_block(key: &[u8], nonce: &[u8]) -> (r: Vec<u8>)
    requires
        key@.len() == 32,
        nonce@.len() == 16,
    ensures
        r@ == prf_of(key@, nonce@),
        r@.len() == 16,
{
    let mut k = [0u8; 32];
    k.copy_from_slice(&key[0..32]);
    let mut counter = [0u8; 16];
    counter.copy_from_slice(nonce);
    let mut buf = vec![0u8; 16];
    let mut cipher: ctr::Ctr64BE<aes::Aes256> = ctr::Ctr64BE::new(&k.into(), &counter.into());
    cipher.apply_keystream(&mut buf);
    buf
}

/// Deterministic keyed expansion of `key` and the counter block `nonce` into
/// 16 bytes. The same pair always reproduces the same output.
pub fn prf(key: &[u8], nonce: &[u8]) -> (r: Vec<u8>)
    requires
        key@.len() == 32,
        nonce@.len() == 16,
    ensures
        r@ == prf_of(key@, nonce@),
        r@.len() == 16,
{
    aes256_ctr_block(key, nonce)
}

/// Determinism of the schedule: a key and a counter block name one output.
pub proof fn lemma_prf_deterministic(key: Seq<u8>, nonce: Seq<u8>, out1: Seq<u8>, out2: Seq<u8>)
    requires
        out1 == prf_of(key, nonce),
        out2 == prf_of(key, nonce),
    ensures
        out1 == out2,
{
}

} // verus!
