//! Deterministic public-key encryption adapter.
//!
//! The caller supplies the randomness: the same `(pk, m, randomness)` triple
//! always yields a byte-identical ciphertext, which is what lets the round-5
//! consistency check re-derive the server's broadcast without any secret.

use rand::SeedableRng;
use vstd::prelude::*;

use crate::hash::{sha256, sha256_of};
use crate::utils::{check_equal, opt_bytes};

verus! {

/// The serialized public key that the underlying scheme derives from a
/// serialized secret key.
pub uninterp spec fn pke_keypair_pub_of(sk: Seq<u8>) -> Seq<u8>;

/// The outcome of the underlying deterministic encryption for a serialized
/// public key, a message, and a 32-byte randomness seed: the ciphertext, or
/// `None` where the scheme rejects the inputs.
pub uninterp spec fn pke_cipher_of(pk: Seq<u8>, m: Seq<u8>, seed: Seq<u8>) -> Option<Seq<u8>>;

/// The outcome of the underlying decryption for a serialized secret key and
/// a ciphertext: the plaintext, or `None` where decryption fails.
pub uninterp spec fn pke_plain_of(sk: Seq<u8>, ct: Seq<u8>) -> Option<Seq<u8>>;

/// The ciphertext for `(pk, m)` under caller-supplied randomness `r` of any
/// length: `r` is first compressed into a 32-byte seed by the hash.
pub open spec fn pke_enc_spec(pk: Seq<u8>, m: Seq<u8>, r: Seq<u8>) -> Option<Seq<u8>> {
    pke_cipher_of(pk, m, sha256_of(r))
}

/// Relies on `ecies_ed25519::generate_keypair` with the thread RNG: the
/// public key is derived from the secret key, and both serialize to 32
/// bytes.
#[verifier::external_body]
pub fn pke_gen() -> (r: (Vec<u8>, Vec<u8>))
    ensures
        r.0@ == pke_keypair_pub_of(r.1@),
        r.0@.len() == 32,
        r.1@.len() == 32,
{
    let (sk, pk) = ecies_ed25519::generate_keypair(&mut rand::thread_rng());
    (pk.to_bytes().to_vec(), sk.to_bytes().to_vec())
}

/// Relies on `ecies_ed25519::encrypt` driven by `rand_chacha::ChaCha20Rng`
/// seeded from `seed`: every random draw (ephemeral key and nonce) comes
/// from the seeded stream, so the outcome — including whether the call fails
/// — is a function of the arguments alone.
#[verifier::external_body]
fn ed25519_encrypt(pk: &[u8], m: &[u8], seed: &[u8]) -> (r: Option<Vec<u8>>)
    requires
        seed@.len() == 32,
    ensures
        opt_bytes(r) == pke_cipher_of(pk@, m@, seed@),
{
    let pk = match ecies_ed25519::PublicKey::from_bytes(pk) {
        Ok(k) => k,
        Err(_) => return None,
    };
    let mut s = [0u8; 32];
    s.copy_from_slice(seed);
    let mut rng = rand_chacha::ChaCha20Rng::from_seed(s);
    match ecies_ed25519::encrypt(&pk, m, &mut rng) {
        Ok(c) => Some(c),
        Err(_) => None,
    }
}

/// Relies on `ecies_ed25519::decrypt`: deterministic in the secret key and
/// the ciphertext, and it inverts `ecies_ed25519::encrypt` under the secret
/// key whose public key encrypted the message. A ciphertext shorter than
/// the 32-byte ephemeral key plus the 12-byte nonce is rejected here before
/// the call: the outside function would slice past the end on such input,
/// and no ciphertext it produces is ever that short.
#[verifier::external_body]
fn ed25519_decrypt(sk: &[u8], ct: &[u8]) -> (r: Option<Vec<u8>>)
    ensures
        opt_bytes(r) == pke_plain_of(sk@, ct@),
        forall|m: Seq<u8>, seed: Seq<u8>|
            pke_cipher_of(pke_keypair_pub_of(sk@), m, seed) == Some(ct@) ==> opt_bytes(r)
                == Some(m),
{
    if ct.len() < 44 {
        return None;
    }
    let sk = match ecies_ed25519::SecretKey::from_bytes(sk) {
        Ok(k) => k,
        Err(_) => return None,
    };
    match ecies_ed25519::decrypt(&sk, ct) {
        Ok(p) => Some(p),
        Err(_) => None,
    }
}

/// Deterministic encryption of `m` under `pk` with caller-supplied
/// randomness `r`. Equal inputs give byte-identical ciphertexts.
pub fn pke_enc(pk: &Vec<u8>, m: &Vec<u8>, r: &Vec<u8>) -> (c: Option<Vec<u8>>)
    ensures
        opt_bytes(c) == pke_enc_spec(pk@, m@, r@),
{
    let seed = sha256(r);
    ed25519_encrypt(pk, m, &seed)
}

/// Decryption of a ciphertext produced by [`pke_enc`]. The second clause is
/// the round-trip law: whatever the randomness, a ciphertext honestly
/// encrypted under this secret key's public key decrypts to its message.
pub fn pke_dec(sk: &Vec<u8>, ct: &Vec<u8>) -> (m: Option<Vec<u8>>)
    ensures
        opt_bytes(m) == pke_plain_of(sk@, ct@),
        forall|p: Seq<u8>, r: Seq<u8>|
            pke_enc_spec(pke_keypair_pub_of(sk@), p, r) == Some(ct@) ==> opt_bytes(m) == Some(p),
{
    ed25519_decrypt(sk, ct)
}

/// Bytewise equality of two ciphertexts, used to compare a recomputed
/// broadcast slot against the received one.
pub fn check_ciphertext(c1: &Vec<u8>, c2: &Vec<u8>) -> (r: bool)
    ensures
        r == (c1@ == c2@),
{
    check_equal(c1, c2)
}

/// Determinism of encryption: a key, a message, and a randomness value name
/// one outcome, so two encryptions of the same triple are byte-identical.
pub proof fn lemma_pke_deterministic(
    pk: Seq<u8>,
    m: Seq<u8>,
    r: Seq<u8>,
    c1: Option<Seq<u8>>,
    c2: Option<Seq<u8>>,
)
    requires
        c1 == pke_enc_spec(pk, m, r),
        c2 == pke_enc_spec(pk, m, r),
    ensures
        c1 == c2,
{
}

} // verus!
