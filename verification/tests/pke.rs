use anon_sym_ake::pke::{check_ciphertext, pke_dec, pke_enc, pke_gen};
use anon_sym_ake::utils::get_random_key32;

#[test]
fn pke_classic_works() {
    let (pk, sk) = pke_gen();

    let m = get_random_key32();
    let r = get_random_key32();
    let ct = pke_enc(&pk, &m, &r).unwrap();
    let ct2 = pke_enc(&pk, &m, &r).unwrap();

    assert_eq!(ct, ct2);

    let m2 = pke_dec(&sk, &ct).unwrap();

    assert_eq!(m, m2);
}

#[test]
fn pke_randomness_separates_ciphertexts() {
    let (pk, sk) = pke_gen();
    let m = get_random_key32();
    let r1 = get_random_key32();
    let r2 = get_random_key32();

    let ct1 = pke_enc(&pk, &m, &r1).unwrap();
    let ct1_again = pke_enc(&pk, &m, &r1).unwrap();
    let ct2 = pke_enc(&pk, &m, &r2).unwrap();

    assert!(check_ciphertext(&ct1, &ct1_again));
    assert!(!check_ciphertext(&ct1, &ct2));
    assert_ne!(ct1, m);

    assert_eq!(pke_dec(&sk, &ct1).unwrap(), m);
    assert_eq!(pke_dec(&sk, &ct2).unwrap(), m);
}

#[test]
fn pke_message_changes_ciphertext() {
    let (pk, _) = pke_gen();
    let r = get_random_key32();
    let m1 = vec![1u8; 32];
    let m2 = vec![2u8; 32];

    let ct1 = pke_enc(&pk, &m1, &r).unwrap();
    let ct2 = pke_enc(&pk, &m2, &r).unwrap();
    assert_ne!(ct1, ct2);
}

#[test]
fn pke_rejects_tampered_ciphertext() {
    let (pk, sk) = pke_gen();
    let m = get_random_key32();
    let r = get_random_key32();

    let mut ct = pke_enc(&pk, &m, &r).unwrap();
    let last = ct.len() - 1;
    ct[last] ^= 1;
    assert!(pke_dec(&sk, &ct).is_none());
}

#[test]
fn pke_rejects_truncated_ciphertext() {
    let (pk, sk) = pke_gen();
    let m = get_random_key32();
    let r = get_random_key32();

    // A ciphertext cut down to its ephemeral-key prefix plus a few bytes:
    // the prefix still parses as a curve point, but there is no room for
    // the nonce, so decryption must report failure rather than crash.
    let ct = pke_enc(&pk, &m, &r).unwrap();
    for keep in [33usize, 40, 43] {
        let short: Vec<u8> = ct[..keep].to_vec();
        assert!(pke_dec(&sk, &short).is_none());
    }
    assert!(pke_dec(&sk, &Vec::new()).is_none());
}

#[test]
fn pke_wrong_key_fails() {
    let (pk, _) = pke_gen();
    let (_, sk_other) = pke_gen();
    let m = get_random_key32();
    let r = get_random_key32();

    let ct = pke_enc(&pk, &m, &r).unwrap();
    assert!(pke_dec(&sk_other, &ct).is_none());
}
