use anon_sym_ake::ccapke::{ccapke_dec, ccapke_enc, ccapke_gen};
use anon_sym_ake::utils::get_random_key32;

#[test]
fn ccapke_classic_works() {
    let (pk, sk) = ccapke_gen();

    let m = get_random_key32();
    let ct = ccapke_enc(&pk, &m).unwrap();
    let ct2 = ccapke_enc(&pk, &m).unwrap();

    let m2 = ccapke_dec(&sk, &ct).unwrap();

    assert_eq!(m, m2);
    assert_ne!(ct, ct2);
}

#[test]
fn ccapke_rejects_tampered_ciphertext() {
    let (pk, sk) = ccapke_gen();
    let m = get_random_key32();

    let mut ct = ccapke_enc(&pk, &m).unwrap();
    let last = ct.len() - 1;
    ct[last] ^= 1;
    assert!(ccapke_dec(&sk, &ct).is_none());
}

#[test]
fn ccapke_wrong_key_fails() {
    let (pk, _) = ccapke_gen();
    let (_, sk_other) = ccapke_gen();
    let m = get_random_key32();

    let ct = ccapke_enc(&pk, &m).unwrap();
    assert!(ccapke_dec(&sk_other, &ct).is_none());
}
