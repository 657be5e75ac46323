use anon_sym_ake::sig::{sig_gen, sig_sign, sig_vry};
use anon_sym_ake::utils::get_random_key32;

#[test]
fn sig_classic_works() {
    let (pk, sk) = sig_gen();
    let (pk2, sk2) = sig_gen();

    let m = get_random_key32();
    let sig = sig_sign(&sk, &m).unwrap();
    let sig2 = sig_sign(&sk2, &m).unwrap();

    let ver = sig_vry(&pk, &m, &sig);
    let ver2 = sig_vry(&pk2, &m, &sig);
    let ver3 = sig_vry(&pk, &m, &sig2);

    assert!(ver);
    assert!(!ver2);
    assert!(!ver3);
}

#[test]
fn sig_is_deterministic() {
    let (pk, sk) = sig_gen();
    let m = get_random_key32();

    let sig1 = sig_sign(&sk, &m).unwrap();
    let sig2 = sig_sign(&sk, &m).unwrap();
    assert_eq!(sig1, sig2);
    assert!(sig_vry(&pk, &m, &sig1));
}

#[test]
fn sig_binding_single_byte() {
    let (pk, sk) = sig_gen();
    let mut m = get_random_key32();
    let sig = sig_sign(&sk, &m).unwrap();
    assert!(sig_vry(&pk, &m, &sig));

    m[17] ^= 1;
    assert!(!sig_vry(&pk, &m, &sig));
    m[17] ^= 1;

    let mut bad_sig = sig.clone();
    bad_sig[0] ^= 1;
    assert!(!sig_vry(&pk, &m, &bad_sig));
}
