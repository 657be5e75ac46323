use anon_sym_ake::prf::prf;
use anon_sym_ake::utils::get_random_key32;

#[test]
fn prf_works() {
    for _ in 0..1000 {
        let key: Vec<u8> = get_random_key32();
        let mut counter = 123_u128;
        let nonce = counter.to_be_bytes();
        counter += 1;
        let nonce2 = counter.to_be_bytes();
        let n = prf(&key, &nonce);
        let n2 = prf(&key, &nonce2);
        let n3 = prf(&key, &nonce);

        assert_ne!(n, n2);
        assert_eq!(n, n3);
        assert!(n.len() == 16);
        assert!(n2.len() == 16);
        assert!(n3.len() == 16);
    }
}

#[test]
fn prf_distinct_keys() {
    let k1 = get_random_key32();
    let k2 = get_random_key32();
    let nonce = 5_u128.to_be_bytes();

    assert_ne!(k1, k2);
    assert_ne!(prf(&k1, &nonce), prf(&k2, &nonce));
}

#[test]
fn prf_known_block() {
    // AES-256 in counter mode, NIST SP 800-38A, F.5.5: the first keystream
    // block for this key and counter block.
    let key: Vec<u8> = vec![
        0x60, 0x3d, 0xeb, 0x10, 0x15, 0xca, 0x71, 0xbe, 0x2b, 0x73, 0xae, 0xf0, 0x85, 0x7d, 0x77,
        0x81, 0x1f, 0x35, 0x2c, 0x07, 0x3b, 0x61, 0x08, 0xd7, 0x2d, 0x98, 0x10, 0xa3, 0x09, 0x14,
        0xdf, 0xf4,
    ];
    let nonce: Vec<u8> = vec![
        0xf0, 0xf1, 0xf2, 0xf3, 0xf4, 0xf5, 0xf6, 0xf7, 0xf8, 0xf9, 0xfa, 0xfb, 0xfc, 0xfd, 0xfe,
        0xff,
    ];
    let out = prf(&key, &nonce);
    assert_eq!(
        out,
        vec![
            0x0b, 0xdf, 0x7d, 0xf1, 0x59, 0x17, 0x16, 0x33, 0x5e, 0x9a, 0x8b, 0x15, 0xc8, 0x60,
            0xc5, 0x02,
        ]
    );
}
