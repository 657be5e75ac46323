use anon_sym_ake::commitment::{comm, comm_vfy};

#[test]
fn commitment_works() {
    let x: Vec<u8> = vec![1, 2, 3, 4, 5, 6];
    let (commitment, open) = comm(&x);
    let (x, r) = open.clone();
    assert_eq!(commitment.len(), 32);
    assert_eq!(r.len(), 32);
    assert_eq!(x.len(), 6);

    let are_equal = comm_vfy(&commitment, &open);
    assert_eq!(are_equal, true);
}

#[test]
fn commitment_empty_value() {
    let x: Vec<u8> = Vec::new();
    let (commitment, open) = comm(&x);
    assert_eq!(commitment.len(), 32);
    assert!(comm_vfy(&commitment, &open));
}

#[test]
fn commitment_rejects_flips() {
    let x: Vec<u8> = vec![7; 16];

    let (mut digest, open) = comm(&x);
    digest[0] ^= 1;
    assert!(!comm_vfy(&digest, &open));

    let (digest, mut open) = comm(&x);
    open.0[0] ^= 1;
    assert!(!comm_vfy(&digest, &open));

    let (digest, mut open) = comm(&x);
    open.1[5] ^= 0x80;
    assert!(!comm_vfy(&digest, &open));
}

#[test]
fn commitment_known_digest() {
    // The digest of an opening with randomizer "ab" and value "c" is
    // SHA-256("abc").
    let digest: Vec<u8> = vec![
        0xba, 0x78, 0x16, 0xbf, 0x8f, 0x01, 0xcf, 0xea, 0x41, 0x41, 0x40, 0xde, 0x5d, 0xae, 0x22,
        0x23, 0xb0, 0x03, 0x61, 0xa3, 0x96, 0x17, 0x7a, 0x9c, 0xb4, 0x10, 0xff, 0x61, 0xf2, 0x00,
        0x15, 0xad,
    ];
    let open = (vec![0x63u8], vec![0x61u8, 0x62]);
    assert!(comm_vfy(&digest, &open));

    let open_swapped = (vec![0x61u8, 0x62], vec![0x63u8]);
    assert!(!comm_vfy(&digest, &open_swapped));
}
