use anon_sym_ake::ccapke::ccapke_enc;
use anon_sym_ake::config::Config;
use anon_sym_ake::errors::ProtocolError;
use anon_sym_ake::protocol::{
    counter_nonce, get_m1_length, get_m2_length, get_m3_length, get_m4_length, get_m5_length,
    registration, round_1, round_2, round_3, round_4, round_5, round_6, run_handshake,
    transcript_bytes,
};

#[test]
fn handshake_agreement_four_clients() {
    let config = Config::new(4);
    let (mut server, mut client) = registration(&config);

    let res = run_handshake(&mut server, &mut client, &config);
    assert!(res.is_ok());

    let key_client = client.get_key();
    let key_server = server.get_key(0).unwrap();
    assert_eq!(key_client, key_server);
    assert_eq!(key_client.len(), 32);

    let sid_client = client.get_sid();
    let sid_server = server.get_sid(0).unwrap();
    assert_eq!(sid_client, sid_server);
    assert_eq!(sid_client.len(), 32);
    assert_ne!(key_client, sid_client);
}

#[test]
fn handshake_round_by_round() {
    let config = Config::new(4);
    let (mut server, mut client) = registration(&config);

    let m1 = round_1(&mut client);
    assert_eq!(get_m1_length(&m1), 32);
    client.send_m1(m1, &mut server);

    let m2 = round_2(&mut server, &config, client.get_id()).unwrap();
    assert_eq!(m2.0 .0.len(), 4);
    assert_eq!(
        get_m2_length(&m2),
        4 * m2.0 .0[0].len() + m2.0 .1.len() + m2.0 .2.len() + m2.1.len()
    );
    server.send_m2(m2, &mut client);

    let m3 = round_3(&mut client).unwrap();
    assert_eq!(get_m3_length(&m3), 32);
    client.send_m3(m3, &mut server);

    let m4 = round_4(&mut server).unwrap();
    assert_eq!(get_m4_length(&m4), m4.0.len() + m4.1.len());
    server.send_m4(m4, &mut client);

    let m5 = round_5(&mut client, &config).unwrap();
    assert_eq!(
        get_m5_length(&m5),
        m5.0.len() + m5.1 .0.len() + m5.1 .1.len()
    );
    client.send_m5(m5, &mut server);

    round_6(&mut server, client.get_id()).unwrap();

    assert_eq!(client.get_key(), server.get_key(0).unwrap());
    assert_eq!(client.get_sid(), server.get_sid(0).unwrap());
}

#[test]
fn tamper_detection_round5() {
    let config = Config::new(4);
    let (mut server, mut client) = registration(&config);

    let m1 = round_1(&mut client);
    client.send_m1(m1, &mut server);
    let m2 = round_2(&mut server, &config, 0).unwrap();
    server.send_m2(m2.clone(), &mut client);
    let m3 = round_3(&mut client).unwrap();
    client.send_m3(m3, &mut server);
    let m4 = round_4(&mut server).unwrap();
    server.send_m4(m4, &mut client);

    // Mutate one byte of the slot for recipient 2 (not the active client)
    // and re-deliver the broadcast: the signatures still verify, but the
    // round-5 consistency re-derivation must catch slot 2.
    let mut tampered = m2;
    tampered.0 .0[2][5] ^= 1;
    client.receive_m2(tampered);

    let res = round_5(&mut client, &config);
    assert_eq!(res.unwrap_err(), ProtocolError::ConsistencyFailure);
}

#[test]
fn equivocation_detection_round6() {
    let config = Config::new(4);
    let (mut server, mut client) = registration(&config);

    let m1 = round_1(&mut client);
    client.send_m1(m1, &mut server);
    let m2 = round_2(&mut server, &config, 0).unwrap();
    server.send_m2(m2, &mut client);
    let m3 = round_3(&mut client).unwrap();
    client.send_m3(m3, &mut server);
    let m4 = round_4(&mut server).unwrap();
    server.send_m4(m4, &mut client);
    let m5 = round_5(&mut client, &config).unwrap();

    // Submit an opening that does not match the round-1 commitment: a
    // ciphertext over 64 zero bytes instead of the honest nonce and
    // randomizer.
    let wrong_opening = vec![0u8; 64];
    let ctxi_bad = ccapke_enc(&client.get_pk(), &wrong_opening).unwrap();
    client.send_m5((ctxi_bad, m5.1), &mut server);

    let res = round_6(&mut server, 0);
    assert_eq!(res.unwrap_err(), ProtocolError::CommitmentInvalid);
    assert!(server.get_key(0).is_none());
}

#[test]
fn signature_binding_round3() {
    let config = Config::new(4);
    let (mut server, mut client) = registration(&config);

    let m1 = round_1(&mut client);
    client.send_m1(m1, &mut server);
    let m2 = round_2(&mut server, &config, 0).unwrap();

    // One flipped byte in the schedule seed must invalidate the round-2
    // signature for the whole broadcast.
    let mut tampered = m2;
    tampered.0 .1[0] ^= 1;
    server.send_m2(tampered, &mut client);

    let res = round_3(&mut client);
    assert_eq!(res.unwrap_err(), ProtocolError::SignatureInvalid);
}

#[test]
fn broadcast_serves_any_client() {
    let config = Config::new(4);
    let (mut server, mut client) = registration(&config);

    let m1 = round_1(&mut client);
    client.send_m1(m1, &mut server);

    // Run round 2 with a different active id: the broadcast content does
    // not depend on the id, so client 0 still verifies it, decrypts its
    // own slot, and passes the round-5 consistency check.
    let m2 = round_2(&mut server, &config, 3).unwrap();
    server.send_m2(m2, &mut client);

    assert!(round_3(&mut client).is_ok());

    let m4 = round_4(&mut server).unwrap();
    server.send_m4(m4, &mut client);

    assert!(round_5(&mut client, &config).is_ok());
}

#[test]
fn handshake_agreement_single_client() {
    let config = Config::new(1);
    let (mut server, mut client) = registration(&config);

    assert!(run_handshake(&mut server, &mut client, &config).is_ok());
    assert_eq!(client.get_key(), server.get_key(0).unwrap());
    assert_eq!(client.get_sid(), server.get_sid(0).unwrap());
}

#[test]
fn counter_nonce_layout() {
    assert_eq!(counter_nonce(0), vec![0u8; 16]);
    assert_eq!(
        counter_nonce(0x01020304),
        vec![0, 0, 0, 0, 0, 0, 0, 0, 0, 0, 0, 0, 1, 2, 3, 4]
    );
    assert_eq!(counter_nonce(7), (7u128).to_be_bytes().to_vec());
}

#[test]
fn transcript_layout() {
    let cis = vec![vec![1u8, 2], vec![3u8]];
    let r = vec![4u8, 5];
    let pk = vec![6u8];
    assert_eq!(transcript_bytes(&cis, &r, &pk), vec![1, 2, 3, 4, 5, 6]);
}

#[test]
fn missing_state_is_primitive_failure() {
    let config = Config::new(2);
    let (mut server, mut client) = registration(&config);

    // Round 3 without a received broadcast has no slot to decrypt.
    assert_eq!(
        round_3(&mut client).unwrap_err(),
        ProtocolError::PrimitiveFailure
    );

    // Round 6 for an id that never ran the earlier rounds has nothing
    // stored.
    assert_eq!(
        round_6(&mut server, 0).unwrap_err(),
        ProtocolError::PrimitiveFailure
    );
    assert!(server.get_key(0).is_none());
    assert!(server.get_sid(0).is_none());
}
