//! The registration routine and the six round functions of the handshake.
//!
//! Exactly one active client id drives the exchange against the shared
//! server state; the server's per-client maps make handshakes for distinct
//! ids independent. Every verification failure aborts the round with a
//! distinct error and leaves the state unchanged, so a session key is never
//! derived from a run that failed a check.

use vstd::prelude::*;

use crate::ccapke::{ccapke_dec, ccapke_enc, ccapke_gen, cca_keypair_pub_of, cca_plain_of};
use crate::client::{opening_view, Client, ClientView};
use crate::commitment::{comm, comm_vfy, comm_accepts, commit_digest};
use crate::config::Config;
use crate::errors::ProtocolError;
use crate::hash::{sha256, sha256_of};
use crate::pke::{check_ciphertext, pke_dec, pke_enc, pke_enc_spec, pke_gen, pke_keypair_pub_of, pke_plain_of};
use crate::prf::{prf, prf_of};
use crate::server::{pair_views, Server, ServerView};
use crate::sig::{sig_accepts, sig_bytes_of, sig_keypair_pub_of, sig_sign, sig_vry};
use crate::utils::{bytes_views, clone_bytes, concat_bytes, get_random_key32, sub_bytes};

verus! {

broadcast use vstd::std_specs::hash::group_hash_axioms;

/// The round-2 broadcast: the per-recipient ciphertext vector, the schedule
/// seed, the ephemeral server public key, and the server's signature over
/// their concatenation.
pub type M2Message = ((Vec<Vec<u8>>, Vec<u8>, Vec<u8>), Vec<u8>);

/// The concatenation of a list of byte strings, in order.
pub open spec fn concat_all(xs: Seq<Seq<u8>>) -> Seq<u8>
    decreases xs.len(),
{
    if xs.len() == 0 {
        Seq::empty()
    } else {
        concat_all(xs.drop_last()) + xs.last()
    }
}

/// The 16-byte big-endian counter block for recipient index `j`, as a
/// 128-bit big-endian integer.
pub open spec fn ctr_bytes_of(j: u32) -> Seq<u8> {
    seq![
        0u8,
        0u8,
        0u8,
        0u8,
        0u8,
        0u8,
        0u8,
        0u8,
        0u8,
        0u8,
        0u8,
        0u8,
        (j / 0x1000000) as u8,
        ((j / 0x10000) % 256) as u8,
        ((j / 0x100) % 256) as u8,
        (j % 256) as u8,
    ]
}

/// The byte string that the server signs in round 2 and the client checks
/// in round 3: all ciphertexts, then the schedule seed, then the ephemeral
/// public key, in this fixed order.
pub open spec fn m2_transcript(cis: Seq<Seq<u8>>, r: Seq<u8>, pk: Seq<u8>) -> Seq<u8> {
    concat_all(cis) + r + pk
}

/// The public halves of the registered keypairs.
pub open spec fn pubs_of(keys: Seq<(Seq<u8>, Seq<u8>)>) -> Seq<Seq<u8>> {
    keys.map_values(|p: (Seq<u8>, Seq<u8>)| p.0)
}

/// The honest broadcast slot for recipient `j`: the server nonce encrypted
/// under `vk` with the randomness that the schedule seed `r` assigns to `j`.
/// The slot is a function of the registered keys, the nonce, and the seed
/// alone — not of any client id.
pub open spec fn honest_slot(vk: Seq<u8>, ns: Seq<u8>, r: Seq<u8>, j: u32) -> Option<Seq<u8>> {
    pke_enc_spec(vk, ns, prf_of(r, ctr_bytes_of(j)))
}

/// Whether a received ciphertext vector is the uniform encryption of one
/// nonce `ns` under schedule seed `r` for all `n` recipients.
pub open spec fn broadcast_consistent(
    vks: Seq<Seq<u8>>,
    cis: Seq<Seq<u8>>,
    ns: Seq<u8>,
    r: Seq<u8>,
    n: u32,
) -> bool {
    forall|j: u32| j < n ==> Some(cis[j as int]) == honest_slot(vks[j as int], ns, r, j)
}

/// The session key derived from the server nonce and the client nonce.
pub open spec fn session_key_of(ns: Seq<u8>, ni: Seq<u8>) -> Seq<u8> {
    sha256_of(ns + ni)
}

/// A server and a client that completed registration for population `n`:
/// the server holds `n` registered keypairs, the client holds the full
/// public-key vector, its own decryption key, and the pinned server
/// signature key.
pub open spec fn registered(s: ServerView, c: ClientView, n: u32) -> bool {
    &&& s.clients_keys.len() == n
    &&& forall|j: int|
        0 <= j < n ==> (#[trigger] s.clients_keys[j]).0 == pke_keypair_pub_of(s.clients_keys[j].1)
    &&& c.vks == pubs_of(s.clients_keys)
    &&& c.id == 0
    &&& n > 0 ==> c.ek == s.clients_keys[0].1
    &&& c.pk_s == s.sig_pk
    &&& s.sig_pk == sig_keypair_pub_of(s.sig_sk)
}

proof fn lemma_concat_all_take_snoc(xs: Seq<Seq<u8>>, i: int)
    requires
        0 <= i < xs.len(),
    ensures
        concat_all(xs.take(i + 1)) == concat_all(xs.take(i)) + xs[i],
{
    assert(xs.take(i + 1).drop_last() =~= xs.take(i));
    assert(xs.take(i + 1).last() == xs[i]);
}

/// The 16-byte big-endian counter block for recipient index `j`.
pub fn counter_nonce(j: u32) -> (r: Vec<u8>)
    ensures
        r@ == ctr_bytes_of(j),
        r@.len() == 16,
{
    let mut r: Vec<u8> = Vec::new();
    let mut i: usize = 0;
    while i < 12
        invariant
            i <= 12,
            r@.len() == i,
            forall|t: int| 0 <= t < i ==> r@[t] == 0u8,
        decreases 12 - i,
    {
        r.push(0u8);
        i += 1;
    }
    r.push((j / 0x1000000) as u8);
    r.push(((j / 0x10000) % 256) as u8);
    r.push(((j / 0x100) % 256) as u8);
    r.push((j % 256) as u8);
    proof {
        assert(r@ =~= ctr_bytes_of(j));
    }
    r
}

/// Build the byte string signed in round 2 and verified in round 3.
pub fn transcript_bytes(cis: &Vec<Vec<u8>>, r: &Vec<u8>, pk: &Vec<u8>) -> (t: Vec<u8>)
    ensures
        t@ == m2_transcript(bytes_views(cis@), r@, pk@),
{
    let mut acc: Vec<u8> = Vec::new();
    let mut i: usize = 0;
    proof {
        assert(bytes_views(cis@).take(0) =~= Seq::<Seq<u8>>::empty());
    }
    while i < cis.len()
        invariant
            i <= cis@.len(),
            acc@ == concat_all(bytes_views(cis@).take(i as int)),
        decreases cis@.len() - i,
    {
        let mut next = concat_bytes(&acc, &cis[i]);
        proof {
            lemma_concat_all_take_snoc(bytes_views(cis@), i as int);
        }
        acc = next;
        i += 1;
    }
    proof {
        assert(bytes_views(cis@).take(cis@.len() as int) =~= bytes_views(cis@));
    }
    let with_r = concat_bytes(&acc, r);
    concat_bytes(&with_r, pk)
}

/// Registration: the server creates `N` independent PKE keypairs, assigns
/// keypair 0 to the returned client, and hands the client the full
/// public-key vector and the pinned server signature key.
pub fn registration(config: &Config) -> (res: (Server, Client))
    ensures
        registered(res.0@, res.1@, config.spec_users_number()),
{
    let n = config.get_users_number();
    let mut server = Server::new();
    let mut client = Client::new(0);

    let (pks, _) = server.get_sig_keypair();
    client.set_pks(pks);

    let mut keys: Vec<(Vec<u8>, Vec<u8>)> = Vec::new();
    let mut j: u32 = 0;
    while j < n
        invariant
            j <= n,
            keys@.len() == j,
            forall|t: int|
                0 <= t < j ==> (#[trigger] keys@[t]).0@ == pke_keypair_pub_of(keys@[t].1@),
        decreases n - j,
    {
        let (vk, ek) = pke_gen();
        keys.push((vk, ek));
        j += 1;
    }

    if keys.len() > 0 {
        client.set_ek(clone_bytes(&keys[0].1));
    }

    let ghost server0 = server@;
    let mut vks: Vec<Vec<u8>> = Vec::new();
    let mut i: usize = 0;
    while i < keys.len()
        invariant
            i <= keys@.len(),
            keys@.len() == n,
            forall|t: int|
                0 <= t < n ==> (#[trigger] keys@[t]).0@ == pke_keypair_pub_of(keys@[t].1@),
            vks@.len() == i,
            forall|t: int| 0 <= t < i ==> vks@[t]@ == keys@[t].0@,
            server@.clients_keys.len() == i,
            forall|t: int|
                0 <= t < i ==> #[trigger] server@.clients_keys[t] == (keys@[t].0@, keys@[t].1@),
            server@ == (ServerView { clients_keys: server@.clients_keys, ..server0 }),
        decreases keys@.len() - i,
    {
        vks.push(clone_bytes(&keys[i].0));
        server.add_key((clone_bytes(&keys[i].0), clone_bytes(&keys[i].1)));
        i += 1;
    }
    proof {
        assert(bytes_views(vks@) =~= pubs_of(server@.clients_keys));
    }
    client.set_vks(vks);

    (server, client)
}

/// Round 1 (client): sample a fresh nonce, commit to it, and send the
/// commitment together with the client id.
pub fn round_1(client: &mut Client) -> (m1: (Vec<u8>, u32))
    ensures
        final(client)@ == (ClientView {
            ni: final(client)@.ni,
            commitment: final(client)@.commitment,
            ..old(client)@
        }),
        final(client)@.ni.len() == 32,
        final(client)@.commitment.1.0 == final(client)@.ni,
        final(client)@.commitment.1.1.len() == 32,
        final(client)@.commitment.0 == commit_digest(
            final(client)@.commitment.1.0,
            final(client)@.commitment.1.1,
        ),
        m1.0@ == final(client)@.commitment.0,
        m1.1 == old(client)@.id,
{
    let ni = get_random_key32();
    client.set_ni(&ni);
    let (digest, open) = comm(&ni);
    let m1_comm = clone_bytes(&digest);
    client.set_commitment((digest, open));
    (m1_comm, client.get_id())
}

/// Round 2 (server): create a fresh ephemeral keypair, a fresh server
/// nonce, and a fresh schedule seed; encrypt the nonce once per registered
/// recipient with PRF-scheduled randomness; sign the whole broadcast.
///
/// The ciphertext vector is a function of the registered keys, the nonce,
/// and the seed alone — the active id `id` only selects the server-side
/// slot where the material is retained.
pub fn round_2(server: &mut Server, config: &Config, id: u32) -> (res: Result<
    M2Message,
    ProtocolError,
>)
    ensures
        match res {
            Ok(m2) => {
                &&& final(server)@ == (ServerView {
                    ecies_keys: final(server)@.ecies_keys,
                    ns: final(server)@.ns,
                    cis: bytes_views(m2.0.0@),
                    r: m2.0.1@,
                    ..old(server)@
                })
                &&& final(server)@.ecies_keys == old(server)@.ecies_keys.insert(
                    id,
                    (m2.0.2@, final(server)@.ecies_keys[id].1),
                )
                &&& m2.0.2@ == cca_keypair_pub_of(final(server)@.ecies_keys[id].1)
                &&& final(server)@.ns == old(server)@.ns.insert(id, final(server)@.ns[id])
                &&& final(server)@.ns[id].len() == 32
                &&& m2.0.1@.len() == 32
                &&& m2.0.0@.len() == config.spec_users_number()
                &&& old(server)@.clients_keys.len() >= config.spec_users_number()
                &&& broadcast_consistent(
                    pubs_of(old(server)@.clients_keys),
                    bytes_views(m2.0.0@),
                    final(server)@.ns[id],
                    m2.0.1@,
                    config.spec_users_number(),
                )
                &&& Some(m2.1@) == sig_bytes_of(
                    old(server)@.sig_sk,
                    m2_transcript(bytes_views(m2.0.0@), m2.0.1@, m2.0.2@),
                )
                &&& sig_accepts(
                    sig_keypair_pub_of(old(server)@.sig_sk),
                    m2_transcript(bytes_views(m2.0.0@), m2.0.1@, m2.0.2@),
                    m2.1@,
                )
            },
            Err(e) => {
                &&& e == ProtocolError::PrimitiveFailure
                &&& final(server)@ == old(server)@
            },
        },
{
    let n = config.get_users_number();
    let client_keys = server.get_clients_keys();
    if client_keys.len() < n as usize {
        return Err(ProtocolError::PrimitiveFailure);
    }
    let (pk_eph, sk_eph) = ccapke_gen();
    let n_s = get_random_key32();
    let r = get_random_key32();

    let mut cis: Vec<Vec<u8>> = Vec::new();
    let mut i: u32 = 0;
    while i < n
        invariant
            i <= n,
            n <= client_keys@.len(),
            pair_views(client_keys@) == old(server)@.clients_keys,
            r@.len() == 32,
            n_s@.len() == 32,
            cis@.len() == i,
            forall|j: u32|
                j < i ==> Some(#[trigger] bytes_views(cis@)[j as int]) == honest_slot(
                    pubs_of(old(server)@.clients_keys)[j as int],
                    n_s@,
                    r@,
                    j,
                ),
        decreases n - i,
    {
        let nonce = counter_nonce(i);
        let ri = prf(&r, &nonce);
        match pke_enc(&client_keys[i as usize].0, &n_s, &ri) {
            Some(c) => {
                proof {
                    assert(old(server)@.clients_keys[i as int] == (
                        client_keys@[i as int].0@,
                        client_keys@[i as int].1@,
                    ));
                    assert(pubs_of(old(server)@.clients_keys)[i as int] == client_keys@[i as
                        int].0@);
                }
                let ghost prev = cis@;
                let ghost cv = c@;
                cis.push(c);
                proof {
                    assert(bytes_views(cis@) =~= bytes_views(prev).push(cv));
                    assert(Some(bytes_views(cis@)[i as int]) == honest_slot(
                        pubs_of(old(server)@.clients_keys)[i as int],
                        n_s@,
                        r@,
                        i,
                    ));
                }
            },
            None => {
                return Err(ProtocolError::PrimitiveFailure);
            },
        }
        i += 1;
    }

    let transcript = transcript_bytes(&cis, &r, &pk_eph);
    let (_, sk_s) = server.get_sig_keypair();
    let signature2 = match sig_sign(&sk_s, &transcript) {
        Some(s) => s,
        None => {
            return Err(ProtocolError::PrimitiveFailure);
        },
    };

    server.set_ecies_keypair((clone_bytes(&pk_eph), sk_eph), id);
    server.set_ns(id, clone_bytes(&n_s));
    server.add_proofs_and_ciphertexts(&cis, &r);

    Ok(((cis, r, pk_eph), signature2))
}

/// Whether the client state holds a broadcast slot for its own id.
pub open spec fn round3_shape_ok(c: ClientView) -> bool {
    c.id < c.cis.len()
}

/// Whether the round-2 signature verifies under the pinned server key over
/// the exact broadcast the client received.
pub open spec fn round3_sig_ok(c: ClientView) -> bool {
    sig_accepts(c.pk_s, m2_transcript(c.cis, c.r, c.pk), c.signature2)
}

/// Round 3 (client): verify the broadcast signature, decrypt the client's
/// own slot to recover the server nonce, and commit to that nonce.
pub fn round_3(client: &mut Client) -> (res: Result<(Vec<u8>, u32), ProtocolError>)
    ensures
        res is Ok <==> round3_shape_ok(old(client)@) && round3_sig_ok(old(client)@)
            && pke_plain_of(old(client)@.ek, old(client)@.cis[old(client)@.id as int]) is Some,
        match res {
            Ok(m3) => {
                &&& final(client)@ == (ClientView {
                    ns: final(client)@.ns,
                    commitment_server: final(client)@.commitment_server,
                    ..old(client)@
                })
                &&& Some(final(client)@.ns) == pke_plain_of(
                    old(client)@.ek,
                    old(client)@.cis[old(client)@.id as int],
                )
                &&& final(client)@.commitment_server.1.0 == final(client)@.ns
                &&& final(client)@.commitment_server.1.1.len() == 32
                &&& final(client)@.commitment_server.0 == commit_digest(
                    final(client)@.commitment_server.1.0,
                    final(client)@.commitment_server.1.1,
                )
                &&& m3.0@ == final(client)@.commitment_server.0
                &&& m3.1 == old(client)@.id
            },
            Err(e) => {
                &&& final(client)@ == old(client)@
                &&& (e == ProtocolError::SignatureInvalid <==> round3_shape_ok(old(client)@)
                    && !round3_sig_ok(old(client)@))
                &&& (e == ProtocolError::PrimitiveFailure <==> !round3_shape_ok(old(client)@) || (
                round3_sig_ok(old(client)@) && pke_plain_of(
                    old(client)@.ek,
                    old(client)@.cis[old(client)@.id as int],
                ) is None))
            },
        },
        forall|p: Seq<u8>, rho: Seq<u8>|
            round3_shape_ok(old(client)@) && round3_sig_ok(old(client)@) && pke_enc_spec(
                pke_keypair_pub_of(old(client)@.ek),
                p,
                rho,
            ) == Some(old(client)@.cis[old(client)@.id as int]) ==> res is Ok && final(client)@.ns
                == p,
{
    let (cis, r, pk, signature2) = client.get_m2_info();
    let id = client.get_id();
    if (id as usize) >= cis.len() {
        return Err(ProtocolError::PrimitiveFailure);
    }
    let pk_s = client.get_pks();
    let transcript = transcript_bytes(&cis, &r, &pk);
    if !sig_vry(&pk_s, &transcript, &signature2) {
        return Err(ProtocolError::SignatureInvalid);
    }
    let eki = client.get_ek();
    let ns = match pke_dec(&eki, &cis[id as usize]) {
        Some(x) => x,
        None => {
            return Err(ProtocolError::PrimitiveFailure);
        },
    };
    client.set_ns(&ns);
    let (comm_s, open_s) = comm(&ns);
    let m3_comm = clone_bytes(&comm_s);
    client.set_commitment_server((comm_s, open_s));
    Ok((m3_comm, id))
}

/// Round 4 (server): sign the schedule seed of the current broadcast and
/// return both. The reply is a function of the retained broadcast alone,
/// not of any client id.
pub fn round_4(server: &mut Server) -> (res: Result<(Vec<u8>, Vec<u8>), ProtocolError>)
    ensures
        final(server)@ == old(server)@,
        res is Ok <==> sig_bytes_of(old(server)@.sig_sk, old(server)@.r) is Some,
        match res {
            Ok(m4) => {
                &&& m4.0@ == old(server)@.r
                &&& Some(m4.1@) == sig_bytes_of(old(server)@.sig_sk, old(server)@.r)
                &&& sig_accepts(sig_keypair_pub_of(old(server)@.sig_sk), old(server)@.r, m4.1@)
            },
            Err(e) => e == ProtocolError::PrimitiveFailure,
        },
{
    let r = server.get_r();
    let (_, sk_s) = server.get_sig_keypair();
    match sig_sign(&sk_s, &r) {
        Some(signature4) => Ok((r, signature4)),
        None => Err(ProtocolError::PrimitiveFailure),
    }
}

/// Whether the client state has the shape round 5 works on: a 32-byte
/// schedule seed and a key vector and ciphertext vector covering all `n`
/// recipients.
pub open spec fn round5_shape_ok(c: ClientView, n: u32) -> bool {
    &&& c.r.len() == 32
    &&& c.vks.len() >= n
    &&& c.cis.len() >= n
}

/// Whether the round-4 signature over the schedule seed verifies under the
/// pinned server key.
pub open spec fn round5_sig_ok(c: ClientView) -> bool {
    sig_accepts(c.pk_s, c.r, c.signature4)
}

/// The round-5 acceptance predicate: shape, signature, and the anonymity
/// consistency check. It reads only broadcast data that every client
/// receives identically — never the client's id or its secret key.
pub open spec fn round5_accepts(c: ClientView, n: u32) -> bool {
    &&& round5_shape_ok(c, n)
    &&& round5_sig_ok(c)
    &&& broadcast_consistent(c.vks, c.cis, c.ns, c.r, n)
}

/// Round 5 (client): verify the seed signature, re-derive every
/// recipient's ciphertext from the seed and require it to match the
/// received broadcast, derive the session key and identifier, and encrypt
/// the round-1 opening under the ephemeral server key.
pub fn round_5(client: &mut Client, config: &Config) -> (res: Result<
    (Vec<u8>, (Vec<u8>, Vec<u8>)),
    ProtocolError,
>)
    ensures
        match res {
            Ok(m5) => {
                &&& round5_accepts(old(client)@, config.spec_users_number())
                &&& final(client)@ == (ClientView {
                    k: session_key_of(old(client)@.ns, old(client)@.ni),
                    sid: sha256_of(session_key_of(old(client)@.ns, old(client)@.ni)),
                    ..old(client)@
                })
                &&& opening_view(m5.1) == old(client)@.commitment_server.1
                &&& forall|sk: Seq<u8>|
                    old(client)@.pk == cca_keypair_pub_of(sk) ==> cca_plain_of(sk, m5.0@) == Some(
                        old(client)@.commitment.1.0 + old(client)@.commitment.1.1,
                    )
            },
            Err(e) => {
                &&& final(client)@ == old(client)@
                &&& (e == ProtocolError::SignatureInvalid <==> round5_shape_ok(
                    old(client)@,
                    config.spec_users_number(),
                ) && !round5_sig_ok(old(client)@))
                &&& (e == ProtocolError::ConsistencyFailure <==> round5_shape_ok(
                    old(client)@,
                    config.spec_users_number(),
                ) && round5_sig_ok(old(client)@) && !broadcast_consistent(
                    old(client)@.vks,
                    old(client)@.cis,
                    old(client)@.ns,
                    old(client)@.r,
                    config.spec_users_number(),
                ))
                &&& (e == ProtocolError::PrimitiveFailure <==> !round5_shape_ok(
                    old(client)@,
                    config.spec_users_number(),
                ) || round5_accepts(old(client)@, config.spec_users_number()))
            },
        },
{
    let n = config.get_users_number();
    let cis = client.get_cis();
    let vks = client.get_vks();
    let r = client.get_r();
    let ni = client.get_ni();
    let ns = client.get_ns();
    let pk_s = client.get_pks();
    let signature4 = client.get_signature4();

    if r.len() != 32 || vks.len() < n as usize || cis.len() < n as usize {
        return Err(ProtocolError::PrimitiveFailure);
    }
    if !sig_vry(&pk_s, &r, &signature4) {
        return Err(ProtocolError::SignatureInvalid);
    }

    let mut j: u32 = 0;
    while j < n
        invariant
            j <= n,
            n <= vks@.len(),
            n <= cis@.len(),
            n == config.spec_users_number(),
            bytes_views(vks@) == old(client)@.vks,
            bytes_views(cis@) == old(client)@.cis,
            r@ == old(client)@.r,
            ns@ == old(client)@.ns,
            r@.len() == 32,
            round5_shape_ok(old(client)@, n),
            round5_sig_ok(old(client)@),
            forall|t: u32|
                t < j ==> Some(old(client)@.cis[t as int]) == honest_slot(
                    old(client)@.vks[t as int],
                    old(client)@.ns,
                    old(client)@.r,
                    t,
                ),
        decreases n - j,
    {
        let nonce = counter_nonce(j);
        let rj = prf(&r, &nonce);
        let slot_ok = match pke_enc(&vks[j as usize], &ns, &rj) {
            Some(c) => check_ciphertext(&c, &cis[j as usize]),
            None => false,
        };
        if !slot_ok {
            proof {
                assert(Some(old(client)@.cis[j as int]) != honest_slot(
                    old(client)@.vks[j as int],
                    old(client)@.ns,
                    old(client)@.r,
                    j,
                ));
            }
            return Err(ProtocolError::ConsistencyFailure);
        }
        j += 1;
    }

    let (_, open) = client.get_commitment();
    let (_, open_s) = client.get_commitment_server();
    let (value, randomizer) = open;
    let payload = concat_bytes(&value, &randomizer);
    let pk = client.get_pk();
    let ctxi = match ccapke_enc(&pk, &payload) {
        Some(c) => c,
        None => {
            return Err(ProtocolError::PrimitiveFailure);
        },
    };

    let k = sha256(&concat_bytes(&ns, &ni));
    let sid = sha256(&k);
    client.set_k(k);
    client.set_sid(sid);

    Ok((ctxi, open_s))
}

/// What the final ciphertext stored for id `i` decrypts to under the
/// ephemeral secret key stored for `i`.
pub open spec fn round6_opening(s: ServerView, i: u32) -> Option<Seq<u8>> {
    cca_plain_of(s.ecies_keys[i].1, s.ctxis[i])
}

/// Whether every entry round 6 reads is present for id `i`, the final
/// ciphertext decrypts, and the plaintext is long enough to split into a
/// 32-byte value and a randomizer.
pub open spec fn round6_material_ok(s: ServerView, i: u32) -> bool {
    &&& s.ecies_keys.contains_key(i)
    &&& s.ctxis.contains_key(i)
    &&& s.comms.contains_key(i)
    &&& s.comms_server.contains_key(i)
    &&& s.opens_server.contains_key(i)
    &&& s.ns.contains_key(i)
    &&& round6_opening(s, i) is Some
    &&& round6_opening(s, i).unwrap().len() >= 32
}

/// The client nonce recovered from the final ciphertext.
pub open spec fn round6_value(s: ServerView, i: u32) -> Seq<u8> {
    round6_opening(s, i).unwrap().subrange(0, 32)
}

/// The commitment randomizer recovered from the final ciphertext.
pub open spec fn round6_randomizer(s: ServerView, i: u32) -> Seq<u8> {
    round6_opening(s, i).unwrap().subrange(32, round6_opening(s, i).unwrap().len() as int)
}

/// The round-6 acceptance predicate: the recovered opening must match the
/// round-1 commitment, and the round-5 opening must match the round-3
/// commitment. Both must hold.
pub open spec fn round6_accepts(s: ServerView, i: u32) -> bool {
    &&& round6_material_ok(s, i)
    &&& comm_accepts(s.comms[i], round6_value(s, i), round6_randomizer(s, i))
    &&& comm_accepts(s.comms_server[i], s.opens_server[i].0, s.opens_server[i].1)
}

/// The session key the server derives for id `i`.
pub open spec fn round6_key(s: ServerView, i: u32) -> Seq<u8> {
    session_key_of(s.ns[i], round6_value(s, i))
}

/// Round 6 (server, for id `i`): decrypt the final ciphertext, verify both
/// commitments, and derive the session key and identifier. On any failure
/// nothing is stored.
pub fn round_6(server: &mut Server, i: u32) -> (res: Result<(), ProtocolError>)
    ensures
        res is Ok <==> round6_accepts(old(server)@, i),
        match res {
            Ok(m6) => final(server)@ == (ServerView {
                k: old(server)@.k.insert(i, round6_key(old(server)@, i)),
                sid: old(server)@.sid.insert(i, sha256_of(round6_key(old(server)@, i))),
                ..old(server)@
            }),
            Err(e) => {
                &&& final(server)@ == old(server)@
                &&& (e == ProtocolError::CommitmentInvalid <==> round6_material_ok(old(server)@, i)
                    && !round6_accepts(old(server)@, i))
                &&& (e == ProtocolError::PrimitiveFailure <==> !round6_material_ok(old(server)@, i))
            },
        },
{
    let kem_keys = match server.get_kem_keypair(i) {
        Some(p) => p,
        None => {
            return Err(ProtocolError::PrimitiveFailure);
        },
    };
    let sk_i = kem_keys.1;
    let ctxis = server.get_ctxis();
    let ctxi = match ctxis.get(&i) {
        Some(c) => c,
        None => {
            return Err(ProtocolError::PrimitiveFailure);
        },
    };
    let comms = server.get_comms();
    let comm_i = match comms.get(&i) {
        Some(c) => c,
        None => {
            return Err(ProtocolError::PrimitiveFailure);
        },
    };
    let comms_server = server.get_comms_server();
    let comm_s = match comms_server.get(&i) {
        Some(c) => c,
        None => {
            return Err(ProtocolError::PrimitiveFailure);
        },
    };
    let opens_server = server.get_opens_server();
    let open_s = match opens_server.get(&i) {
        Some(o) => o,
        None => {
            return Err(ProtocolError::PrimitiveFailure);
        },
    };
    let ns = match server.get_ns(i) {
        Some(v) => v,
        None => {
            return Err(ProtocolError::PrimitiveFailure);
        },
    };

    proof {
        assert(ctxi@ == old(server)@.ctxis[i]);
        assert(comm_i@ == old(server)@.comms[i]);
        assert(comm_s@ == old(server)@.comms_server[i]);
        assert((open_s.0@, open_s.1@) == old(server)@.opens_server[i]);
    }

    let p = match ccapke_dec(&sk_i, ctxi) {
        Some(p) => p,
        None => {
            return Err(ProtocolError::PrimitiveFailure);
        },
    };
    if p.len() < 32 {
        return Err(ProtocolError::PrimitiveFailure);
    }
    let ni = sub_bytes(&p, 0, 32);
    let ri = sub_bytes(&p, 32, p.len());
    let k = sha256(&concat_bytes(&ns, &ni));

    let verification1 = comm_vfy(comm_i, &(ni, ri));
    let verification2 = comm_vfy(comm_s, open_s);
    if !(verification1 && verification2) {
        return Err(ProtocolError::CommitmentInvalid);
    }

    let sid = sha256(&k);
    server.set_k(k, i);
    server.set_sid(sid, i);
    Ok(())
}

/// The byte length of a round-1 message: its commitment digest.
pub fn get_m1_length(m1: &(Vec<u8>, u32)) -> (l: usize)
    ensures
        l == m1.0@.len(),
{
    m1.0.len()
}

/// The byte length of a round-2 message, with every ciphertext counted at
/// the length of the first (all slots are equally long in an honest
/// broadcast).
pub fn get_m2_length(m2: &M2Message) -> (l: usize)
    requires
        m2.0.0@.len() > 0,
        m2.0.0@.len() * m2.0.0@[0]@.len() + m2.0.1@.len() + m2.0.2@.len() + m2.1@.len()
            <= usize::MAX,
    ensures
        l == m2.0.0@.len() * m2.0.0@[0]@.len() + m2.0.1@.len() + m2.0.2@.len() + m2.1@.len(),
{
    m2.0.0.len() * m2.0.0[0].len() + m2.0.1.len() + m2.0.2.len() + m2.1.len()
}

/// The byte length of a round-3 message: the same shape as a round-1
/// message.
pub fn get_m3_length(m3: &(Vec<u8>, u32)) -> (l: usize)
    ensures
        l == m3.0@.len(),
{
    get_m1_length(m3)
}

/// The byte length of a round-4 message: seed plus signature.
pub fn get_m4_length(m4: &(Vec<u8>, Vec<u8>)) -> (l: usize)
    requires
        m4.0@.len() + m4.1@.len() <= usize::MAX,
    ensures
        l == m4.0@.len() + m4.1@.len(),
{
    m4.0.len() + m4.1.len()
}

/// The byte length of a round-5 message: final ciphertext plus opening.
pub fn get_m5_length(m5: &(Vec<u8>, (Vec<u8>, Vec<u8>))) -> (l: usize)
    requires
        m5.0@.len() + m5.1.0@.len() + m5.1.1@.len() <= usize::MAX,
    ensures
        l == m5.0@.len() + m5.1.0@.len() + m5.1.1@.len(),
{
    m5.0.len() + m5.1.0.len() + m5.1.1.len()
}

/// Drive one complete handshake for the registered client against the
/// server, delivering each message as the rounds produce it.
///
/// End-to-end agreement: whenever the handshake completes, the session key
/// and session identifier the client derived are byte-identical to the
/// ones the server stored under the client's id, and both equal the hash
/// of the two nonces. An honest transcript is never rejected as a protocol
/// violation: the only failure this sequence can report is a primitive
/// failure.
pub fn run_handshake(server: &mut Server, client: &mut Client, config: &Config) -> (res: Result<
    (),
    ProtocolError,
>)
    requires
        registered(old(server)@, old(client)@, config.spec_users_number()),
        config.spec_users_number() > 0,
    ensures
        match res {
            Ok(done) => {
                let i = old(client)@.id;
                &&& final(server)@.k.contains_key(i)
                &&& final(server)@.sid.contains_key(i)
                &&& final(client)@.k == final(server)@.k[i]
                &&& final(client)@.sid == final(server)@.sid[i]
                &&& final(client)@.k == session_key_of(final(client)@.ns, final(client)@.ni)
                &&& final(client)@.sid == sha256_of(final(client)@.k)
            },
            Err(e) => e == ProtocolError::PrimitiveFailure,
        },
{
    let ghost n = config.spec_users_number();
    let ghost s0 = old(server)@;
    let ghost c0 = old(client)@;
    let id = client.get_id();

    let m1 = round_1(client);
    let ghost c1 = client@;
    client.send_m1(m1, server);

    let m2 = match round_2(server, config, id) {
        Ok(x) => x,
        Err(e) => {
            return Err(e);
        },
    };
    let ghost s2 = server@;
    let ghost ns_srv = s2.ns[id];
    let ghost m2cis = bytes_views(m2.0.0@);
    let ghost m2r = m2.0.1@;
    let ghost m2pk = m2.0.2@;
    let ghost m2sig = m2.1@;
    server.send_m2(m2, client);
    let ghost c2 = client@;

    proof {
        assert(c2.pk_s == sig_keypair_pub_of(s0.sig_sk));
        assert(round3_shape_ok(c2));
        assert(round3_sig_ok(c2));
        assert(Some(m2cis[0]) == honest_slot(pubs_of(s0.clients_keys)[0], ns_srv, m2r, 0));
        assert(pubs_of(s0.clients_keys)[0] == s0.clients_keys[0].0);
        assert(pke_enc_spec(pke_keypair_pub_of(c2.ek), ns_srv, prf_of(m2r, ctr_bytes_of(0)))
            == Some(c2.cis[c2.id as int]));
    }

    let m3 = match round_3(client) {
        Ok(x) => x,
        Err(e) => {
            proof {
                assert(false);
            }
            return Err(ProtocolError::PrimitiveFailure);
        },
    };
    let ghost c3 = client@;
    proof {
        assert(c3.ns == ns_srv);
    }
    client.send_m3(m3, server);
    let ghost s3 = server@;

    let m4 = match round_4(server) {
        Ok(x) => x,
        Err(e) => {
            return Err(e);
        },
    };
    let ghost m4r = m4.0@;
    let ghost m4sig = m4.1@;
    server.send_m4(m4, client);
    let ghost c4 = client@;

    proof {
        assert(m4r == m2r);
        assert(round5_shape_ok(c4, n));
        assert(round5_sig_ok(c4));
        assert forall|j: u32| j < n implies Some(c4.cis[j as int]) == honest_slot(
            c4.vks[j as int],
            c4.ns,
            c4.r,
            j,
        ) by {
            assert(Some(m2cis[j as int]) == honest_slot(
                pubs_of(s0.clients_keys)[j as int],
                ns_srv,
                m2r,
                j,
            ));
            assert(c4.vks[j as int] == pubs_of(s0.clients_keys)[j as int]);
        }
        assert(round5_accepts(c4, n));
    }

    let m5 = match round_5(client, config) {
        Ok(x) => x,
        Err(e) => {
            proof {
                assert(e == ProtocolError::PrimitiveFailure);
            }
            return Err(ProtocolError::PrimitiveFailure);
        },
    };
    let ghost c5 = client@;
    let ghost m5ct = m5.0@;
    let ghost m5open = (m5.1.0@, m5.1.1@);
    client.send_m5(m5, server);
    let ghost s5 = server@;

    proof {
        assert(s5.ecies_keys.contains_key(id));
        assert(c4.pk == cca_keypair_pub_of(s5.ecies_keys[id].1));
        assert(cca_plain_of(s5.ecies_keys[id].1, m5ct) == Some(
            c4.commitment.1.0 + c4.commitment.1.1,
        ));
        assert(s5.ctxis[id] == m5ct);
        assert(round6_opening(s5, id) == Some(c4.commitment.1.0 + c4.commitment.1.1));
        assert(c4.commitment.1.0.len() == 32);
        assert((c4.commitment.1.0 + c4.commitment.1.1).len() >= 32);
        assert(round6_material_ok(s5, id));
        assert(round6_value(s5, id) =~= c4.commitment.1.0);
        assert(round6_randomizer(s5, id) =~= c4.commitment.1.1);
        assert(s5.comms[id] == c1.commitment.0);
        assert(comm_accepts(s5.comms[id], round6_value(s5, id), round6_randomizer(s5, id)));
        assert(s5.comms_server[id] == c3.commitment_server.0);
        assert(s5.opens_server[id] == c3.commitment_server.1);
        assert(comm_accepts(s5.comms_server[id], s5.opens_server[id].0, s5.opens_server[id].1));
        assert(round6_accepts(s5, id));
        assert(s5.ns[id] == ns_srv);
        assert(round6_key(s5, id) == session_key_of(ns_srv, c4.ni));
    }

    match round_6(server, id) {
        Ok(done) => {
            proof {
                assert(server@.k[id] == session_key_of(ns_srv, c4.ni));
                assert(client@.k == session_key_of(c4.ns, c4.ni));
            }
            Ok(())
        },
        Err(e) => {
            proof {
                assert(false);
            }
            Err(ProtocolError::PrimitiveFailure)
        },
    }
}

/// Anonymity of the consistency check: the round-5 acceptance predicate
/// reads only the broadcast data that every client receives identically —
/// two clients that received the same broadcast, whatever their ids and
/// secret keys, accept or reject together.
pub proof fn lemma_round5_check_anonymous(a: ClientView, b: ClientView, n: u32)
    requires
        a.vks == b.vks,
        a.cis == b.cis,
        a.r == b.r,
        a.ns == b.ns,
        a.pk_s == b.pk_s,
        a.signature4 == b.signature4,
    ensures
        round5_accepts(a, n) == round5_accepts(b, n),
{
}

/// Tamper detection: if a client passes the round-5 check on a broadcast,
/// then the same client with one byte of any slot `j` changed fails it.
pub proof fn lemma_tamper_detected(c: ClientView, t: ClientView, n: u32, j: u32, p: int)
    requires
        round5_accepts(c, n),
        j < n,
        t == (ClientView { cis: t.cis, ..c }),
        t.cis.len() == c.cis.len(),
        forall|u: int| 0 <= u < c.cis.len() && u != j ==> t.cis[u] == c.cis[u],
        t.cis[j as int].len() == c.cis[j as int].len(),
        0 <= p < c.cis[j as int].len(),
        t.cis[j as int][p] != c.cis[j as int][p],
    ensures
        !round5_accepts(t, n),
{
    assert(t.cis[j as int] != c.cis[j as int]);
    assert(Some(c.cis[j as int]) == honest_slot(c.vks[j as int], c.ns, c.r, j));
    assert(Some(t.cis[j as int]) != honest_slot(t.vks[j as int], t.ns, t.r, j));
}

/// Equivocation detection: an opening whose recovered value and randomizer
/// do not hash to the round-1 commitment is rejected in round 6, and so is
/// a round-5 opening that does not match the round-3 commitment.
pub proof fn lemma_equivocation_detected(s: ServerView, i: u32)
    requires
        round6_material_ok(s, i),
    ensures
        s.comms[i] != commit_digest(round6_value(s, i), round6_randomizer(s, i))
            ==> !round6_accepts(s, i),
        s.comms_server[i] != commit_digest(s.opens_server[i].0, s.opens_server[i].1)
            ==> !round6_accepts(s, i),
{
}

} // verus!
