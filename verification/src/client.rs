//! Per-client mutable state, accumulated across the six rounds.

use vstd::prelude::*;

use crate::protocol::M2Message;
use crate::server::Server;
use crate::utils::{bytes_views, clone_bytes, clone_bytes_list};

verus! {

/// The opening of a commitment: the committed value and the randomizer.
pub open spec fn opening_view(o: (Vec<u8>, Vec<u8>)) -> (Seq<u8>, Seq<u8>) {
    (o.0@, o.1@)
}

/// A commitment together with its opening.
pub open spec fn commitment_view(c: (Vec<u8>, (Vec<u8>, Vec<u8>))) -> (Seq<u8>, (Seq<u8>, Seq<u8>)) {
    (c.0@, (c.1.0@, c.1.1@))
}

/// The mathematical state of a client.
#[verifier::ext_equal]
pub ghost struct ClientView {
    pub id: u32,
    pub ek: Seq<u8>,
    pub ni: Seq<u8>,
    pub vks: Seq<Seq<u8>>,
    pub commitment: (Seq<u8>, (Seq<u8>, Seq<u8>)),
    pub commitment_server: (Seq<u8>, (Seq<u8>, Seq<u8>)),
    pub cis: Seq<Seq<u8>>,
    pub ri: Seq<u8>,
    pub r: Seq<u8>,
    pub pk: Seq<u8>,
    pub k: Seq<u8>,
    pub ns: Seq<u8>,
    pub signature2: Seq<u8>,
    pub signature4: Seq<u8>,
    pub pk_s: Seq<u8>,
    pub sid: Seq<u8>,
}

/// A registered client: its id, its own decryption key, the full
/// public-key vector, the pinned server signature key, and the material
/// accumulated round by round.
pub struct Client {
    id: u32,
    ek: Vec<u8>,
    ni: Vec<u8>,
    vks: Vec<Vec<u8>>,
    commitment: (Vec<u8>, (Vec<u8>, Vec<u8>)),
    commitment_server: (Vec<u8>, (Vec<u8>, Vec<u8>)),
    cis: Vec<Vec<u8>>,
    ri: Vec<u8>,
    r: Vec<u8>,
    pk: Vec<u8>,
    k: Vec<u8>,
    ns: Vec<u8>,
    signature2: Vec<u8>,
    signature4: Vec<u8>,
    pk_s: Vec<u8>,
    sid: Vec<u8>,
}

impl View for Client {
    type V = ClientView;

    closed spec fn view(&self) -> ClientView {
        ClientView {
            id: self.id,
            ek: self.ek@,
            ni: self.ni@,
            vks: bytes_views(self.vks@),
            commitment: commitment_view(self.commitment),
            commitment_server: commitment_view(self.commitment_server),
            cis: bytes_views(self.cis@),
            ri: self.ri@,
            r: self.r@,
            pk: self.pk@,
            k: self.k@,
            ns: self.ns@,
            signature2: self.signature2@,
            signature4: self.signature4@,
            pk_s: self.pk_s@,
            sid: self.sid@,
        }
    }
}

impl Clone for Client {
    /// Cloning a client snapshots all of its fields, so simulated
    /// handshakes can branch from one registered state.
    fn clone(&self) -> (res: Client)
        ensures
            res@ == self@,
    {
        Client {
            id: self.id,
            ek: clone_bytes(&self.ek),
            ni: clone_bytes(&self.ni),
            vks: clone_bytes_list(&self.vks),
            commitment: (
                clone_bytes(&self.commitment.0),
                (clone_bytes(&self.commitment.1.0), clone_bytes(&self.commitment.1.1)),
            ),
            commitment_server: (
                clone_bytes(&self.commitment_server.0),
                (
                    clone_bytes(&self.commitment_server.1.0),
                    clone_bytes(&self.commitment_server.1.1),
                ),
            ),
            cis: clone_bytes_list(&self.cis),
            ri: clone_bytes(&self.ri),
            r: clone_bytes(&self.r),
            pk: clone_bytes(&self.pk),
            k: clone_bytes(&self.k),
            ns: clone_bytes(&self.ns),
            signature2: clone_bytes(&self.signature2),
            signature4: clone_bytes(&self.signature4),
            pk_s: clone_bytes(&self.pk_s),
            sid: clone_bytes(&self.sid),
        }
    }
}

impl Client {
    /// A fresh client with the given id and no accumulated material.
    pub fn new(id: u32) -> (c: Client)
        ensures
            c@ == (ClientView {
                id,
                ek: Seq::empty(),
                ni: Seq::empty(),
                vks: Seq::empty(),
                commitment: (Seq::empty(), (Seq::empty(), Seq::empty())),
                commitment_server: (Seq::empty(), (Seq::empty(), Seq::empty())),
                cis: Seq::empty(),
                ri: Seq::empty(),
                r: Seq::empty(),
                pk: Seq::empty(),
                k: Seq::empty(),
                ns: Seq::empty(),
                signature2: Seq::empty(),
                signature4: Seq::empty(),
                pk_s: Seq::empty(),
                sid: Seq::empty(),
            }),
    {
        let c = Client {
            id,
            ek: Vec::new(),
            ni: Vec::new(),
            vks: Vec::new(),
            commitment: (Vec::new(), (Vec::new(), Vec::new())),
            commitment_server: (Vec::new(), (Vec::new(), Vec::new())),
            cis: Vec::new(),
            ri: Vec::new(),
            r: Vec::new(),
            pk: Vec::new(),
            k: Vec::new(),
            ns: Vec::new(),
            signature2: Vec::new(),
            signature4: Vec::new(),
            pk_s: Vec::new(),
            sid: Vec::new(),
        };
        proof {
            assert(bytes_views(c.vks@) =~= Seq::<Seq<u8>>::empty());
            assert(bytes_views(c.cis@) =~= Seq::<Seq<u8>>::empty());
        }
        c
    }

    pub fn set_ek(&mut self, ek: Vec<u8>)
        ensures
            final(self)@ == (ClientView { ek: ek@, ..old(self)@ }),
    {
        self.ek = ek;
    }

    pub fn set_vks(&mut self, vks: Vec<Vec<u8>>)
        ensures
            final(self)@ == (ClientView { vks: bytes_views(vks@), ..old(self)@ }),
    {
        self.vks = vks;
    }

    pub fn set_ni(&mut self, ni: &[u8])
        ensures
            final(self)@ == (ClientView { ni: ni@, ..old(self)@ }),
    {
        self.ni = clone_bytes(ni);
    }

    pub fn set_ns(&mut self, ns: &[u8])
        ensures
            final(self)@ == (ClientView { ns: ns@, ..old(self)@ }),
    {
        self.ns = clone_bytes(ns);
    }

    pub fn set_commitment(&mut self, commitment: (Vec<u8>, (Vec<u8>, Vec<u8>)))
        ensures
            final(self)@ == (ClientView { commitment: commitment_view(commitment), ..old(self)@ }),
    {
        self.commitment = commitment;
    }

    pub fn set_commitment_server(&mut self, commitment: (Vec<u8>, (Vec<u8>, Vec<u8>)))
        ensures
            final(self)@ == (ClientView {
                commitment_server: commitment_view(commitment),
                ..old(self)@
            }),
    {
        self.commitment_server = commitment;
    }

    /// Store the derived session key.
    pub fn set_k(&mut self, k: Vec<u8>)
        ensures
            final(self)@ == (ClientView { k: k@, ..old(self)@ }),
    {
        self.k = k;
    }

    /// Store the derived session identifier.
    pub fn set_sid(&mut self, sid: Vec<u8>)
        ensures
            final(self)@ == (ClientView { sid: sid@, ..old(self)@ }),
    {
        self.sid = sid;
    }

    pub fn set_pk(&mut self, pk: Vec<u8>)
        ensures
            final(self)@ == (ClientView { pk: pk@, ..old(self)@ }),
    {
        self.pk = pk;
    }

    pub fn set_pks(&mut self, pk_s: Vec<u8>)
        ensures
            final(self)@ == (ClientView { pk_s: pk_s@, ..old(self)@ }),
    {
        self.pk_s = pk_s;
    }

    pub fn get_ek(&self) -> (r: Vec<u8>)
        ensures
            r@ == self@.ek,
    {
        clone_bytes(&self.ek)
    }

    pub fn get_sid(&self) -> (r: Vec<u8>)
        ensures
            r@ == self@.sid,
    {
        clone_bytes(&self.sid)
    }

    pub fn get_signature4(&self) -> (r: Vec<u8>)
        ensures
            r@ == self@.signature4,
    {
        clone_bytes(&self.signature4)
    }

    pub fn get_key(&self) -> (r: Vec<u8>)
        ensures
            r@ == self@.k,
    {
        clone_bytes(&self.k)
    }

    pub fn get_pk(&self) -> (r: Vec<u8>)
        ensures
            r@ == self@.pk,
    {
        clone_bytes(&self.pk)
    }

    pub fn get_pks(&self) -> (r: Vec<u8>)
        ensures
            r@ == self@.pk_s,
    {
        clone_bytes(&self.pk_s)
    }

    pub fn get_ni(&self) -> (r: Vec<u8>)
        ensures
            r@ == self@.ni,
    {
        clone_bytes(&self.ni)
    }

    pub fn get_ns(&self) -> (r: Vec<u8>)
        ensures
            r@ == self@.ns,
    {
        clone_bytes(&self.ns)
    }

    pub fn get_r(&self) -> (r: Vec<u8>)
        ensures
            r@ == self@.r,
    {
        clone_bytes(&self.r)
    }

    pub fn get_cis(&self) -> (r: Vec<Vec<u8>>)
        ensures
            bytes_views(r@) == self@.cis,
    {
        clone_bytes_list(&self.cis)
    }

    pub fn get_ri(&self) -> (r: Vec<u8>)
        ensures
            r@ == self@.ri,
    {
        clone_bytes(&self.ri)
    }

    pub fn get_commitment(&self) -> (r: (Vec<u8>, (Vec<u8>, Vec<u8>)))
        ensures
            commitment_view(r) == self@.commitment,
    {
        (
            clone_bytes(&self.commitment.0),
            (clone_bytes(&self.commitment.1.0), clone_bytes(&self.commitment.1.1)),
        )
    }

    pub fn get_commitment_server(&self) -> (r: (Vec<u8>, (Vec<u8>, Vec<u8>)))
        ensures
            commitment_view(r) == self@.commitment_server,
    {
        (
            clone_bytes(&self.commitment_server.0),
            (clone_bytes(&self.commitment_server.1.0), clone_bytes(&self.commitment_server.1.1)),
        )
    }

    pub fn get_vks(&self) -> (r: Vec<Vec<u8>>)
        ensures
            bytes_views(r@) == self@.vks,
    {
        clone_bytes_list(&self.vks)
    }

    pub fn get_id(&self) -> (r: u32)
        ensures
            r == self@.id,
    {
        self.id
    }

    /// Deliver the round-1 message to the server.
    pub fn send_m1(&self, m1: (Vec<u8>, u32), server: &mut Server)
        ensures
            final(server)@ == (crate::server::ServerView {
                comms: old(server)@.comms.insert(m1.1, m1.0@),
                ..old(server)@
            }),
    {
        server.receive_m1(m1);
    }

    /// Deliver the round-3 message to the server, under this client's id.
    pub fn send_m3(&self, m3: (Vec<u8>, u32), server: &mut Server)
        ensures
            final(server)@ == (crate::server::ServerView {
                comms_server: old(server)@.comms_server.insert(self@.id, m3.0@),
                ..old(server)@
            }),
    {
        let (comm_s, _) = m3;
        server.receive_m3((comm_s, self.get_id()));
    }

    /// Deliver the round-5 message to the server, under this client's id.
    pub fn send_m5(&self, m5: (Vec<u8>, (Vec<u8>, Vec<u8>)), server: &mut Server)
        ensures
            final(server)@ == (crate::server::ServerView {
                opens_server: old(server)@.opens_server.insert(self@.id, opening_view(m5.1)),
                ctxis: old(server)@.ctxis.insert(self@.id, m5.0@),
                ..old(server)@
            }),
    {
        let (ctxi, open_s) = m5;
        server.receive_m5((ctxi, open_s, self.get_id()));
    }

    /// Record the round-2 broadcast: ciphertext vector, schedule seed,
    /// ephemeral server public key, and the server's signature over them.
    pub fn receive_m2(&mut self, m2: M2Message)
        ensures
            final(self)@ == (ClientView {
                cis: bytes_views(m2.0.0@),
                r: m2.0.1@,
                pk: m2.0.2@,
                signature2: m2.1@,
                ..old(self)@
            }),
    {
        let ((cis, r, pk), signature2) = m2;
        self.cis = cis;
        self.r = r;
        self.pk = pk;
        self.signature2 = signature2;
    }

    pub fn get_m2_info(&self) -> (r: (Vec<Vec<u8>>, Vec<u8>, Vec<u8>, Vec<u8>))
        ensures
            bytes_views(r.0@) == self@.cis,
            r.1@ == self@.r,
            r.2@ == self@.pk,
            r.3@ == self@.signature2,
    {
        (
            clone_bytes_list(&self.cis),
            clone_bytes(&self.r),
            clone_bytes(&self.pk),
            clone_bytes(&self.signature2),
        )
    }

    /// Record the round-4 message: the schedule seed and the server's
    /// signature over it.
    pub fn receive_m4(&mut self, m4: (Vec<u8>, Vec<u8>))
        ensures
            final(self)@ == (ClientView { r: m4.0@, signature4: m4.1@, ..old(self)@ }),
    {
        let (r, signature4) = m4;
        self.r = r;
        self.signature4 = signature4;
    }
}

} // verus!
