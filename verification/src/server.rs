//! Server state: the registered credential pool and the per-client material
//! accumulated while handshakes run.
//!
//! The per-client material lives in maps keyed by client id, so distinct
//! client handshakes never contend on the same entry.

use std::collections::HashMap;
use vstd::prelude::*;

use crate::client::{opening_view, Client};
use crate::protocol::M2Message;
use crate::sig::{sig_gen, sig_keypair_pub_of};
use crate::utils::{bytes_views, clone_bytes, clone_bytes_list};

verus! {

broadcast use vstd::std_specs::hash::group_hash_axioms;

/// The byte strings held by a map of byte vectors.
pub open spec fn bytes_map(m: Map<u32, Vec<u8>>) -> Map<u32, Seq<u8>> {
    m.map_values(|v: Vec<u8>| v@)
}

/// The byte-string pairs held by a map of vector pairs.
pub open spec fn pair_map(m: Map<u32, (Vec<u8>, Vec<u8>)>) -> Map<u32, (Seq<u8>, Seq<u8>)> {
    m.map_values(|p: (Vec<u8>, Vec<u8>)| (p.0@, p.1@))
}

/// The byte-string pairs held by a list of vector pairs.
pub open spec fn pair_views(s: Seq<(Vec<u8>, Vec<u8>)>) -> Seq<(Seq<u8>, Seq<u8>)> {
    s.map_values(|p: (Vec<u8>, Vec<u8>)| (p.0@, p.1@))
}

/// The mathematical state of the server.
#[verifier::ext_equal]
pub ghost struct ServerView {
    /// Registered `(public, secret)` PKE keypairs, indexed by client id.
    pub clients_keys: Seq<(Seq<u8>, Seq<u8>)>,
    /// Ephemeral `(public, secret)` keypair per handshake slot.
    pub ecies_keys: Map<u32, (Seq<u8>, Seq<u8>)>,
    /// Round-1 client commitments.
    pub comms: Map<u32, Seq<u8>>,
    /// Round-3 server-nonce commitments.
    pub comms_server: Map<u32, Seq<u8>>,
    /// Round-5 openings of the server-nonce commitments.
    pub opens_server: Map<u32, (Seq<u8>, Seq<u8>)>,
    /// The per-recipient ciphertext vector of the current round-2 broadcast.
    pub cis: Seq<Seq<u8>>,
    /// The schedule seed of the current round-2 broadcast.
    pub r: Seq<u8>,
    /// Per-handshake server nonces.
    pub ns: Map<u32, Seq<u8>>,
    /// Derived session keys.
    pub k: Map<u32, Seq<u8>>,
    /// Round-5 final ciphertexts.
    pub ctxis: Map<u32, Seq<u8>>,
    /// Long-term signature public key.
    pub sig_pk: Seq<u8>,
    /// Long-term signature secret key.
    pub sig_sk: Seq<u8>,
    /// Derived session identifiers.
    pub sid: Map<u32, Seq<u8>>,
}

/// The server record: registered keys, the long-term signing keypair, and
/// per-client maps filled lazily as each round executes.
pub struct Server {
    clients_keys: Vec<(Vec<u8>, Vec<u8>)>,
    ecies_keys: HashMap<u32, (Vec<u8>, Vec<u8>)>,
    comms: HashMap<u32, Vec<u8>>,
    comms_server: HashMap<u32, Vec<u8>>,
    opens_server: HashMap<u32, (Vec<u8>, Vec<u8>)>,
    cis: Vec<Vec<u8>>,
    r: Vec<u8>,
    ns: HashMap<u32, Vec<u8>>,
    k: HashMap<u32, Vec<u8>>,
    ctxis: HashMap<u32, Vec<u8>>,
    signature_keys: (Vec<u8>, Vec<u8>),
    sid: HashMap<u32, Vec<u8>>,
}

impl View for Server {
    type V = ServerView;

    closed spec fn view(&self) -> ServerView {
        ServerView {
            clients_keys: pair_views(self.clients_keys@),
            ecies_keys: pair_map(self.ecies_keys@),
            comms: bytes_map(self.comms@),
            comms_server: bytes_map(self.comms_server@),
            opens_server: pair_map(self.opens_server@),
            cis: bytes_views(self.cis@),
            r: self.r@,
            ns: bytes_map(self.ns@),
            k: bytes_map(self.k@),
            ctxis: bytes_map(self.ctxis@),
            sig_pk: self.signature_keys.0@,
            sig_sk: self.signature_keys.1@,
            sid: bytes_map(self.sid@),
        }
    }
}

impl Server {
    /// A fresh server with a newly drawn long-term signing keypair and no
    /// registered clients.
    pub fn new() -> (s: Server)
        ensures
            s@ == (ServerView {
                clients_keys: Seq::empty(),
                ecies_keys: Map::empty(),
                comms: Map::empty(),
                comms_server: Map::empty(),
                opens_server: Map::empty(),
                cis: Seq::empty(),
                r: Seq::empty(),
                ns: Map::empty(),
                k: Map::empty(),
                ctxis: Map::empty(),
                sig_pk: s@.sig_pk,
                sig_sk: s@.sig_sk,
                sid: Map::empty(),
            }),
            s@.sig_pk == sig_keypair_pub_of(s@.sig_sk),
            s@.sig_pk.len() == 33,
            s@.sig_sk.len() == 32,
    {
        let (pk_sig, sk_sig) = sig_gen();
        let s = Server {
            clients_keys: Vec::new(),
            ecies_keys: HashMap::new(),
            comms: HashMap::new(),
            comms_server: HashMap::new(),
            opens_server: HashMap::new(),
            cis: Vec::new(),
            r: Vec::new(),
            ns: HashMap::new(),
            k: HashMap::new(),
            ctxis: HashMap::new(),
            signature_keys: (pk_sig, sk_sig),
            sid: HashMap::new(),
        };
        proof {
            assert(pair_views(s.clients_keys@) =~= Seq::<(Seq<u8>, Seq<u8>)>::empty());
            assert(bytes_views(s.cis@) =~= Seq::<Seq<u8>>::empty());
            assert(pair_map(s.ecies_keys@) =~= Map::<u32, (Seq<u8>, Seq<u8>)>::empty());
            assert(bytes_map(s.comms@) =~= Map::<u32, Seq<u8>>::empty());
            assert(bytes_map(s.comms_server@) =~= Map::<u32, Seq<u8>>::empty());
            assert(pair_map(s.opens_server@) =~= Map::<u32, (Seq<u8>, Seq<u8>)>::empty());
            assert(bytes_map(s.ns@) =~= Map::<u32, Seq<u8>>::empty());
            assert(bytes_map(s.k@) =~= Map::<u32, Seq<u8>>::empty());
            assert(bytes_map(s.ctxis@) =~= Map::<u32, Seq<u8>>::empty());
            assert(bytes_map(s.sid@) =~= Map::<u32, Seq<u8>>::empty());
        }
        s
    }

    /// Record a round-1 message: store the commitment under the sender's id.
    pub fn receive_m1(&mut self, m1: (Vec<u8>, u32))
        ensures
            final(self)@ == (ServerView {
                comms: old(self)@.comms.insert(m1.1, m1.0@),
                ..old(self)@
            }),
    {
        let (comm, id) = m1;
        self.add_commitment(comm, id);
    }

    fn add_commitment(&mut self, comm: Vec<u8>, id: u32)
        ensures
            final(self)@ == (ServerView {
                comms: old(self)@.comms.insert(id, comm@),
                ..old(self)@
            }),
    {
        let ghost m = self.comms@;
        self.comms.insert(id, comm);
        proof {
            assert(bytes_map(m.insert(id, comm)) =~= bytes_map(m).insert(id, comm@));
        }
    }

    fn add_commitment_server(&mut self, comm: Vec<u8>, id: u32)
        ensures
            final(self)@ == (ServerView {
                comms_server: old(self)@.comms_server.insert(id, comm@),
                ..old(self)@
            }),
    {
        let ghost m = self.comms_server@;
        self.comms_server.insert(id, comm);
        proof {
            assert(bytes_map(m.insert(id, comm)) =~= bytes_map(m).insert(id, comm@));
        }
    }

    /// Store the round-5 opening of the server-nonce commitment.
    pub fn add_open_server(&mut self, open: (Vec<u8>, Vec<u8>), id: u32)
        ensures
            final(self)@ == (ServerView {
                opens_server: old(self)@.opens_server.insert(id, opening_view(open)),
                ..old(self)@
            }),
    {
        let ghost m = self.opens_server@;
        let ghost o = open;
        self.opens_server.insert(id, open);
        proof {
            assert(pair_map(m.insert(id, o)) =~= pair_map(m).insert(id, opening_view(o)));
        }
    }

    /// The ephemeral keypair created for the handshake slot `index`, if any.
    pub fn get_kem_keypair(&self, index: u32) -> (r: Option<(Vec<u8>, Vec<u8>)>)
        ensures
            match r {
                Some(p) => self@.ecies_keys.contains_key(index) && (p.0@, p.1@)
                    == self@.ecies_keys[index],
                None => !self@.ecies_keys.contains_key(index),
            },
    {
        match self.ecies_keys.get(&index) {
            Some(p) => Some((clone_bytes(&p.0), clone_bytes(&p.1))),
            None => None,
        }
    }

    /// Store the ephemeral keypair for the handshake slot `index`.
    pub fn set_ecies_keypair(&mut self, keys: (Vec<u8>, Vec<u8>), index: u32)
        ensures
            final(self)@ == (ServerView {
                ecies_keys: old(self)@.ecies_keys.insert(index, opening_view(keys)),
                ..old(self)@
            }),
    {
        let ghost m = self.ecies_keys@;
        let ghost p = keys;
        self.ecies_keys.insert(index, keys);
        proof {
            assert(pair_map(m.insert(index, p)) =~= pair_map(m).insert(index, opening_view(p)));
        }
    }

    /// Append a registered client keypair; its index is the client's id.
    pub fn add_key(&mut self, key: (Vec<u8>, Vec<u8>))
        ensures
            final(self)@ == (ServerView {
                clients_keys: old(self)@.clients_keys.push(opening_view(key)),
                ..old(self)@
            }),
    {
        let ghost s = self.clients_keys@;
        let ghost p = key;
        self.clients_keys.push(key);
        proof {
            assert(pair_views(s.push(p)) =~= pair_views(s).push(opening_view(p)));
        }
    }

    pub fn get_clients_keys(&self) -> (r: Vec<(Vec<u8>, Vec<u8>)>)
        ensures
            pair_views(r@) == self@.clients_keys,
    {
        let mut r: Vec<(Vec<u8>, Vec<u8>)> = Vec::new();
        let mut i: usize = 0;
        while i < self.clients_keys.len()
            invariant
                i <= self.clients_keys@.len(),
                r@.len() == i,
                forall|j: int|
                    0 <= j < i ==> (r@[j].0@, r@[j].1@) == (
                        self.clients_keys@[j].0@,
                        self.clients_keys@[j].1@,
                    ),
            decreases self.clients_keys@.len() - i,
        {
            let p = (clone_bytes(&self.clients_keys[i].0), clone_bytes(&self.clients_keys[i].1));
            r.push(p);
            i += 1;
        }
        proof {
            assert(pair_views(r@) =~= pair_views(self.clients_keys@));
        }
        r
    }

    pub fn get_ctxis(&self) -> (r: HashMap<u32, Vec<u8>>)
        ensures
            bytes_map(r@) == self@.ctxis,
    {
        self.ctxis.clone()
    }

    pub fn get_comms(&self) -> (r: HashMap<u32, Vec<u8>>)
        ensures
            bytes_map(r@) == self@.comms,
    {
        self.comms.clone()
    }

    pub fn get_comms_server(&self) -> (r: HashMap<u32, Vec<u8>>)
        ensures
            bytes_map(r@) == self@.comms_server,
    {
        self.comms_server.clone()
    }

    pub fn get_opens_server(&self) -> (r: HashMap<u32, (Vec<u8>, Vec<u8>)>)
        ensures
            pair_map(r@) == self@.opens_server,
    {
        self.opens_server.clone()
    }

    /// Store the server nonce for the handshake slot `index`.
    pub fn set_ns(&mut self, index: u32, ns: Vec<u8>)
        ensures
            final(self)@ == (ServerView { ns: old(self)@.ns.insert(index, ns@), ..old(self)@ }),
    {
        let ghost m = self.ns@;
        let ghost v = ns;
        self.ns.insert(index, ns);
        proof {
            assert(bytes_map(m.insert(index, v)) =~= bytes_map(m).insert(index, v@));
        }
    }

    fn set_ctxi(&mut self, ctxi: Vec<u8>, id: u32)
        ensures
            final(self)@ == (ServerView {
                ctxis: old(self)@.ctxis.insert(id, ctxi@),
                ..old(self)@
            }),
    {
        let ghost m = self.ctxis@;
        let ghost v = ctxi;
        self.ctxis.insert(id, ctxi);
        proof {
            assert(bytes_map(m.insert(id, v)) =~= bytes_map(m).insert(id, v@));
        }
    }

    /// Store the derived session key for the handshake slot `index`.
    pub fn set_k(&mut self, key: Vec<u8>, index: u32)
        ensures
            final(self)@ == (ServerView { k: old(self)@.k.insert(index, key@), ..old(self)@ }),
    {
        let ghost m = self.k@;
        let ghost v = key;
        self.k.insert(index, key);
        proof {
            assert(bytes_map(m.insert(index, v)) =~= bytes_map(m).insert(index, v@));
        }
    }

    /// Store the derived session identifier for the handshake slot `index`.
    pub fn set_sid(&mut self, sid: Vec<u8>, index: u32)
        ensures
            final(self)@ == (ServerView {
                sid: old(self)@.sid.insert(index, sid@),
                ..old(self)@
            }),
    {
        let ghost m = self.sid@;
        let ghost v = sid;
        self.sid.insert(index, sid);
        proof {
            assert(bytes_map(m.insert(index, v)) =~= bytes_map(m).insert(index, v@));
        }
    }

    /// The session key stored for `index`, if any.
    pub fn get_key(&self, index: u32) -> (r: Option<Vec<u8>>)
        ensures
            match r {
                Some(v) => self@.k.contains_key(index) && v@ == self@.k[index],
                None => !self@.k.contains_key(index),
            },
    {
        match self.k.get(&index) {
            Some(v) => Some(clone_bytes(v)),
            None => None,
        }
    }

    /// The session identifier stored for `index`, if any.
    pub fn get_sid(&self, index: u32) -> (r: Option<Vec<u8>>)
        ensures
            match r {
                Some(v) => self@.sid.contains_key(index) && v@ == self@.sid[index],
                None => !self@.sid.contains_key(index),
            },
    {
        match self.sid.get(&index) {
            Some(v) => Some(clone_bytes(v)),
            None => None,
        }
    }

    /// The server nonce stored for `index`, if any.
    pub fn get_ns(&self, index: u32) -> (r: Option<Vec<u8>>)
        ensures
            match r {
                Some(v) => self@.ns.contains_key(index) && v@ == self@.ns[index],
                None => !self@.ns.contains_key(index),
            },
    {
        match self.ns.get(&index) {
            Some(v) => Some(clone_bytes(v)),
            None => None,
        }
    }

    pub fn get_sig_keypair(&self) -> (r: (Vec<u8>, Vec<u8>))
        ensures
            r.0@ == self@.sig_pk,
            r.1@ == self@.sig_sk,
    {
        (clone_bytes(&self.signature_keys.0), clone_bytes(&self.signature_keys.1))
    }

    pub fn get_sig_pk(&self) -> (r: Vec<u8>)
        ensures
            r@ == self@.sig_pk,
    {
        clone_bytes(&self.signature_keys.0)
    }

    /// Retain the current broadcast: its ciphertext vector and schedule seed.
    pub fn add_proofs_and_ciphertexts(&mut self, cis: &Vec<Vec<u8>>, r: &Vec<u8>)
        ensures
            final(self)@ == (ServerView {
                cis: bytes_views(cis@),
                r: r@,
                ..old(self)@
            }),
    {
        self.cis = clone_bytes_list(cis);
        self.r = clone_bytes(r);
    }

    pub fn get_r(&self) -> (r: Vec<u8>)
        ensures
            r@ == self@.r,
    {
        clone_bytes(&self.r)
    }

    pub fn get_cis(&self) -> (r: Vec<Vec<u8>>)
        ensures
            bytes_views(r@) == self@.cis,
    {
        clone_bytes_list(&self.cis)
    }

    /// Deliver the round-2 broadcast to a client.
    pub fn send_m2(&self, m2: M2Message, client: &mut Client)
        ensures
            final(client)@ == (crate::client::ClientView {
                cis: bytes_views(m2.0.0@),
                r: m2.0.1@,
                pk: m2.0.2@,
                signature2: m2.1@,
                ..old(client)@
            }),
    {
        client.receive_m2(m2);
    }

    /// Record a round-3 message: store the server-nonce commitment under the
    /// sender's id.
    pub fn receive_m3(&mut self, m3: (Vec<u8>, u32))
        ensures
            final(self)@ == (ServerView {
                comms_server: old(self)@.comms_server.insert(m3.1, m3.0@),
                ..old(self)@
            }),
    {
        let (comm_s, id) = m3;
        self.add_commitment_server(comm_s, id);
    }

    /// Deliver the round-4 message to a client.
    pub fn send_m4(&self, m4: (Vec<u8>, Vec<u8>), client: &mut Client)
        ensures
            final(client)@ == (crate::client::ClientView {
                r: m4.0@,
                signature4: m4.1@,
                ..old(client)@
            }),
    {
        client.receive_m4(m4);
    }

    /// A fresh server, as [`Server::new`] builds one.
    pub fn default() -> (s: Server)
        ensures
            s@.clients_keys == Seq::<(Seq<u8>, Seq<u8>)>::empty(),
            s@.k == Map::<u32, Seq<u8>>::empty(),
            s@.sig_pk == sig_keypair_pub_of(s@.sig_sk),
    {
        Self::new()
    }

    /// Record a round-5 message: store the opening and the final ciphertext
    /// under the sender's id.
    pub fn receive_m5(&mut self, m5: (Vec<u8>, (Vec<u8>, Vec<u8>), u32))
        ensures
            final(self)@ == (ServerView {
                opens_server: old(self)@.opens_server.insert(m5.2, opening_view(m5.1)),
                ctxis: old(self)@.ctxis.insert(m5.2, m5.0@),
                ..old(self)@
            }),
    {
        let (ctxi, open_s, id) = m5;
        self.add_open_server(open_s, id);
        self.set_ctxi(ctxi, id);
    }
}

} // verus!
