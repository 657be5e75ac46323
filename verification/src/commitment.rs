//! Commit-and-open over byte strings, built from the keyed hash.
//!
//! A commitment to a value `x` is the digest `H(r || x)` for a fresh 32-byte
//! randomizer `r`; the opening is the pair `(x, r)`.

use vstd::prelude::*;

use crate::hash::{sha256, sha256_of};
use crate::utils::{check_equal, clone_bytes, concat_bytes, get_random_key32};

verus! {

/// The digest that commits to `x` under the randomizer `r`.
pub open spec fn commit_digest(x: Seq<u8>, r: Seq<u8>) -> Seq<u8> {
    sha256_of(r + x)
}

/// Whether the opening `(x, r)` is accepted against `digest`.
pub open spec fn comm_accepts(digest: Seq<u8>, x: Seq<u8>, r: Seq<u8>) -> bool {
    digest == commit_digest(x, r)
}

/// Commit to `x`: draw a fresh 32-byte randomizer and hash it with `x`.
/// Returns the digest together with the opening `(x, r)`.
pub fn comm(x: &Vec<u8>) -> (res: (Vec<u8>, (Vec<u8>, Vec<u8>)))
    ensures
        res.0@ == commit_digest(x@, res.1.1@),
        res.0@.len() == 32,
        res.1.0@ == x@,
        res.1.1@.len() == 32,
{
    let r = get_random_key32();
    let to_commit = concat_bytes(&r, x);
    let digest = sha256(&to_commit);
    (digest, (clone_bytes(x), r))
}

/// Verify that `open = (x, r)` opens the commitment `c`: recompute the
/// digest and compare bytewise.
pub fn comm_vfy(c: &Vec<u8>, open: &(Vec<u8>, Vec<u8>)) -> (res: bool)
    ensures
        res == comm_accepts(c@, open.0@, open.1@),
{
    let to_commit = concat_bytes(&open.1, &open.0);
    let digest = sha256(&to_commit);
    check_equal(c, &digest)
}

/// Commitment correctness: the digest produced for an opening `(x, r)` is
/// accepted with that opening, and every other digest is rejected.
pub proof fn lemma_commitment_correct(x: Seq<u8>, r: Seq<u8>, other: Seq<u8>)
    ensures
        comm_accepts(commit_digest(x, r), x, r),
        other != commit_digest(x, r) ==> !comm_accepts(other, x, r),
{
}

} // verus!
