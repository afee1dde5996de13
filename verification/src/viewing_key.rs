use vstd::prelude::*;

use crate::assoc::AssocMap;
use crate::crypto::ct_eq;
use crate::crypto::hash_bytes;
use crate::crypto::sha256_of;
use crate::crypto::zero_hash;
use crate::crypto::zero_hash_bytes;
use crate::identity::Identity;

verus! {

/// Per-caller viewing keys, stored only as hashes.
///
/// A caller's state moves one way, from no key to a stored key hash;
/// setting a key again only overwrites the hash.  The plaintext secret
/// is never stored.
pub struct Authenticator {
    keys: AssocMap<Vec<u8>>,
}

/// What a key check compares a candidate against: the stored hash for
/// the caller, or the all-zero sentinel when no key was ever set, so
/// that both paths do the same work.
pub open spec fn stored_hash(keys: Map<Seq<u8>, Seq<u8>>, caller: Seq<u8>) -> Seq<u8> {
    if keys.contains_key(caller) {
        keys[caller]
    } else {
        zero_hash()
    }
}

/// Whether `candidate` authenticates `caller` against the stored key
/// hashes: its digest must equal the stored one exactly.
pub open spec fn spec_validate(
    keys: Map<Seq<u8>, Seq<u8>>,
    caller: Seq<u8>,
    candidate: Seq<u8>,
) -> bool {
    sha256_of(candidate) == stored_hash(keys, caller)
}

/// The key table after `caller` sets `key`.
pub open spec fn spec_set_key(
    keys: Map<Seq<u8>, Seq<u8>>,
    caller: Seq<u8>,
    key: Seq<u8>,
) -> Map<Seq<u8>, Seq<u8>> {
    keys.insert(caller, sha256_of(key))
}

/// The secret a key-creation call derives: the digest of the
/// process-wide seed, the caller, the block height and time, and the
/// caller-supplied entropy, so that no two of those give the same
/// input.
pub open spec fn derive_secret(
    seed: Seq<u8>,
    caller: Seq<u8>,
    entropy: Seq<u8>,
    block_height: u64,
    block_time: u64,
) -> Seq<u8> {
    sha256_of(
        seed + caller + vstd::bytes::spec_u64_to_le_bytes(block_height)
            + vstd::bytes::spec_u64_to_le_bytes(block_time) + entropy,
    )
}

/// Appends every byte of `src` to `dst`.
fn append_bytes(dst: &mut Vec<u8>, src: &Vec<u8>)
    requires
        old(dst)@.len() + src@.len() <= usize::MAX,
    ensures
        final(dst)@ == old(dst)@ + src@,
{
    let n = src.len();
    let mut i: usize = 0;
    while i < n
        invariant
            n == src@.len(),
            0 <= i <= n,
            dst@.len() == old(dst)@.len() + i,
            dst@ == old(dst)@ + src@.subrange(0, i as int),
        decreases n - i,
    {
        dst.push(src[i]);
        proof {
            assert(dst@ =~= old(dst)@ + src@.subrange(0, i + 1));
        }
        i += 1;
    }
    proof {
        assert(src@.subrange(0, n as int) =~= src@);
    }
}

impl View for Authenticator {
    type V = Map<Seq<u8>, Seq<u8>>;

    closed spec fn view(&self) -> Map<Seq<u8>, Seq<u8>> {
        self.keys@
    }
}

impl Authenticator {
    pub closed spec fn wf(&self) -> bool {
        self.keys.wf()
    }

    /// A table with no keys set.
    pub fn new() -> (r: Authenticator)
        ensures
            r.wf(),
            r@ == Map::<Seq<u8>, Seq<u8>>::empty(),
    {
        Authenticator { keys: AssocMap::new() }
    }

    /// Stores the hash of a caller-chosen secret under the caller,
    /// overwriting any prior key.
    pub fn set_key(&mut self, caller: &Identity, key: &Vec<u8>)
        requires
            old(self).wf(),
        ensures
            final(self).wf(),
            final(self)@ == spec_set_key(old(self)@, caller@, key@),
    {
        let hashed = hash_bytes(key.as_slice());
        let owner = vstd::slice::slice_to_vec(caller.as_bytes().as_slice());
        self.keys.set(owner, hashed);
    }

    /// Derives a fresh secret from the process-wide seed, the caller,
    /// the supplied entropy and the block context, stores its hash
    /// under the caller, and returns the plaintext secret — the only
    /// time it is ever disclosed.
    pub fn create_key(
        &mut self,
        seed: &Vec<u8>,
        caller: &Identity,
        entropy: &Vec<u8>,
        block_height: u64,
        block_time: u64,
    ) -> (secret: Vec<u8>)
        requires
            old(self).wf(),
            seed@.len() + caller@.len() + entropy@.len() + 16 <= usize::MAX,
        ensures
            final(self).wf(),
            secret@ == derive_secret(seed@, caller@, entropy@, block_height, block_time),
            final(self)@ == spec_set_key(
                old(self)@,
                caller@,
                derive_secret(seed@, caller@, entropy@, block_height, block_time),
            ),
    {
        let mut material: Vec<u8> = Vec::new();
        append_bytes(&mut material, seed);
        append_bytes(&mut material, caller.as_bytes());
        let height_bytes = vstd::bytes::u64_to_le_bytes(block_height);
        append_bytes(&mut material, &height_bytes);
        let time_bytes = vstd::bytes::u64_to_le_bytes(block_time);
        append_bytes(&mut material, &time_bytes);
        append_bytes(&mut material, entropy);
        proof {
            assert(material@ =~= seed@ + caller@ + vstd::bytes::spec_u64_to_le_bytes(block_height)
                + vstd::bytes::spec_u64_to_le_bytes(block_time) + entropy@);
        }
        let secret = hash_bytes(material.as_slice());
        let hashed = hash_bytes(secret.as_slice());
        let owner = vstd::slice::slice_to_vec(caller.as_bytes().as_slice());
        self.keys.set(owner, hashed);
        secret
    }

    /// Whether `candidate` is the caller's viewing key.  The candidate's
    /// digest is compared in constant time against the stored hash, or
    /// against the all-zero sentinel when no key was ever set, so a
    /// missing key and a wrong key do the same work and give the same
    /// answer shape.
    pub fn validate(&self, caller: &Identity, candidate: &Vec<u8>) -> (r: bool)
        requires
            self.wf(),
        ensures
            r == spec_validate(self@, caller@, candidate@),
    {
        let hashed = hash_bytes(candidate.as_slice());
        match self.keys.get(caller.as_bytes()) {
            Some(stored) => ct_eq(&hashed, stored),
            None => {
                let sentinel = zero_hash_bytes();
                ct_eq(&hashed, &sentinel)
            },
        }
    }
}

} // verus!
