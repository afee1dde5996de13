use vstd::prelude::*;

use crate::contract::StateView;
use crate::contract::admin_of;
use crate::contract::change_admin_allowed;
use crate::contract::change_admin_next;
use crate::contract::set_key_next;
use crate::contract::spec_read;
use crate::contract::write_next;
use crate::crypto::sha256_of;
use crate::crypto::zero_hash;
use crate::metadata::MetaView;
use crate::msg::Partition;
use crate::viewing_key::derive_secret;
use crate::viewing_key::spec_set_key;
use crate::viewing_key::spec_validate;

verus! {

/// Partition isolation: a write into one partition leaves the other
/// partition, and every read of it, exactly as it was — whatever the
/// item identifiers.
pub proof fn lemma_partition_isolation(s: StateView, id: Seq<u8>, other_id: Seq<u8>, m: MetaView)
    ensures
        write_next(s, Partition::Public, id, m).priv_meta == s.priv_meta,
        spec_read(write_next(s, Partition::Public, id, m).priv_meta, other_id) == spec_read(
            s.priv_meta,
            other_id,
        ),
        write_next(s, Partition::Private, id, m).pub_meta == s.pub_meta,
        spec_read(write_next(s, Partition::Private, id, m).pub_meta, other_id) == spec_read(
            s.pub_meta,
            other_id,
        ),
{
}

/// Admin gating: changing the admin is allowed exactly for the current
/// admin, and after a successful change exactly the new admin may
/// change it again — the old admin (unless it is the new one) may not.
pub proof fn lemma_admin_gating(
    s: StateView,
    caller: Seq<u8>,
    new_admin: Seq<u8>,
    later_caller: Seq<u8>,
)
    requires
        s.config is Some,
    ensures
        change_admin_allowed(s, caller) <==> caller == admin_of(s),
        change_admin_next(s, new_admin).config is Some,
        admin_of(change_admin_next(s, new_admin)) == new_admin,
        change_admin_allowed(change_admin_next(s, new_admin), later_caller) <==> later_caller
            == new_admin,
{
}

/// Viewing-key round trip: after a caller sets a secret, that exact
/// secret validates, and any candidate whose digest differs does not.
/// (A candidate whose digest collides with the secret's is
/// indistinguishable from it by any check over hashes.)
pub proof fn lemma_key_round_trip(
    keys: Map<Seq<u8>, Seq<u8>>,
    caller: Seq<u8>,
    secret: Seq<u8>,
    candidate: Seq<u8>,
)
    ensures
        spec_validate(spec_set_key(keys, caller, secret), caller, secret),
        sha256_of(candidate) != sha256_of(secret) ==> !spec_validate(
            spec_set_key(keys, caller, secret),
            caller,
            candidate,
        ),
{
}

/// The created-key half of the round trip: the secret a key-creation
/// call derives and returns validates against the state it leaves
/// behind.
pub proof fn lemma_created_key_validates(
    s: StateView,
    caller: Seq<u8>,
    entropy: Seq<u8>,
    block_height: u64,
    block_time: u64,
)
    ensures
        spec_validate(
            set_key_next(
                s,
                caller,
                derive_secret(s.seed, caller, entropy, block_height, block_time),
            ).keys,
            caller,
            derive_secret(s.seed, caller, entropy, block_height, block_time),
        ),
{
}

/// No-key indistinguishability, the functional half: a caller that
/// never set a key is checked against the all-zero sentinel exactly as
/// a known caller is checked against a stored hash, and both checks
/// refuse every candidate whose digest misses the compared value.  The
/// timing half is by construction: both paths hash once and compare
/// once, with no early exit, in [`crate::ct_eq`].
pub proof fn lemma_no_key_like_wrong_key(
    keys: Map<Seq<u8>, Seq<u8>>,
    unknown: Seq<u8>,
    known: Seq<u8>,
    candidate: Seq<u8>,
)
    requires
        !keys.contains_key(unknown),
        keys.contains_key(known),
    ensures
        spec_validate(keys, unknown, candidate) == (sha256_of(candidate) == zero_hash()),
        sha256_of(candidate) != keys[known] ==> !spec_validate(keys, known, candidate),
{
}

} // verus!
