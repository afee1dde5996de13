use vstd::prelude::*;

use crate::assoc::AssocMap;
use crate::config::Config;
use crate::config::ConfigView;
use crate::crypto::hash_bytes;
use crate::crypto::sha256_of;
use crate::errors::ContractError;
use crate::identity::Identity;
use crate::metadata::Metadata;
use crate::metadata::MetaView;
use crate::metadata::default_meta;
use crate::metadata::enforce_metadata_field_exclusion;
use crate::metadata::meta_valid;
use crate::metadata::opt_str_view;
use crate::msg::HandleAnswer;
use crate::msg::HandleMsg;
use crate::msg::Partition;
use crate::msg::QueryAnswer;
use crate::msg::QueryMsg;
use crate::msg::ResponseStatus;
use crate::msg::ViewerInfo;
use crate::viewing_key::Authenticator;
use crate::viewing_key::derive_secret;
use crate::viewing_key::spec_set_key;
use crate::viewing_key::spec_validate;

verus! {

/// The mathematical value of the whole store.
pub ghost struct StateView {
    pub config: Option<ConfigView>,
    pub pub_meta: Map<Seq<u8>, MetaView>,
    pub priv_meta: Map<Seq<u8>, MetaView>,
    pub keys: Map<Seq<u8>, Seq<u8>>,
    pub seed: Seq<u8>,
}

/// All persisted state: the config record, the two metadata
/// partitions, the viewing-key hashes, and the process-wide seed.
///
/// Every mutation goes through the validated entry points below; a
/// call that fails leaves the state exactly as it was.
pub struct State {
    config: Option<Config>,
    pub_meta: AssocMap<Metadata>,
    priv_meta: AssocMap<Metadata>,
    auth: Authenticator,
    seed: Vec<u8>,
}

impl View for State {
    type V = StateView;

    closed spec fn view(&self) -> StateView {
        StateView {
            config: match self.config {
                Some(c) => Some(c@),
                None => None,
            },
            pub_meta: self.pub_meta@,
            priv_meta: self.priv_meta@,
            keys: self.auth@,
            seed: self.seed@,
        }
    }
}

/// The metadata view behind an optional record argument.
pub open spec fn opt_meta_view(m: Option<Metadata>) -> Option<MetaView> {
    match m {
        Some(x) => Some(x@),
        None => None,
    }
}

/// Whether an optional record argument satisfies the mutual-exclusion
/// invariant (an absent argument writes nothing and is always fine).
pub open spec fn opt_meta_valid(m: Option<MetaView>) -> bool {
    match m {
        Some(mv) => meta_valid(mv),
        None => true,
    }
}

/// The administrator recorded in an initialized state.
pub open spec fn admin_of(s: StateView) -> Seq<u8>
    recommends
        s.config is Some,
{
    s.config->Some_0.admin
}

/// The partition map a tag selects.
pub open spec fn partition_of(s: StateView, p: Partition) -> Map<Seq<u8>, MetaView> {
    match p {
        Partition::Public => s.pub_meta,
        Partition::Private => s.priv_meta,
    }
}

/// What a read of a partition returns: the stored record, or the
/// all-empty default when the item was never written.
pub open spec fn spec_read(part: Map<Seq<u8>, MetaView>, id: Seq<u8>) -> MetaView {
    if part.contains_key(id) {
        part[id]
    } else {
        default_meta()
    }
}

/// The state after a successful write of `m` under `id` into the `p`
/// partition: only that partition changes, and only at `id`.
pub open spec fn write_next(s: StateView, p: Partition, id: Seq<u8>, m: MetaView) -> StateView {
    match p {
        Partition::Public => StateView { pub_meta: s.pub_meta.insert(id, m), ..s },
        Partition::Private => StateView { priv_meta: s.priv_meta.insert(id, m), ..s },
    }
}

/// Whether a metadata mutation is allowed: the caller must be the
/// admin, and every supplied record must satisfy the mutual-exclusion
/// invariant.
pub open spec fn set_metadata_allowed(
    s: StateView,
    caller: Seq<u8>,
    pub_m: Option<MetaView>,
    priv_m: Option<MetaView>,
) -> bool
    recommends
        s.config is Some,
{
    caller == admin_of(s) && opt_meta_valid(pub_m) && opt_meta_valid(priv_m)
}

/// The error a refused metadata mutation reports.  Authorization is
/// resolved first, before any record is inspected or any storage is
/// touched.
pub open spec fn set_metadata_err(
    s: StateView,
    caller: Seq<u8>,
    pub_m: Option<MetaView>,
    priv_m: Option<MetaView>,
) -> ContractError
    recommends
        s.config is Some,
{
    if caller != admin_of(s) {
        ContractError::Unauthorized
    } else {
        ContractError::MutualExclusionViolation
    }
}

/// The state after a successful metadata mutation: each supplied
/// record lands in its own partition; an absent one changes nothing.
pub open spec fn set_metadata_next(
    s: StateView,
    id: Seq<u8>,
    pub_m: Option<MetaView>,
    priv_m: Option<MetaView>,
) -> StateView {
    let after_pub = match pub_m {
        Some(m) => StateView { pub_meta: s.pub_meta.insert(id, m), ..s },
        None => s,
    };
    match priv_m {
        Some(m) => StateView { priv_meta: after_pub.priv_meta.insert(id, m), ..after_pub },
        None => after_pub,
    }
}

/// Whether a caller may change the admin: only the current admin may.
pub open spec fn change_admin_allowed(s: StateView, caller: Seq<u8>) -> bool
    recommends
        s.config is Some,
{
    caller == admin_of(s)
}

/// The state after a successful admin change: only the admin field of
/// the config moves.
pub open spec fn change_admin_next(s: StateView, new_admin: Seq<u8>) -> StateView
    recommends
        s.config is Some,
{
    StateView {
        config: Some(ConfigView { admin: new_admin, ..s.config->Some_0 }),
        ..s
    }
}

/// The state after a caller sets a viewing key: only that caller's key
/// hash moves.
pub open spec fn set_key_next(s: StateView, caller: Seq<u8>, key: Seq<u8>) -> StateView {
    StateView { keys: spec_set_key(s.keys, caller, key), ..s }
}

/// Whether a supplied viewer pair passes the key check; an absent
/// viewer passes (the public query needs none).
pub open spec fn viewer_ok(keys: Map<Seq<u8>, Seq<u8>>, viewer: Option<(Seq<u8>, Seq<u8>)>) -> bool {
    match viewer {
        Some(v) => spec_validate(keys, v.0, v.1),
        None => true,
    }
}

/// The viewer pair behind an optional argument.
pub open spec fn opt_viewer_view(v: Option<ViewerInfo>) -> Option<(Seq<u8>, Seq<u8>)> {
    match v {
        Some(x) => Some(x@),
        None => None,
    }
}

impl State {
    /// All partitions are unambiguous association lists.
    pub closed spec fn wf(&self) -> bool {
        self.pub_meta.wf() && self.priv_meta.wf() && self.auth.wf()
    }

    /// A store that has not been initialized yet: no config, no
    /// records, no keys, no seed.
    pub fn new() -> (r: State)
        ensures
            r.wf(),
            r@.config is None,
            r@.pub_meta == Map::<Seq<u8>, MetaView>::empty(),
            r@.priv_meta == Map::<Seq<u8>, MetaView>::empty(),
            r@.keys == Map::<Seq<u8>, Seq<u8>>::empty(),
            r@.seed == Seq::<u8>::empty(),
    {
        State {
            config: None,
            pub_meta: AssocMap::new(),
            priv_meta: AssocMap::new(),
            auth: Authenticator::new(),
            seed: Vec::new(),
        }
    }

    /// Records the creator as admin and derives the process-wide seed
    /// from host-supplied randomness.  Called exactly once, at
    /// creation; there is no authorization check (trust on creation).
    pub fn init(
        &mut self,
        sender: &Identity,
        name: String,
        symbol: String,
        token_address: Identity,
        token_code_hash: String,
        prng_entropy: &Vec<u8>,
    )
        requires
            old(self).wf(),
            old(self)@.config is None,
        ensures
            final(self).wf(),
            final(self)@.config == Some(
                ConfigView {
                    name: name@,
                    symbol: symbol@,
                    admin: sender@,
                    token_address: token_address@,
                    token_code_hash: token_code_hash@,
                },
            ),
            final(self)@.seed == sha256_of(prng_entropy@),
            final(self)@.pub_meta == old(self)@.pub_meta,
            final(self)@.priv_meta == old(self)@.priv_meta,
            final(self)@.keys == old(self)@.keys,
    {
        self.config = Some(
            Config {
                name,
                symbol,
                admin: sender.duplicate(),
                token_address,
                token_code_hash,
            },
        );
        self.seed = hash_bytes(prng_entropy.as_slice());
    }

    /// Writes one record into one partition, after checking the
    /// mutual-exclusion invariant; on violation nothing is written.
    pub fn write(&mut self, partition: Partition, token_id: &Vec<u8>, metadata: &Metadata) -> (r:
        Result<(), ContractError>)
        requires
            old(self).wf(),
        ensures
            final(self).wf(),
            r is Ok <==> meta_valid(metadata@),
            r is Ok ==> final(self)@ == write_next(old(self)@, partition, token_id@, metadata@),
            r is Err ==> final(self)@ == old(self)@ && r == Err::<(), ContractError>(
                ContractError::MutualExclusionViolation,
            ),
    {
        match enforce_metadata_field_exclusion(metadata) {
            Ok(()) => {},
            Err(e) => {
                return Err(e);
            },
        }
        let key = vstd::slice::slice_to_vec(token_id.as_slice());
        match partition {
            Partition::Public => self.pub_meta.set(key, metadata.duplicate()),
            Partition::Private => self.priv_meta.set(key, metadata.duplicate()),
        }
        Ok(())
    }

    /// Reads one record from one partition; an absent record reads as
    /// the all-empty default, never as an error.
    pub fn read(&self, partition: Partition, token_id: &Vec<u8>) -> (r: Metadata)
        requires
            self.wf(),
        ensures
            r@ == spec_read(partition_of(self@, partition), token_id@),
    {
        let stored = match partition {
            Partition::Public => self.pub_meta.get(token_id),
            Partition::Private => self.priv_meta.get(token_id),
        };
        match stored {
            Some(m) => m.duplicate(),
            None => Metadata::empty(),
        }
    }

    /// Writes the supplied records into their partitions, admin only.
    /// Both records are validated before either is written, so a
    /// violation aborts the whole call with no partial write.
    pub fn handle_set_metadata(
        &mut self,
        sender: &Identity,
        token_id: &Vec<u8>,
        public_metadata: Option<Metadata>,
        private_metadata: Option<Metadata>,
    ) -> (r: Result<HandleAnswer, ContractError>)
        requires
            old(self).wf(),
            old(self)@.config is Some,
        ensures
            final(self).wf(),
            r is Ok <==> set_metadata_allowed(
                old(self)@,
                sender@,
                opt_meta_view(public_metadata),
                opt_meta_view(private_metadata),
            ),
            r is Ok ==> final(self)@ == set_metadata_next(
                old(self)@,
                token_id@,
                opt_meta_view(public_metadata),
                opt_meta_view(private_metadata),
            ) && r == Ok::<HandleAnswer, ContractError>(
                (HandleAnswer::SetMetadata { status: ResponseStatus::Success }),
            ),
            r is Err ==> final(self)@ == old(self)@ && r == Err::<HandleAnswer, ContractError>(
                set_metadata_err(
                    old(self)@,
                    sender@,
                    opt_meta_view(public_metadata),
                    opt_meta_view(private_metadata),
                ),
            ),
    {
        let authorized = match &self.config {
            Some(c) => sender.same(&c.admin),
            None => false,
        };
        if !authorized {
            return Err(ContractError::Unauthorized);
        }
        if let Some(m) = &public_metadata {
            match enforce_metadata_field_exclusion(m) {
                Ok(()) => {},
                Err(e) => {
                    return Err(e);
                },
            }
        }
        if let Some(m) = &private_metadata {
            match enforce_metadata_field_exclusion(m) {
                Ok(()) => {},
                Err(e) => {
                    return Err(e);
                },
            }
        }
        if let Some(m) = &public_metadata {
            let _res = self.write(Partition::Public, token_id, m);
        }
        if let Some(m) = &private_metadata {
            let _res = self.write(Partition::Private, token_id, m);
        }
        Ok(HandleAnswer::SetMetadata { status: ResponseStatus::Success })
    }

    /// Stores the hash of a caller-chosen viewing key under the
    /// caller; always allowed, and echoes the key back.
    pub fn handle_set_key(&mut self, sender: &Identity, key: Vec<u8>) -> (r: Result<
        HandleAnswer,
        ContractError,
    >)
        requires
            old(self).wf(),
        ensures
            final(self).wf(),
            final(self)@ == set_key_next(old(self)@, sender@, key@),
            r matches Ok(HandleAnswer::ViewingKey { key: k }) && k@ == key@,
    {
        self.auth.set_key(sender, &key);
        Ok(HandleAnswer::ViewingKey { key })
    }

    /// Derives a fresh viewing key from the process-wide seed, the
    /// caller, the supplied entropy and the block context, stores its
    /// hash, and returns the plaintext secret to the caller.
    pub fn handle_create_key(
        &mut self,
        sender: &Identity,
        entropy: &Vec<u8>,
        block_height: u64,
        block_time: u64,
    ) -> (r: Result<HandleAnswer, ContractError>)
        requires
            old(self).wf(),
            old(self)@.seed.len() + sender@.len() + entropy@.len() + 16 <= usize::MAX,
        ensures
            final(self).wf(),
            final(self)@ == set_key_next(
                old(self)@,
                sender@,
                derive_secret(old(self)@.seed, sender@, entropy@, block_height, block_time),
            ),
            r matches Ok(HandleAnswer::ViewingKey { key: k }) && k@ == derive_secret(
                old(self)@.seed,
                sender@,
                entropy@,
                block_height,
                block_time,
            ),
    {
        let secret = self.auth.create_key(&self.seed, sender, entropy, block_height, block_time);
        Ok(HandleAnswer::ViewingKey { key: secret })
    }

    /// Moves the admin to a new identity; only the current admin may.
    pub fn handle_change_admin(&mut self, sender: &Identity, address: &Identity) -> (r: Result<
        HandleAnswer,
        ContractError,
    >)
        requires
            old(self).wf(),
            old(self)@.config is Some,
        ensures
            final(self).wf(),
            r is Ok <==> change_admin_allowed(old(self)@, sender@),
            r is Ok ==> final(self)@ == change_admin_next(old(self)@, address@) && r == Ok::<
                HandleAnswer,
                ContractError,
            >((HandleAnswer::ChangeAdmin { status: ResponseStatus::Success })),
            r is Err ==> final(self)@ == old(self)@ && r == Err::<HandleAnswer, ContractError>(
                ContractError::Unauthorized,
            ),
    {
        let authorized = match &self.config {
            Some(c) => sender.same(&c.admin),
            None => false,
        };
        if !authorized {
            return Err(ContractError::Unauthorized);
        }
        match &mut self.config {
            Some(c) => {
                c.admin = address.duplicate();
            },
            None => {},
        }
        Ok(HandleAnswer::ChangeAdmin { status: ResponseStatus::Success })
    }

    /// Routes a mutation to its handler.  A store whose config record
    /// is missing is corrupt: initialization was bypassed, and nothing
    /// is touched.
    pub fn handle(
        &mut self,
        sender: &Identity,
        block_height: u64,
        block_time: u64,
        msg: HandleMsg,
    ) -> (r: Result<HandleAnswer, ContractError>)
        requires
            old(self).wf(),
            msg matches HandleMsg::CreateViewingKey { entropy } ==> old(self)@.seed.len()
                + sender@.len() + entropy@.len() + 16 <= usize::MAX,
        ensures
            final(self).wf(),
            old(self)@.config is None ==> final(self)@ == old(self)@ && r == Err::<
                HandleAnswer,
                ContractError,
            >(ContractError::StorageCorrupt),
            old(self)@.config is Some ==> match msg {
                HandleMsg::SetMetadata { token_id, public_metadata, private_metadata } => {
                    &&& r is Ok <==> set_metadata_allowed(
                        old(self)@,
                        sender@,
                        opt_meta_view(public_metadata),
                        opt_meta_view(private_metadata),
                    )
                    &&& r is Ok ==> final(self)@ == set_metadata_next(
                        old(self)@,
                        token_id@,
                        opt_meta_view(public_metadata),
                        opt_meta_view(private_metadata),
                    )
                    &&& r is Err ==> final(self)@ == old(self)@ && r == Err::<
                        HandleAnswer,
                        ContractError,
                    >(
                        set_metadata_err(
                            old(self)@,
                            sender@,
                            opt_meta_view(public_metadata),
                            opt_meta_view(private_metadata),
                        ),
                    )
                },
                HandleMsg::CreateViewingKey { entropy } => {
                    &&& final(self)@ == set_key_next(
                        old(self)@,
                        sender@,
                        derive_secret(
                            old(self)@.seed,
                            sender@,
                            entropy@,
                            block_height,
                            block_time,
                        ),
                    )
                    &&& r matches Ok(HandleAnswer::ViewingKey { key: k }) && k@ == derive_secret(
                        old(self)@.seed,
                        sender@,
                        entropy@,
                        block_height,
                        block_time,
                    )
                },
                HandleMsg::SetViewingKey { key } => {
                    &&& final(self)@ == set_key_next(old(self)@, sender@, key@)
                    &&& r matches Ok(HandleAnswer::ViewingKey { key: k }) && k@ == key@
                },
                HandleMsg::ChangeAdmin { address } => {
                    &&& r is Ok <==> change_admin_allowed(old(self)@, sender@)
                    &&& r is Ok ==> final(self)@ == change_admin_next(old(self)@, address@)
                    &&& r is Err ==> final(self)@ == old(self)@ && r == Err::<
                        HandleAnswer,
                        ContractError,
                    >(ContractError::Unauthorized)
                },
            },
    {
        if self.config.is_none() {
            return Err(ContractError::StorageCorrupt);
        }
        match msg {
            HandleMsg::SetMetadata { token_id, public_metadata, private_metadata } => self
                .handle_set_metadata(sender, &token_id, public_metadata, private_metadata),
            HandleMsg::CreateViewingKey { entropy } => self.handle_create_key(
                sender,
                &entropy,
                block_height,
                block_time,
            ),
            HandleMsg::SetViewingKey { key } => self.handle_set_key(sender, key),
            HandleMsg::ChangeAdmin { address } => self.handle_change_admin(sender, &address),
        }
    }

    /// Whether the supplied viewing key authenticates the address;
    /// refused with the one fixed error otherwise, so a missing key and
    /// a wrong key are indistinguishable.
    pub fn check_key(&self, address: &Identity, viewing_key: &Vec<u8>) -> (r: Result<
        (),
        ContractError,
    >)
        requires
            self.wf(),
        ensures
            r is Ok <==> spec_validate(self@.keys, address@, viewing_key@),
            r is Err ==> r == Err::<(), ContractError>(ContractError::Unauthorized),
    {
        if self.auth.validate(address, viewing_key) {
            Ok(())
        } else {
            Err(ContractError::Unauthorized)
        }
    }

    /// Resolves the querying identity: no viewer means an anonymous
    /// read, a supplied viewer must pass the key check.
    pub fn get_querier(&self, viewer: &Option<ViewerInfo>) -> (r: Result<
        Option<Identity>,
        ContractError,
    >)
        requires
            self.wf(),
        ensures
            r is Ok <==> viewer_ok(self@.keys, opt_viewer_view(*viewer)),
            match r {
                Ok(Some(id)) => *viewer matches Some(v) && id@ == v.address@,
                Ok(None) => *viewer is None,
                Err(e) => e == ContractError::Unauthorized,
            },
    {
        match viewer {
            Some(v) => {
                match self.check_key(&v.address, &v.viewing_key) {
                    Ok(()) => Ok(Some(v.address.duplicate())),
                    Err(e) => Err(e),
                }
            },
            None => Ok(None),
        }
    }

    /// Returns the public record of an item.  Public data needs no
    /// authorization, so the read never fails: a supplied viewer, valid
    /// or not, neither blocks nor changes it.
    pub fn query_nft_info(&self, token_id: &Vec<u8>, viewer: &Option<ViewerInfo>) -> (r: Result<
        QueryAnswer,
        ContractError,
    >)
        requires
            self.wf(),
        ensures
            r is Ok,
            r matches Ok(QueryAnswer::NftInfo { token_uri, extension }) ==> opt_str_view(token_uri)
                == spec_read(self@.pub_meta, token_id@).token_uri && opt_str_view(extension)
                == spec_read(self@.pub_meta, token_id@).extension,
            r matches Ok(QueryAnswer::NftInfo { .. }),
    {
        let meta = self.read(Partition::Public, token_id);
        Ok(QueryAnswer::NftInfo { token_uri: meta.token_uri, extension: meta.extension })
    }

    /// Returns the private record of an item.  A viewer is required
    /// here, and must pass the key check: an absent viewer is itself
    /// unauthorized.  Authorization is resolved before the partition is
    /// touched.
    pub fn query_private_metadata(&self, token_id: &Vec<u8>, viewer: &Option<ViewerInfo>) -> (r:
        Result<QueryAnswer, ContractError>)
        requires
            self.wf(),
        ensures
            r is Ok <==> private_query_allowed(self@.keys, opt_viewer_view(*viewer)),
            r matches Ok(QueryAnswer::PrivateMetadata { token_uri, extension }) ==> opt_str_view(
                token_uri,
            ) == spec_read(self@.priv_meta, token_id@).token_uri && opt_str_view(extension)
                == spec_read(self@.priv_meta, token_id@).extension,
            r is Ok ==> (r matches Ok(QueryAnswer::PrivateMetadata { .. })),
            r is Err ==> r == Err::<QueryAnswer, ContractError>(ContractError::Unauthorized),
    {
        match self.get_querier(viewer) {
            Ok(Some(_querier)) => {},
            Ok(None) => {
                return Err(ContractError::Unauthorized);
            },
            Err(e) => {
                return Err(e);
            },
        }
        let meta = self.read(Partition::Private, token_id);
        Ok(QueryAnswer::PrivateMetadata { token_uri: meta.token_uri, extension: meta.extension })
    }

    /// Routes a read to its handler.
    pub fn query(&self, msg: QueryMsg) -> (r: Result<QueryAnswer, ContractError>)
        requires
            self.wf(),
        ensures
            match msg {
                QueryMsg::NftInfo { token_id, viewer } => {
                    &&& r is Ok
                    &&& r matches Ok(QueryAnswer::NftInfo { token_uri, extension })
                        ==> opt_str_view(token_uri) == spec_read(
                        self@.pub_meta,
                        token_id@,
                    ).token_uri && opt_str_view(extension) == spec_read(
                        self@.pub_meta,
                        token_id@,
                    ).extension
                    &&& r matches Ok(QueryAnswer::NftInfo { .. })
                },
                QueryMsg::PrivateMetadata { token_id, viewer } => {
                    &&& r is Ok <==> private_query_allowed(self@.keys, opt_viewer_view(viewer))
                    &&& r matches Ok(QueryAnswer::PrivateMetadata { token_uri, extension })
                        ==> opt_str_view(token_uri) == spec_read(
                        self@.priv_meta,
                        token_id@,
                    ).token_uri && opt_str_view(extension) == spec_read(
                        self@.priv_meta,
                        token_id@,
                    ).extension
                    &&& r is Ok ==> (r matches Ok(QueryAnswer::PrivateMetadata { .. }))
                    &&& r is Err ==> r == Err::<QueryAnswer, ContractError>(
                        ContractError::Unauthorized,
                    )
                },
            },
    {
        match msg {
            QueryMsg::NftInfo { token_id, viewer } => self.query_nft_info(&token_id, &viewer),
            QueryMsg::PrivateMetadata { token_id, viewer } => self.query_private_metadata(
                &token_id,
                &viewer,
            ),
        }
    }
}

/// Whether a private read is allowed: a viewer must be supplied and
/// must pass the key check.
pub open spec fn private_query_allowed(
    keys: Map<Seq<u8>, Seq<u8>>,
    viewer: Option<(Seq<u8>, Seq<u8>)>,
) -> bool {
    viewer matches Some(v) && spec_validate(keys, v.0, v.1)
}

} // verus!
