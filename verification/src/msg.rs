use vstd::prelude::*;

use crate::identity::Identity;
use crate::metadata::Metadata;

verus! {

/// The two confidentiality tiers of the keyed metadata store.  A
/// partition is a namespace tag: the tiers are fully isolated
/// keyspaces.
#[derive(Clone, Copy, PartialEq, Eq, Structural, Debug)]
pub enum Partition {
    Public,
    Private,
}

/// The outcome reported inside a successful mutation answer.
#[derive(Clone, Copy, PartialEq, Eq, Structural, Debug)]
pub enum ResponseStatus {
    Success,
}

/// An identity and the viewing key it presents to read private data.
pub struct ViewerInfo {
    pub address: Identity,
    pub viewing_key: Vec<u8>,
}

impl View for ViewerInfo {
    type V = (Seq<u8>, Seq<u8>);

    open spec fn view(&self) -> (Seq<u8>, Seq<u8>) {
        (self.address@, self.viewing_key@)
    }
}

/// A mutation command, as the dispatch harness hands it to the core.
pub enum HandleMsg {
    SetMetadata {
        token_id: Vec<u8>,
        public_metadata: Option<Metadata>,
        private_metadata: Option<Metadata>,
    },
    CreateViewingKey { entropy: Vec<u8> },
    SetViewingKey { key: Vec<u8> },
    ChangeAdmin { address: Identity },
}

/// The typed result of a mutation, handed back to the harness to
/// encode and pad.
#[derive(PartialEq, Eq, Debug)]
pub enum HandleAnswer {
    SetMetadata { status: ResponseStatus },
    ViewingKey { key: Vec<u8> },
    ChangeAdmin { status: ResponseStatus },
}

/// A read command.
pub enum QueryMsg {
    NftInfo { token_id: Vec<u8>, viewer: Option<ViewerInfo> },
    PrivateMetadata { token_id: Vec<u8>, viewer: Option<ViewerInfo> },
}

/// The typed result of a read.
pub enum QueryAnswer {
    NftInfo { token_uri: Option<String>, extension: Option<String> },
    PrivateMetadata { token_uri: Option<String>, extension: Option<String> },
}

} // verus!
