use vstd::prelude::*;

use crate::errors::ContractError;

verus! {

/// The mathematical value of a [`Metadata`] record: each field reduced
/// to its character sequence.
pub ghost struct MetaView {
    pub token_uri: Option<Seq<char>>,
    pub extension: Option<Seq<char>>,
}

/// A per-item metadata record.
///
/// At most one of `token_uri` and `extension` may be set; the store
/// refuses a record that carries both.  The extension is an opaque
/// structured document, carried as its serialized text: nothing in the
/// core reads inside it.
pub struct Metadata {
    pub token_uri: Option<String>,
    pub extension: Option<String>,
}

/// The character sequence behind an optional string.
pub open spec fn opt_str_view(o: Option<String>) -> Option<Seq<char>> {
    match o {
        Some(s) => Some(s@),
        None => None,
    }
}

impl View for Metadata {
    type V = MetaView;

    open spec fn view(&self) -> MetaView {
        MetaView {
            token_uri: opt_str_view(self.token_uri),
            extension: opt_str_view(self.extension),
        }
    }
}

/// The mutual-exclusion invariant on metadata records: a record may
/// carry a direct URI or an extension document, never both.
pub open spec fn meta_valid(m: MetaView) -> bool {
    !(m.token_uri is Some && m.extension is Some)
}

/// The record a read returns when nothing is stored under the item.
pub open spec fn default_meta() -> MetaView {
    MetaView { token_uri: None, extension: None }
}

impl Metadata {
    /// The all-empty record.
    pub fn empty() -> (r: Metadata)
        ensures
            r@ == default_meta(),
    {
        Metadata { token_uri: None, extension: None }
    }

    /// An exact copy of the record.
    pub fn duplicate(&self) -> (r: Metadata)
        ensures
            r@ == self@,
    {
        Metadata {
            token_uri: match &self.token_uri {
                Some(s) => Some(s.clone()),
                None => None,
            },
            extension: match &self.extension {
                Some(s) => Some(s.clone()),
                None => None,
            },
        }
    }
}

/// Rejects a metadata record that sets both `token_uri` and `extension`.
pub fn enforce_metadata_field_exclusion(metadata: &Metadata) -> (r: Result<(), ContractError>)
    ensures
        r is Ok <==> meta_valid(metadata@),
        r is Err ==> r == Err::<(), ContractError>(ContractError::MutualExclusionViolation),
{
    if metadata.token_uri.is_some() && metadata.extension.is_some() {
        return Err(ContractError::MutualExclusionViolation);
    }
    Ok(())
}

} // verus!
