use vstd::prelude::*;

verus! {

/// The failure modes of the store.
///
/// `Unauthorized` never says which check failed (missing key, wrong key,
/// missing viewer, or a non-admin caller), so that the reason cannot be
/// told apart from the outside.
#[derive(Clone, Copy, PartialEq, Eq, Structural, Debug)]
pub enum ContractError {
    /// An admin-only call came from another identity, or a private read
    /// was not backed by a valid viewing key.
    Unauthorized,
    /// A metadata record carried both a direct URI and an extension
    /// document at once.
    MutualExclusionViolation,
    /// A record that must exist after initialization was missing.
    StorageCorrupt,
}

} // verus!
