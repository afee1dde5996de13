//! Access-control and storage-partitioning core of a per-item metadata
//! service.
//!
//! The library keeps per-item metadata in two isolated confidentiality
//! tiers (public and private), gates mutation through an administrator
//! identity, authenticates reads of private data with hashed viewing
//! keys, and pads outward responses to a fixed block size so that
//! response length leaks nothing about the branch taken.

mod assoc;
mod config;
mod contract;
mod crypto;
mod errors;
mod identity;
mod laws;
mod metadata;
mod msg;
mod padding;
mod viewing_key;

pub use crypto::HASH_SIZE;
pub use crypto::ct_eq;
pub use crypto::sha256_of;
pub use crypto::zero_hash;
pub use config::Config;
pub use config::ConfigView;
pub use contract::State;
pub use contract::StateView;
pub use contract::admin_of;
pub use contract::change_admin_allowed;
pub use contract::change_admin_next;
pub use contract::opt_meta_valid;
pub use contract::opt_meta_view;
pub use contract::opt_viewer_view;
pub use contract::partition_of;
pub use contract::private_query_allowed;
pub use contract::set_key_next;
pub use contract::set_metadata_allowed;
pub use contract::set_metadata_err;
pub use contract::set_metadata_next;
pub use contract::spec_read;
pub use contract::viewer_ok;
pub use contract::write_next;
pub use errors::ContractError;
pub use laws::lemma_admin_gating;
pub use laws::lemma_created_key_validates;
pub use laws::lemma_key_round_trip;
pub use laws::lemma_no_key_like_wrong_key;
pub use laws::lemma_partition_isolation;
pub use msg::HandleAnswer;
pub use msg::HandleMsg;
pub use msg::Partition;
pub use msg::QueryAnswer;
pub use msg::QueryMsg;
pub use msg::ResponseStatus;
pub use msg::ViewerInfo;
pub use padding::BLOCK_SIZE;
pub use padding::lemma_pad_aligns;
pub use padding::lemma_pad_bucket;
pub use padding::pad_response;
pub use padding::padded_len;
pub use identity::Identity;
pub use metadata::Metadata;
pub use metadata::MetaView;
pub use metadata::default_meta;
pub use metadata::enforce_metadata_field_exclusion;
pub use metadata::meta_valid;
pub use metadata::opt_str_view;
pub use viewing_key::Authenticator;
pub use viewing_key::derive_secret;
pub use viewing_key::spec_set_key;
pub use viewing_key::spec_validate;
pub use viewing_key::stored_hash;
