use vstd::prelude::*;

use crate::state::{AccountId, License};

verus! {

/// Audit record emitted after a successful `publish_model`.
#[derive(Clone, Debug, PartialEq, Eq)]
pub struct ModelPublished {
    pub model: AccountId,
    pub publisher: AccountId,
    pub model_name: Vec<u8>,
    pub weights_hash: [u8; 32],
    pub metadata_uri: Vec<u8>,
    pub license: License,
    pub timestamp: i64,
}

/// Audit record emitted after a successful `add_version`.
#[derive(Clone, Debug, PartialEq, Eq)]
pub struct VersionAdded {
    pub model: AccountId,
    pub version: u32,
    pub weights_hash: [u8; 32],
    pub metadata_uri: Vec<u8>,
    pub timestamp: i64,
}

/// Audit record emitted after a successful `update_metadata`.
#[derive(Clone, Debug, PartialEq, Eq)]
pub struct MetadataUpdated {
    pub model: AccountId,
    pub old_metadata_uri: Vec<u8>,
    pub new_metadata_uri: Vec<u8>,
    pub timestamp: i64,
}

/// Audit record emitted after a successful `deprecate_model`.
#[derive(Clone, Debug, PartialEq, Eq)]
pub struct ModelDeprecatedEvent {
    pub model: AccountId,
    pub publisher: AccountId,
    pub timestamp: i64,
}

/// Audit record emitted after a successful `transfer_ownership`.
#[derive(Clone, Debug, PartialEq, Eq)]
pub struct OwnershipTransferred {
    pub model: AccountId,
    pub old_publisher: AccountId,
    pub new_publisher: AccountId,
    pub timestamp: i64,
}

} // verus!
