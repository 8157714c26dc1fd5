//! Consensus metadata records and companion-script configuration, in the
//! fixed layouts the destination chain's metadata contract declares. These
//! are canonical records only: batching and encoding do not apply to them.

use vstd::prelude::*;

verus! {

/// The epoch range a metadata record is valid for.
#[derive(Clone, Copy, Debug, PartialEq, Eq)]
pub struct MetadataVersion {
    pub start: u64,
    pub end: u64,
}

/// One validator: its keys, its derived address, and its weights. The
/// address is the one derived field of the whole data model: it must equal
/// the low-order twenty bytes of the Keccak-256 digest of pub_key.
#[derive(Clone, Debug, PartialEq, Eq)]
pub struct ValidatorExtend {
    pub bls_pub_key: Vec<u8>,
    pub pub_key: Vec<u8>,
    pub address: [u8; 20],
    pub propose_weight: u32,
    pub vote_weight: u32,
}

/// The key pair a validator is registered with, as supplied by the caller.
#[derive(Clone, Debug, PartialEq, Eq)]
pub struct NodePubKey {
    pub bls_pub_key: Vec<u8>,
    pub pub_key: Vec<u8>,
}

/// How many blocks an address has proposed; empty at construction.
#[derive(Clone, Copy, Debug, PartialEq, Eq)]
pub struct ProposeCount {
    pub address: [u8; 20],
    pub count: u64,
}

/// One consensus-metadata record. verifier_list order is the canonical
/// validator ordering consumed by the destination contract and is preserved
/// exactly as supplied.
#[derive(Clone, Debug, PartialEq, Eq)]
pub struct Metadata {
    pub version: MetadataVersion,
    pub epoch: u64,
    pub gas_limit: u64,
    pub gas_price: u64,
    pub interval: u64,
    pub verifier_list: Vec<ValidatorExtend>,
    pub propose_ratio: u64,
    pub prevote_ratio: u64,
    pub precommit_ratio: u64,
    pub brake_ratio: u64,
    pub tx_num_limit: u64,
    pub max_tx_size: u64,
    pub propose_counter: Vec<ProposeCount>,
}

/// The six 32-byte identifiers of companion on-chain scripts. Pure
/// configuration; no derived fields.
#[derive(Clone, Copy, Debug, PartialEq, Eq)]
pub struct CkbRelatedInfo {
    pub metadata_type_id: [u8; 32],
    pub checkpoint_type_id: [u8; 32],
    pub xudt_args: [u8; 32],
    pub stake_smt_type_id: [u8; 32],
    pub delegate_smt_type_id: [u8; 32],
    pub reward_smt_type_id: [u8; 32],
}

} // verus!
