//! One builder per record type: explicit defaults, one setter per field,
//! and a finalize step that yields the immutable record.
//!
//! Finalize performs no validation beyond the one derived field (the
//! validator address): a builder left at its defaults yields a valid but
//! possibly meaningless record, and field completeness is the caller's
//! responsibility.

use crate::address::{address_of, derive_address};
use crate::image_cell::{CellInfo, CellOutput, OutPoint, Script};
use crate::light_client::Header;
use crate::metadata::{
    CkbRelatedInfo, Metadata, MetadataVersion, NodePubKey, ProposeCount, ValidatorExtend,
};
use vstd::prelude::*;
use vstd::slice::slice_to_vec;

verus! {

/// Builder of a light-client Header record.
#[derive(Clone, Debug)]
pub struct CkbHeaderBuilder {
    pub version: u32,
    pub compact_target: u32,
    pub timestamp: u64,
    pub number: u64,
    pub epoch: u64,
    pub parent_hash: [u8; 32],
    pub transactions_root: [u8; 32],
    pub proposals_hash: [u8; 32],
    pub extra_hash: [u8; 32],
    pub dao: [u8; 32],
    pub nonce: u128,
    pub extension: Vec<u8>,
    pub block_hash: [u8; 32],
}

impl Default for CkbHeaderBuilder {
    /// Every field zero, every hash all-zero bytes, the extension empty.
    fn default() -> (r: Self)
        ensures
            r.version == 0,
            r.compact_target == 0,
            r.timestamp == 0,
            r.number == 0,
            r.epoch == 0,
            r.parent_hash@ == Seq::new(32, |i: int| 0u8),
            r.transactions_root@ == Seq::new(32, |i: int| 0u8),
            r.proposals_hash@ == Seq::new(32, |i: int| 0u8),
            r.extra_hash@ == Seq::new(32, |i: int| 0u8),
            r.dao@ == Seq::new(32, |i: int| 0u8),
            r.nonce == 0,
            r.extension@ == Seq::<u8>::empty(),
            r.block_hash@ == Seq::new(32, |i: int| 0u8),
    {
        CkbHeaderBuilder {
            version: 0,
            compact_target: 0,
            timestamp: 0,
            number: 0,
            epoch: 0,
            parent_hash: [0u8; 32],
            transactions_root: [0u8; 32],
            proposals_hash: [0u8; 32],
            extra_hash: [0u8; 32],
            dao: [0u8; 32],
            nonce: 0,
            extension: Vec::new(),
            block_hash: [0u8; 32],
        }
    }
}

impl CkbHeaderBuilder {
    /// Finalizes the record: pure field transport, no validation.
    pub fn build(self) -> (r: Header)
        ensures
            r.version == self.version,
            r.compact_target == self.compact_target,
            r.timestamp == self.timestamp,
            r.number == self.number,
            r.epoch == self.epoch,
            r.parent_hash == self.parent_hash,
            r.transactions_root == self.transactions_root,
            r.proposals_hash == self.proposals_hash,
            r.extra_hash == self.extra_hash,
            r.dao == self.dao,
            r.nonce == self.nonce,
            r.extension == self.extension,
            r.block_hash == self.block_hash,
    {
        Header {
            version: self.version,
            compact_target: self.compact_target,
            timestamp: self.timestamp,
            number: self.number,
            epoch: self.epoch,
            parent_hash: self.parent_hash,
            transactions_root: self.transactions_root,
            proposals_hash: self.proposals_hash,
            extra_hash: self.extra_hash,
            dao: self.dao,
            nonce: self.nonce,
            extension: self.extension,
            block_hash: self.block_hash,
        }
    }

    pub fn version(self, version: u32) -> (r: Self)
        ensures
            r == (Self { version, ..self }),
    {
        Self { version, ..self }
    }

    pub fn compact_target(self, compact_target: u32) -> (r: Self)
        ensures
            r == (Self { compact_target, ..self }),
    {
        Self { compact_target, ..self }
    }

    pub fn timestamp(self, timestamp: u64) -> (r: Self)
        ensures
            r == (Self { timestamp, ..self }),
    {
        Self { timestamp, ..self }
    }

    pub fn number(self, number: u64) -> (r: Self)
        ensures
            r == (Self { number, ..self }),
    {
        Self { number, ..self }
    }

    pub fn epoch(self, epoch: u64) -> (r: Self)
        ensures
            r == (Self { epoch, ..self }),
    {
        Self { epoch, ..self }
    }

    pub fn parent_hash(self, parent_hash: [u8; 32]) -> (r: Self)
        ensures
            r == (Self { parent_hash, ..self }),
    {
        Self { parent_hash, ..self }
    }

    pub fn transactions_root(self, transactions_root: [u8; 32]) -> (r: Self)
        ensures
            r == (Self { transactions_root, ..self }),
    {
        Self { transactions_root, ..self }
    }

    pub fn proposals_hash(self, proposals_hash: [u8; 32]) -> (r: Self)
        ensures
            r == (Self { proposals_hash, ..self }),
    {
        Self { proposals_hash, ..self }
    }

    pub fn extra_hash(self, extra_hash: [u8; 32]) -> (r: Self)
        ensures
            r == (Self { extra_hash, ..self }),
    {
        Self { extra_hash, ..self }
    }

    pub fn dao(self, dao: [u8; 32]) -> (r: Self)
        ensures
            r == (Self { dao, ..self }),
    {
        Self { dao, ..self }
    }

    pub fn nonce(self, nonce: u128) -> (r: Self)
        ensures
            r == (Self { nonce, ..self }),
    {
        Self { nonce, ..self }
    }

    pub fn extension(self, extension: Vec<u8>) -> (r: Self)
        ensures
            r == (Self { extension, ..self }),
    {
        Self { extension, ..self }
    }

    pub fn block_hash(self, block_hash: [u8; 32]) -> (r: Self)
        ensures
            r == (Self { block_hash, ..self }),
    {
        Self { block_hash, ..self }
    }
}

/// Builder of an OutPoint record.
#[derive(Clone, Debug)]
pub struct OutPointBuilder {
    pub tx_hash: [u8; 32],
    pub index: u32,
}

impl Default for OutPointBuilder {
    /// All-zero transaction hash, index zero.
    fn default() -> (r: Self)
        ensures
            r.tx_hash@ == Seq::new(32, |i: int| 0u8),
            r.index == 0,
    {
        OutPointBuilder { tx_hash: [0u8; 32], index: 0 }
    }
}

impl OutPointBuilder {
    pub fn build(self) -> (r: OutPoint)
        ensures
            r.tx_hash == self.tx_hash,
            r.index == self.index,
    {
        OutPoint { tx_hash: self.tx_hash, index: self.index }
    }

    pub fn tx_hash(self, tx_hash: [u8; 32]) -> (r: Self)
        ensures
            r == (Self { tx_hash, ..self }),
    {
        Self { tx_hash, ..self }
    }

    pub fn index(self, index: u32) -> (r: Self)
        ensures
            r == (Self { index, ..self }),
    {
        Self { index, ..self }
    }
}

/// Builder of a Script record.
#[derive(Clone, Debug)]
pub struct ScriptBuilder {
    pub code_hash: [u8; 32],
    pub hash_type: u8,
    pub args: Vec<u8>,
}

impl Default for ScriptBuilder {
    /// All-zero code hash, hash_type zero, empty args.
    fn default() -> (r: Self)
        ensures
            r.code_hash@ == Seq::new(32, |i: int| 0u8),
            r.hash_type == 0,
            r.args@ == Seq::<u8>::empty(),
    {
        ScriptBuilder { code_hash: [0u8; 32], hash_type: 0, args: Vec::new() }
    }
}

impl ScriptBuilder {
    pub fn build(self) -> (r: Script)
        ensures
            r.code_hash == self.code_hash,
            r.hash_type == self.hash_type,
            r.args == self.args,
    {
        Script { code_hash: self.code_hash, hash_type: self.hash_type, args: self.args }
    }

    pub fn code_hash(self, code_hash: [u8; 32]) -> (r: Self)
        ensures
            r == (Self { code_hash, ..self }),
    {
        Self { code_hash, ..self }
    }

    pub fn hash_type(self, hash_type: u8) -> (r: Self)
        ensures
            r == (Self { hash_type, ..self }),
    {
        Self { hash_type, ..self }
    }

    pub fn args(self, args: Vec<u8>) -> (r: Self)
        ensures
            r == (Self { args, ..self }),
    {
        Self { args, ..self }
    }
}

/// Builder of a CellOutput record. The optional type script is carried as an
/// Option here and becomes a zero-or-one-element sequence on finalization.
#[derive(Clone, Debug)]
pub struct CellOutputBuilder {
    pub capacity: u64,
    pub lock: Script,
    pub type_: Option<Script>,
}

impl Default for CellOutputBuilder {
    /// Capacity zero, default lock script, no type script.
    fn default() -> (r: Self)
        ensures
            r.capacity == 0,
            r.lock.code_hash@ == Seq::new(32, |i: int| 0u8),
            r.lock.hash_type == 0,
            r.lock.args@ == Seq::<u8>::empty(),
            r.type_ is None,
    {
        CellOutputBuilder {
            capacity: 0,
            lock: Script { code_hash: [0u8; 32], hash_type: 0, args: Vec::new() },
            type_: None,
        }
    }
}

impl CellOutputBuilder {
    /// Finalizes the record; "no type script" becomes the empty sequence,
    /// never null.
    pub fn build(self) -> (r: CellOutput)
        ensures
            r.capacity == self.capacity,
            r.lock == self.lock,
            self.type_ matches Some(s) ==> r.type_@ == seq![s],
            self.type_ is None ==> r.type_@ == Seq::<Script>::empty(),
    {
        let type_: Vec<Script> = match self.type_ {
            Some(s) => {
                let mut v: Vec<Script> = Vec::new();
                v.push(s);
                v
            },
            None => Vec::new(),
        };
        proof {
            if self.type_ is Some {
                assert(type_@ =~= seq![self.type_->0]);
            }
        }
        CellOutput { capacity: self.capacity, lock: self.lock, type_ }
    }

    pub fn capacity(self, capacity: u64) -> (r: Self)
        ensures
            r == (Self { capacity, ..self }),
    {
        Self { capacity, ..self }
    }

    pub fn lock(self, lock: Script) -> (r: Self)
        ensures
            r == (Self { lock, ..self }),
    {
        Self { lock, ..self }
    }

    pub fn type_(self, type_: Option<Script>) -> (r: Self)
        ensures
            r == (Self { type_, ..self }),
    {
        Self { type_, ..self }
    }
}

/// Builder of a CellInfo record.
#[derive(Clone, Debug)]
pub struct CellInfoBuilder {
    pub out_point: OutPoint,
    pub output: CellOutput,
    pub data: Vec<u8>,
}

impl Default for CellInfoBuilder {
    /// Default outpoint, default output, empty data.
    fn default() -> (r: Self)
        ensures
            r.out_point.tx_hash@ == Seq::new(32, |i: int| 0u8),
            r.out_point.index == 0,
            r.output.capacity == 0,
            r.output.lock.code_hash@ == Seq::new(32, |i: int| 0u8),
            r.output.lock.hash_type == 0,
            r.output.lock.args@ == Seq::<u8>::empty(),
            r.output.type_@ == Seq::<Script>::empty(),
            r.data@ == Seq::<u8>::empty(),
    {
        CellInfoBuilder {
            out_point: OutPoint { tx_hash: [0u8; 32], index: 0 },
            output: CellOutput {
                capacity: 0,
                lock: Script { code_hash: [0u8; 32], hash_type: 0, args: Vec::new() },
                type_: Vec::new(),
            },
            data: Vec::new(),
        }
    }
}

impl CellInfoBuilder {
    pub fn build(self) -> (r: CellInfo)
        ensures
            r.out_point == self.out_point,
            r.output == self.output,
            r.data == self.data,
    {
        CellInfo { out_point: self.out_point, output: self.output, data: self.data }
    }

    pub fn out_point(self, out_point: OutPoint) -> (r: Self)
        ensures
            r == (Self { out_point, ..self }),
    {
        Self { out_point, ..self }
    }

    pub fn output(self, output: CellOutput) -> (r: Self)
        ensures
            r == (Self { output, ..self }),
    {
        Self { output, ..self }
    }

    pub fn data(self, data: Vec<u8>) -> (r: Self)
        ensures
            r == (Self { data, ..self }),
    {
        Self { data, ..self }
    }
}

/// Builder of a Metadata record.
#[derive(Clone, Debug)]
pub struct MetadataBuilder {
    pub version: MetadataVersion,
    pub epoch: u64,
    pub gas_limit: u64,
    pub gas_price: u64,
    pub interval: u64,
    pub verifier_list: Vec<ValidatorExtend>,
    pub propose_ratio: u64,
    pub prevote_ratio: u64,
    pub precommit_ratio: u64,
    pub brake_ratio: u64,
    pub tx_num_limit: u64,
    pub max_tx_size: u64,
}

impl Default for MetadataBuilder {
    /// The chain's stock consensus parameters; callers override per field.
    fn default() -> (r: Self)
        ensures
            r.version == (MetadataVersion { start: 1, end: 100 }),
            r.epoch == 0,
            r.gas_limit == 4294967295000u64,
            r.gas_price == 1,
            r.interval == 3000,
            r.verifier_list@ == Seq::<ValidatorExtend>::empty(),
            r.propose_ratio == 15,
            r.prevote_ratio == 10,
            r.precommit_ratio == 10,
            r.brake_ratio == 10,
            r.tx_num_limit == 2000,
            r.max_tx_size == 409600000u64,
    {
        MetadataBuilder {
            version: MetadataVersion { start: 1, end: 100 },
            epoch: 0,
            gas_limit: 4294967295000,
            gas_price: 1,
            interval: 3000,
            verifier_list: Vec::new(),
            propose_ratio: 15,
            prevote_ratio: 10,
            precommit_ratio: 10,
            brake_ratio: 10,
            tx_num_limit: 2000,
            max_tx_size: 409600000,
        }
    }
}

impl MetadataBuilder {
    /// Finalizes the record; the propose counter starts empty.
    pub fn build(self) -> (r: Metadata)
        ensures
            r.version == self.version,
            r.epoch == self.epoch,
            r.gas_limit == self.gas_limit,
            r.gas_price == self.gas_price,
            r.interval == self.interval,
            r.verifier_list == self.verifier_list,
            r.propose_ratio == self.propose_ratio,
            r.prevote_ratio == self.prevote_ratio,
            r.precommit_ratio == self.precommit_ratio,
            r.brake_ratio == self.brake_ratio,
            r.tx_num_limit == self.tx_num_limit,
            r.max_tx_size == self.max_tx_size,
            r.propose_counter@ == Seq::<ProposeCount>::empty(),
    {
        Metadata {
            version: self.version,
            epoch: self.epoch,
            gas_limit: self.gas_limit,
            gas_price: self.gas_price,
            interval: self.interval,
            verifier_list: self.verifier_list,
            propose_ratio: self.propose_ratio,
            prevote_ratio: self.prevote_ratio,
            precommit_ratio: self.precommit_ratio,
            brake_ratio: self.brake_ratio,
            tx_num_limit: self.tx_num_limit,
            max_tx_size: self.max_tx_size,
            propose_counter: Vec::new(),
        }
    }

    pub fn version(self, start: u64, end: u64) -> (r: Self)
        ensures
            r == (Self { version: MetadataVersion { start, end }, ..self }),
    {
        Self { version: MetadataVersion { start, end }, ..self }
    }

    pub fn epoch(self, epoch: u64) -> (r: Self)
        ensures
            r == (Self { epoch, ..self }),
    {
        Self { epoch, ..self }
    }

    pub fn gas_limit(self, gas_limit: u64) -> (r: Self)
        ensures
            r == (Self { gas_limit, ..self }),
    {
        Self { gas_limit, ..self }
    }

    pub fn gas_price(self, gas_price: u64) -> (r: Self)
        ensures
            r == (Self { gas_price, ..self }),
    {
        Self { gas_price, ..self }
    }

    pub fn interval(self, interval: u64) -> (r: Self)
        ensures
            r == (Self { interval, ..self }),
    {
        Self { interval, ..self }
    }

    /// Derives one validator per supplied key pair, in order: the address is
    /// recomputed from pub_key — never trusted from input — and both weights
    /// are fixed at one. Duplicate keys are not rejected; uniqueness is the
    /// caller's precondition.
    pub fn verifier_list(self, public_keys: Vec<NodePubKey>) -> (r: Self)
        ensures
            r.verifier_list@.len() == public_keys@.len(),
            forall|i: int| 0 <= i < public_keys@.len() ==> {
                &&& (#[trigger] r.verifier_list@[i]).bls_pub_key@ == public_keys@[i].bls_pub_key@
                &&& r.verifier_list@[i].pub_key@ == public_keys@[i].pub_key@
                &&& r.verifier_list@[i].address@ == address_of(public_keys@[i].pub_key@)
                &&& r.verifier_list@[i].propose_weight == 1u32
                &&& r.verifier_list@[i].vote_weight == 1u32
            },
            r.version == self.version,
            r.epoch == self.epoch,
            r.gas_limit == self.gas_limit,
            r.gas_price == self.gas_price,
            r.interval == self.interval,
            r.propose_ratio == self.propose_ratio,
            r.prevote_ratio == self.prevote_ratio,
            r.precommit_ratio == self.precommit_ratio,
            r.brake_ratio == self.brake_ratio,
            r.tx_num_limit == self.tx_num_limit,
            r.max_tx_size == self.max_tx_size,
    {
        let mut list: Vec<ValidatorExtend> = Vec::new();
        let n = public_keys.len();
        let mut i: usize = 0;
        while i < n
            invariant
                n == public_keys@.len(),
                list@.len() == i,
                0 <= i <= n,
                forall|j: int| 0 <= j < i ==> {
                    &&& (#[trigger] list@[j]).bls_pub_key@ == public_keys@[j].bls_pub_key@
                    &&& list@[j].pub_key@ == public_keys@[j].pub_key@
                    &&& list@[j].address@ == address_of(public_keys@[j].pub_key@)
                    &&& list@[j].propose_weight == 1u32
                    &&& list@[j].vote_weight == 1u32
                },
            decreases n - i,
        {
            let pk = &public_keys[i];
            let address = derive_address(pk.pub_key.as_slice());
            list.push(ValidatorExtend {
                bls_pub_key: slice_to_vec(pk.bls_pub_key.as_slice()),
                pub_key: slice_to_vec(pk.pub_key.as_slice()),
                address,
                propose_weight: 1,
                vote_weight: 1,
            });
            i += 1;
        }
        Self { verifier_list: list, ..self }
    }

    pub fn propose_ratio(self, propose_ratio: u64) -> (r: Self)
        ensures
            r == (Self { propose_ratio, ..self }),
    {
        Self { propose_ratio, ..self }
    }

    pub fn prevote_ratio(self, prevote_ratio: u64) -> (r: Self)
        ensures
            r == (Self { prevote_ratio, ..self }),
    {
        Self { prevote_ratio, ..self }
    }

    pub fn precommit_ratio(self, precommit_ratio: u64) -> (r: Self)
        ensures
            r == (Self { precommit_ratio, ..self }),
    {
        Self { precommit_ratio, ..self }
    }

    pub fn brake_ratio(self, brake_ratio: u64) -> (r: Self)
        ensures
            r == (Self { brake_ratio, ..self }),
    {
        Self { brake_ratio, ..self }
    }

    pub fn tx_num_limit(self, tx_num_limit: u64) -> (r: Self)
        ensures
            r == (Self { tx_num_limit, ..self }),
    {
        Self { tx_num_limit, ..self }
    }

    pub fn max_tx_size(self, max_tx_size: u64) -> (r: Self)
        ensures
            r == (Self { max_tx_size, ..self }),
    {
        Self { max_tx_size, ..self }
    }
}

/// Builder of a CkbRelatedInfo record.
#[derive(Clone, Debug)]
pub struct CkbRelatedInfoBuilder {
    pub metadata_type_id: [u8; 32],
    pub checkpoint_type_id: [u8; 32],
    pub xudt_args: [u8; 32],
    pub stake_smt_type_id: [u8; 32],
    pub delegate_smt_type_id: [u8; 32],
    pub reward_smt_type_id: [u8; 32],
}

impl Default for CkbRelatedInfoBuilder {
    /// Every identifier all-zero bytes.
    fn default() -> (r: Self)
        ensures
            r.metadata_type_id@ == Seq::new(32, |i: int| 0u8),
            r.checkpoint_type_id@ == Seq::new(32, |i: int| 0u8),
            r.xudt_args@ == Seq::new(32, |i: int| 0u8),
            r.stake_smt_type_id@ == Seq::new(32, |i: int| 0u8),
            r.delegate_smt_type_id@ == Seq::new(32, |i: int| 0u8),
            r.reward_smt_type_id@ == Seq::new(32, |i: int| 0u8),
    {
        CkbRelatedInfoBuilder {
            metadata_type_id: [0u8; 32],
            checkpoint_type_id: [0u8; 32],
            xudt_args: [0u8; 32],
            stake_smt_type_id: [0u8; 32],
            delegate_smt_type_id: [0u8; 32],
            reward_smt_type_id: [0u8; 32],
        }
    }
}

impl CkbRelatedInfoBuilder {
    pub fn build(self) -> (r: CkbRelatedInfo)
        ensures
            r.metadata_type_id == self.metadata_type_id,
            r.checkpoint_type_id == self.checkpoint_type_id,
            r.xudt_args == self.xudt_args,
            r.stake_smt_type_id == self.stake_smt_type_id,
            r.delegate_smt_type_id == self.delegate_smt_type_id,
            r.reward_smt_type_id == self.reward_smt_type_id,
    {
        CkbRelatedInfo {
            metadata_type_id: self.metadata_type_id,
            checkpoint_type_id: self.checkpoint_type_id,
            xudt_args: self.xudt_args,
            stake_smt_type_id: self.stake_smt_type_id,
            delegate_smt_type_id: self.delegate_smt_type_id,
            reward_smt_type_id: self.reward_smt_type_id,
        }
    }

    pub fn metadata_type_id(self, metadata_type_id: [u8; 32]) -> (r: Self)
        ensures
            r == (Self { metadata_type_id, ..self }),
    {
        Self { metadata_type_id, ..self }
    }

    pub fn checkpoint_type_id(self, checkpoint_type_id: [u8; 32]) -> (r: Self)
        ensures
            r == (Self { checkpoint_type_id, ..self }),
    {
        Self { checkpoint_type_id, ..self }
    }

    pub fn xudt_args(self, xudt_args: [u8; 32]) -> (r: Self)
        ensures
            r == (Self { xudt_args, ..self }),
    {
        Self { xudt_args, ..self }
    }

    pub fn stake_smt_type_id(self, stake_smt_type_id: [u8; 32]) -> (r: Self)
        ensures
            r == (Self { stake_smt_type_id, ..self }),
    {
        Self { stake_smt_type_id, ..self }
    }

    pub fn delegate_smt_type_id(self, delegate_smt_type_id: [u8; 32]) -> (r: Self)
        ensures
            r == (Self { delegate_smt_type_id, ..self }),
    {
        Self { delegate_smt_type_id, ..self }
    }

    pub fn reward_smt_type_id(self, reward_smt_type_id: [u8; 32]) -> (r: Self)
        ensures
            r == (Self { reward_smt_type_id, ..self }),
    {
        Self { reward_smt_type_id, ..self }
    }
}

} // verus!
