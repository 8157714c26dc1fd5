//! Records and calls of the light-client contract, which mirrors CKB chain
//! headers on the destination chain.

use crate::abi::{
    call_data, encode_call, lemma_model_seq, model_seq, AbiValue, AbiValueV,
};
use vstd::prelude::*;
use vstd::slice::slice_to_vec;

verus! {

broadcast use vstd::std_specs::vec::group_vec_axioms, vstd::array::group_array_axioms;

/// A CKB block header in the fixed layout the light-client contract declares.
/// block_hash is transported, not recomputed: the destination contract checks
/// it against the other fields; this crate's job is field transport alone.
#[derive(Clone, Debug, PartialEq, Eq)]
pub struct Header {
    pub version: u32,
    pub compact_target: u32,
    pub timestamp: u64,
    pub number: u64,
    pub epoch: u64,
    pub parent_hash: [u8; 32],
    pub transactions_root: [u8; 32],
    pub proposals_hash: [u8; 32],
    pub extra_hash: [u8; 32],
    pub dao: [u8; 32],
    pub nonce: u128,
    pub extension: Vec<u8>,
    pub block_hash: [u8; 32],
}

/// The argument value of one header: its thirteen fields, in the contract's
/// declared order. This order is part of the wire contract.
pub open spec fn header_value(h: Header) -> AbiValueV {
    AbiValueV::Tuple(
        seq![
            AbiValueV::Uint(h.version as u128),
            AbiValueV::Uint(h.compact_target as u128),
            AbiValueV::Uint(h.timestamp as u128),
            AbiValueV::Uint(h.number as u128),
            AbiValueV::Uint(h.epoch as u128),
            AbiValueV::FixedBytes(h.parent_hash@),
            AbiValueV::FixedBytes(h.transactions_root@),
            AbiValueV::FixedBytes(h.proposals_hash@),
            AbiValueV::FixedBytes(h.extra_hash@),
            AbiValueV::FixedBytes(h.dao@),
            AbiValueV::Uint(h.nonce as u128),
            AbiValueV::Bytes(h.extension@),
            AbiValueV::FixedBytes(h.block_hash@),
        ],
    )
}

fn header_abi_value(h: &Header) -> (r: AbiValue)
    ensures
        r.model() == header_value(*h),
{
    let mut fields: Vec<AbiValue> = Vec::new();
    fields.push(AbiValue::Uint(h.version as u128));
    fields.push(AbiValue::Uint(h.compact_target as u128));
    fields.push(AbiValue::Uint(h.timestamp as u128));
    fields.push(AbiValue::Uint(h.number as u128));
    fields.push(AbiValue::Uint(h.epoch as u128));
    fields.push(AbiValue::FixedBytes(slice_to_vec(h.parent_hash.as_slice())));
    fields.push(AbiValue::FixedBytes(slice_to_vec(h.transactions_root.as_slice())));
    fields.push(AbiValue::FixedBytes(slice_to_vec(h.proposals_hash.as_slice())));
    fields.push(AbiValue::FixedBytes(slice_to_vec(h.extra_hash.as_slice())));
    fields.push(AbiValue::FixedBytes(slice_to_vec(h.dao.as_slice())));
    fields.push(AbiValue::Uint(h.nonce));
    fields.push(AbiValue::Bytes(slice_to_vec(h.extension.as_slice())));
    fields.push(AbiValue::FixedBytes(slice_to_vec(h.block_hash.as_slice())));
    let ghost fs = fields@;
    let r = AbiValue::Tuple(fields);
    proof {
        lemma_model_seq(fs);
        assert(model_seq(fs) =~= header_value(*h)->Tuple_0);
        assert(r.model() =~~= header_value(*h));
    }
    r
}

/// The argument value of the light-client Update method: the supplied headers
/// wrapped into one array, order preserved exactly.
pub open spec fn header_update_value(headers: Seq<Header>) -> AbiValueV {
    AbiValueV::Array(headers.map_values(|h: Header| header_value(h)))
}

/// Call data of the light-client Update method. The selector is the first
/// four bytes of the Keccak-256 digest of the method's canonical signature,
/// "update((uint32,uint32,uint64,uint64,uint64,bytes32,bytes32,bytes32,bytes32,bytes32,uint128,bytes,bytes32)[])".
pub open spec fn header_update_call_data(headers: Seq<Header>) -> Seq<u8> {
    call_data(seq![0x5du8, 0x4eu8, 0x84u8, 0x42u8], header_update_value(headers))
}

/// Order preservation: the encoded batch carries one entry per header, each
/// at the index its header was supplied at.
pub proof fn lemma_header_update_order(headers: Seq<Header>)
    ensures
        header_update_value(headers) matches AbiValueV::Array(vs) && vs.len() == headers.len()
            && forall|i: int| 0 <= i < headers.len() ==> vs[i] == header_value(headers[i]),
{
}

/// Determinism: two Update calls over equal header sets have byte-identical
/// call data; the encoding is a function of the records alone.
pub proof fn lemma_header_update_deterministic(a: HeaderUpdateCall, b: HeaderUpdateCall)
    requires
        a.headers@ == b.headers@,
    ensures
        header_update_call_data(a.headers@) == header_update_call_data(b.headers@),
{
}

fn headers_abi_values(hs: &Vec<Header>) -> (r: Vec<AbiValue>)
    ensures
        model_seq(r@) == hs@.map_values(|h: Header| header_value(h)),
{
    let mut out: Vec<AbiValue> = Vec::new();
    let n = hs.len();
    let mut i: usize = 0;
    while i < n
        invariant
            n == hs@.len(),
            out@.len() == i,
            0 <= i <= n,
            forall|j: int| 0 <= j < i ==> out@[j].model() == header_value(hs@[j]),
        decreases n - i,
    {
        out.push(header_abi_value(&hs[i]));
        i += 1;
    }
    proof {
        lemma_model_seq(out@);
        assert(model_seq(out@) =~= hs@.map_values(|h: Header| header_value(h)));
    }
    out
}

/// Light-client Update: a batch of full headers, in the caller's order. The
/// assembler neither sorts nor validates; the chain's history is
/// order-sensitive and ordering is the caller's contract.
pub struct HeaderUpdateCall {
    pub headers: Vec<Header>,
}

impl HeaderUpdateCall {
    pub fn new(headers: Vec<Header>) -> (r: Self)
        ensures
            r.headers == headers,
    {
        Self { headers }
    }

    pub fn abi_encode(self) -> (r: Vec<u8>)
        ensures
            r@ == header_update_call_data(self.headers@),
    {
        let values = headers_abi_values(&self.headers);
        encode_call(0x5d, 0x4e, 0x84, 0x42, AbiValue::Array(values))
    }
}

/// The argument value of the light-client Rollback method: the block hashes
/// to excise, order preserved.
pub open spec fn header_rollback_value(hashes: Seq<[u8; 32]>) -> AbiValueV {
    AbiValueV::Array(hashes.map_values(|h: [u8; 32]| AbiValueV::FixedBytes(h@)))
}

/// Call data of the light-client Rollback method. The selector is the first
/// four bytes of the Keccak-256 digest of "rollback(bytes32[])".
pub open spec fn header_rollback_call_data(hashes: Seq<[u8; 32]>) -> Seq<u8> {
    call_data(seq![0xd3u8, 0x2au8, 0x22u8, 0x85u8], header_rollback_value(hashes))
}

/// Light-client Rollback: the block hashes to excise from recorded history.
pub struct HeaderRollbackCall {
    pub block_hashes: Vec<[u8; 32]>,
}

impl HeaderRollbackCall {
    pub fn new(hashes: Vec<[u8; 32]>) -> (r: Self)
        ensures
            r.block_hashes == hashes,
    {
        Self { block_hashes: hashes }
    }

    pub fn abi_encode(self) -> (r: Vec<u8>)
        ensures
            r@ == header_rollback_call_data(self.block_hashes@),
    {
        let mut out: Vec<AbiValue> = Vec::new();
        let n = self.block_hashes.len();
        let mut i: usize = 0;
        while i < n
            invariant
                n == self.block_hashes@.len(),
                out@.len() == i,
                0 <= i <= n,
                forall|j: int| 0 <= j < i ==> out@[j].model()
                    == AbiValueV::FixedBytes(self.block_hashes@[j]@),
            decreases n - i,
        {
            out.push(AbiValue::FixedBytes(slice_to_vec(self.block_hashes[i].as_slice())));
            i += 1;
        }
        proof {
            lemma_model_seq(out@);
            assert(model_seq(out@) =~= self.block_hashes@.map_values(
                |h: [u8; 32]| AbiValueV::FixedBytes(h@),
            ));
        }
        encode_call(0xd3, 0x2a, 0x22, 0x85, AbiValue::Array(out))
    }
}

/// The argument value of the light-client SetState method.
pub open spec fn set_state_value(allow_read: bool) -> AbiValueV {
    AbiValueV::Bool(allow_read)
}

/// Call data of the light-client SetState method. The selector is the first
/// four bytes of the Keccak-256 digest of "setState(bool)".
pub open spec fn set_state_call_data(allow_read: bool) -> Seq<u8> {
    call_data(seq![0xacu8, 0x9fu8, 0x02u8, 0x22u8], set_state_value(allow_read))
}

/// Light-client SetState: one flag controlling whether the light client
/// accepts read queries.
pub struct SetStateCall {
    pub allow_read: bool,
}

impl SetStateCall {
    pub fn new(allow_read: bool) -> (r: Self)
        ensures
            r.allow_read == allow_read,
    {
        Self { allow_read }
    }

    pub fn abi_encode(self) -> (r: Vec<u8>)
        ensures
            r@ == set_state_call_data(self.allow_read),
    {
        encode_call(0xac, 0x9f, 0x02, 0x22, AbiValue::Bool(self.allow_read))
    }
}

} // verus!
