//! Records and calls of the image-cell contract, which mirrors a subset of
//! CKB's live cell set on the destination chain.

use crate::abi::{
    call_data, encode_call, lemma_model_seq, model_seq, AbiValue, AbiValueV,
};
use vstd::prelude::*;
use vstd::slice::slice_to_vec;

verus! {

broadcast use vstd::std_specs::vec::group_vec_axioms, vstd::array::group_array_axioms;

/// Reference to one cell: the transaction that created it and the cell's
/// position among that transaction's outputs.
#[derive(Clone, Copy, Debug, PartialEq, Eq)]
pub struct OutPoint {
    pub tx_hash: [u8; 32],
    pub index: u32,
}

/// A lock or type condition attached to a cell. hash_type is a small
/// enum-coded byte of the source chain, transported as supplied.
#[derive(Clone, Debug, PartialEq, Eq)]
pub struct Script {
    pub code_hash: [u8; 32],
    pub hash_type: u8,
    pub args: Vec<u8>,
}

/// A cell's capacity and scripts. A cell has exactly one lock script and at
/// most one type script; "no type script" is an empty sequence, never null.
#[derive(Clone, Debug, PartialEq, Eq)]
pub struct CellOutput {
    pub capacity: u64,
    pub lock: Script,
    pub type_: Vec<Script>,
}

/// A live cell in full: where it lives, what spending conditions apply, and
/// its payload.
#[derive(Clone, Debug, PartialEq, Eq)]
pub struct CellInfo {
    pub out_point: OutPoint,
    pub output: CellOutput,
    pub data: Vec<u8>,
}

/// One relayed CKB block: its number, the outpoints its transactions spent,
/// and the cells they created.
#[derive(Clone, Debug, PartialEq, Eq)]
pub struct CellBlockUpdate {
    pub block_number: u64,
    pub tx_inputs: Vec<OutPoint>,
    pub tx_outputs: Vec<CellInfo>,
}

/// The reversal of one relayed block, by outpoint only: reversal invalidates
/// index entries, it does not recreate cell content.
#[derive(Clone, Debug, PartialEq, Eq)]
pub struct CellBlockRollback {
    pub tx_inputs: Vec<OutPoint>,
    pub tx_outputs: Vec<OutPoint>,
}

/// The argument value of an outpoint: (tx_hash, index), in the contract's
/// declared order.
pub open spec fn out_point_value(p: OutPoint) -> AbiValueV {
    AbiValueV::Tuple(
        seq![AbiValueV::FixedBytes(p.tx_hash@), AbiValueV::Uint(p.index as u128)],
    )
}

/// The argument value of a script: (code_hash, hash_type, args).
pub open spec fn script_value(s: Script) -> AbiValueV {
    AbiValueV::Tuple(
        seq![
            AbiValueV::FixedBytes(s.code_hash@),
            AbiValueV::Uint(s.hash_type as u128),
            AbiValueV::Bytes(s.args@),
        ],
    )
}

/// The argument value of a cell output: (capacity, lock, type scripts).
pub open spec fn cell_output_value(o: CellOutput) -> AbiValueV {
    AbiValueV::Tuple(
        seq![
            AbiValueV::Uint(o.capacity as u128),
            script_value(o.lock),
            AbiValueV::Array(o.type_@.map_values(|s: Script| script_value(s))),
        ],
    )
}

/// The argument value of a full cell: (out_point, output, data).
pub open spec fn cell_info_value(c: CellInfo) -> AbiValueV {
    AbiValueV::Tuple(
        seq![
            out_point_value(c.out_point),
            cell_output_value(c.output),
            AbiValueV::Bytes(c.data@),
        ],
    )
}

/// The argument value of one block's update: (block_number, tx_inputs,
/// tx_outputs), each list in caller order.
pub open spec fn block_update_value(b: CellBlockUpdate) -> AbiValueV {
    AbiValueV::Tuple(
        seq![
            AbiValueV::Uint(b.block_number as u128),
            AbiValueV::Array(b.tx_inputs@.map_values(|p: OutPoint| out_point_value(p))),
            AbiValueV::Array(b.tx_outputs@.map_values(|c: CellInfo| cell_info_value(c))),
        ],
    )
}

/// The argument value of one block's rollback: (tx_inputs, tx_outputs).
pub open spec fn block_rollback_value(b: CellBlockRollback) -> AbiValueV {
    AbiValueV::Tuple(
        seq![
            AbiValueV::Array(b.tx_inputs@.map_values(|p: OutPoint| out_point_value(p))),
            AbiValueV::Array(b.tx_outputs@.map_values(|p: OutPoint| out_point_value(p))),
        ],
    )
}

/// The argument value of the image-cell Update method: the supplied blocks
/// wrapped into one array, order preserved exactly.
pub open spec fn cell_update_value(blocks: Seq<CellBlockUpdate>) -> AbiValueV {
    AbiValueV::Array(blocks.map_values(|b: CellBlockUpdate| block_update_value(b)))
}

/// The argument value of the image-cell Rollback method.
pub open spec fn cell_rollback_value(blocks: Seq<CellBlockRollback>) -> AbiValueV {
    AbiValueV::Array(blocks.map_values(|b: CellBlockRollback| block_rollback_value(b)))
}

/// Call data of the image-cell Update method. The selector is the first four
/// bytes of the Keccak-256 digest of the method's canonical signature,
/// "update((uint64,(bytes32,uint32)[],((bytes32,uint32),(uint64,(bytes32,uint8,bytes),(bytes32,uint8,bytes)[]),bytes)[])[])".
pub open spec fn cell_update_call_data(blocks: Seq<CellBlockUpdate>) -> Seq<u8> {
    call_data(seq![0xafu8, 0xa7u8, 0x4eu8, 0x04u8], cell_update_value(blocks))
}

/// Call data of the image-cell Rollback method. The selector is the first
/// four bytes of the Keccak-256 digest of the method's canonical signature,
/// "rollback(((bytes32,uint32)[],(bytes32,uint32)[])[])".
pub open spec fn cell_rollback_call_data(blocks: Seq<CellBlockRollback>) -> Seq<u8> {
    call_data(seq![0x08u8, 0xc1u8, 0x72u8, 0x28u8], cell_rollback_value(blocks))
}

/// Determinism: two Update calls over equal block sets have byte-identical
/// call data; the encoding is a function of the records alone.
pub proof fn lemma_cell_update_deterministic(a: CellUpdateCall, b: CellUpdateCall)
    requires
        a.blocks@ == b.blocks@,
    ensures
        cell_update_call_data(a.blocks@) == cell_update_call_data(b.blocks@),
{
}

fn out_point_abi_value(p: &OutPoint) -> (r: AbiValue)
    ensures
        r.model() == out_point_value(*p),
{
    let mut fields: Vec<AbiValue> = Vec::new();
    fields.push(AbiValue::FixedBytes(slice_to_vec(p.tx_hash.as_slice())));
    fields.push(AbiValue::Uint(p.index as u128));
    let ghost fs = fields@;
    let r = AbiValue::Tuple(fields);
    proof {
        lemma_model_seq(fs);
        assert(model_seq(fs) =~= out_point_value(*p)->Tuple_0);
        assert(r.model() =~~= out_point_value(*p));
    }
    r
}

fn out_points_abi_values(ps: &Vec<OutPoint>) -> (r: Vec<AbiValue>)
    ensures
        model_seq(r@) == ps@.map_values(|p: OutPoint| out_point_value(p)),
{
    let mut out: Vec<AbiValue> = Vec::new();
    let n = ps.len();
    let mut i: usize = 0;
    while i < n
        invariant
            n == ps@.len(),
            out@.len() == i,
            0 <= i <= n,
            forall|j: int| 0 <= j < i ==> out@[j].model() == out_point_value(ps@[j]),
        decreases n - i,
    {
        out.push(out_point_abi_value(&ps[i]));
        i += 1;
    }
    proof {
        lemma_model_seq(out@);
        assert(model_seq(out@) =~= ps@.map_values(|p: OutPoint| out_point_value(p)));
    }
    out
}

fn script_abi_value(s: &Script) -> (r: AbiValue)
    ensures
        r.model() == script_value(*s),
{
    let mut fields: Vec<AbiValue> = Vec::new();
    fields.push(AbiValue::FixedBytes(slice_to_vec(s.code_hash.as_slice())));
    fields.push(AbiValue::Uint(s.hash_type as u128));
    fields.push(AbiValue::Bytes(slice_to_vec(s.args.as_slice())));
    let ghost fs = fields@;
    let r = AbiValue::Tuple(fields);
    proof {
        lemma_model_seq(fs);
        assert(model_seq(fs) =~= script_value(*s)->Tuple_0);
        assert(r.model() =~~= script_value(*s));
    }
    r
}

fn scripts_abi_values(ss: &Vec<Script>) -> (r: Vec<AbiValue>)
    ensures
        model_seq(r@) == ss@.map_values(|s: Script| script_value(s)),
{
    let mut out: Vec<AbiValue> = Vec::new();
    let n = ss.len();
    let mut i: usize = 0;
    while i < n
        invariant
            n == ss@.len(),
            out@.len() == i,
            0 <= i <= n,
            forall|j: int| 0 <= j < i ==> out@[j].model() == script_value(ss@[j]),
        decreases n - i,
    {
        out.push(script_abi_value(&ss[i]));
        i += 1;
    }
    proof {
        lemma_model_seq(out@);
        assert(model_seq(out@) =~= ss@.map_values(|s: Script| script_value(s)));
    }
    out
}

fn cell_output_abi_value(o: &CellOutput) -> (r: AbiValue)
    ensures
        r.model() == cell_output_value(*o),
{
    let mut fields: Vec<AbiValue> = Vec::new();
    fields.push(AbiValue::Uint(o.capacity as u128));
    fields.push(script_abi_value(&o.lock));
    fields.push(AbiValue::Array(scripts_abi_values(&o.type_)));
    let ghost fs = fields@;
    let r = AbiValue::Tuple(fields);
    proof {
        lemma_model_seq(fs);
        assert(model_seq(fs) =~= cell_output_value(*o)->Tuple_0);
        assert(r.model() =~~= cell_output_value(*o));
    }
    r
}

fn cell_info_abi_value(c: &CellInfo) -> (r: AbiValue)
    ensures
        r.model() == cell_info_value(*c),
{
    let mut fields: Vec<AbiValue> = Vec::new();
    fields.push(out_point_abi_value(&c.out_point));
    fields.push(cell_output_abi_value(&c.output));
    fields.push(AbiValue::Bytes(slice_to_vec(c.data.as_slice())));
    let ghost fs = fields@;
    let r = AbiValue::Tuple(fields);
    proof {
        lemma_model_seq(fs);
        assert(model_seq(fs) =~= cell_info_value(*c)->Tuple_0);
        assert(r.model() =~~= cell_info_value(*c));
    }
    r
}

fn cell_infos_abi_values(cs: &Vec<CellInfo>) -> (r: Vec<AbiValue>)
    ensures
        model_seq(r@) == cs@.map_values(|c: CellInfo| cell_info_value(c)),
{
    let mut out: Vec<AbiValue> = Vec::new();
    let n = cs.len();
    let mut i: usize = 0;
    while i < n
        invariant
            n == cs@.len(),
            out@.len() == i,
            0 <= i <= n,
            forall|j: int| 0 <= j < i ==> out@[j].model() == cell_info_value(cs@[j]),
        decreases n - i,
    {
        out.push(cell_info_abi_value(&cs[i]));
        i += 1;
    }
    proof {
        lemma_model_seq(out@);
        assert(model_seq(out@) =~= cs@.map_values(|c: CellInfo| cell_info_value(c)));
    }
    out
}

fn block_update_abi_value(b: &CellBlockUpdate) -> (r: AbiValue)
    ensures
        r.model() == block_update_value(*b),
{
    let mut fields: Vec<AbiValue> = Vec::new();
    fields.push(AbiValue::Uint(b.block_number as u128));
    fields.push(AbiValue::Array(out_points_abi_values(&b.tx_inputs)));
    fields.push(AbiValue::Array(cell_infos_abi_values(&b.tx_outputs)));
    let ghost fs = fields@;
    let r = AbiValue::Tuple(fields);
    proof {
        lemma_model_seq(fs);
        assert(model_seq(fs) =~= block_update_value(*b)->Tuple_0);
        assert(r.model() =~~= block_update_value(*b));
    }
    r
}

fn block_rollback_abi_value(b: &CellBlockRollback) -> (r: AbiValue)
    ensures
        r.model() == block_rollback_value(*b),
{
    let mut fields: Vec<AbiValue> = Vec::new();
    fields.push(AbiValue::Array(out_points_abi_values(&b.tx_inputs)));
    fields.push(AbiValue::Array(out_points_abi_values(&b.tx_outputs)));
    let ghost fs = fields@;
    let r = AbiValue::Tuple(fields);
    proof {
        lemma_model_seq(fs);
        assert(model_seq(fs) =~= block_rollback_value(*b)->Tuple_0);
        assert(r.model() =~~= block_rollback_value(*b));
    }
    r
}

/// Image-cell Update: one entry per relayed CKB block, in the caller's
/// ascending block-number order. The assembler neither sorts nor validates;
/// ordering is the caller's contract.
pub struct CellUpdateCall {
    pub blocks: Vec<CellBlockUpdate>,
}

impl CellUpdateCall {
    pub fn new(cells: Vec<CellBlockUpdate>) -> (r: Self)
        ensures
            r.blocks == cells,
    {
        Self { blocks: cells }
    }

    pub fn abi_encode(self) -> (r: Vec<u8>)
        ensures
            r@ == cell_update_call_data(self.blocks@),
    {
        let mut out: Vec<AbiValue> = Vec::new();
        let n = self.blocks.len();
        let mut i: usize = 0;
        while i < n
            invariant
                n == self.blocks@.len(),
                out@.len() == i,
                0 <= i <= n,
                forall|j: int| 0 <= j < i ==> out@[j].model() == block_update_value(
                    self.blocks@[j],
                ),
            decreases n - i,
        {
            out.push(block_update_abi_value(&self.blocks[i]));
            i += 1;
        }
        proof {
            lemma_model_seq(out@);
            assert(model_seq(out@) =~= self.blocks@.map_values(
                |b: CellBlockUpdate| block_update_value(b),
            ));
        }
        encode_call(0xaf, 0xa7, 0x4e, 0x04, AbiValue::Array(out))
    }
}

/// Image-cell Rollback: one entry per reversed block.
pub struct CellRollbackCall {
    pub blocks: Vec<CellBlockRollback>,
}

impl CellRollbackCall {
    pub fn new(cells: Vec<CellBlockRollback>) -> (r: Self)
        ensures
            r.blocks == cells,
    {
        Self { blocks: cells }
    }

    pub fn abi_encode(self) -> (r: Vec<u8>)
        ensures
            r@ == cell_rollback_call_data(self.blocks@),
    {
        let mut out: Vec<AbiValue> = Vec::new();
        let n = self.blocks.len();
        let mut i: usize = 0;
        while i < n
            invariant
                n == self.blocks@.len(),
                out@.len() == i,
                0 <= i <= n,
                forall|j: int| 0 <= j < i ==> out@[j].model() == block_rollback_value(
                    self.blocks@[j],
                ),
            decreases n - i,
        {
            out.push(block_rollback_abi_value(&self.blocks[i]));
            i += 1;
        }
        proof {
            lemma_model_seq(out@);
            assert(model_seq(out@) =~= self.blocks@.map_values(
                |b: CellBlockRollback| block_rollback_value(b),
            ));
        }
        encode_call(0x08, 0xc1, 0x72, 0x28, AbiValue::Array(out))
    }
}

impl CellBlockUpdate {
    pub fn new(block_number: u64, inputs: Vec<OutPoint>, outputs: Vec<CellInfo>) -> (r: Self)
        ensures
            r.block_number == block_number,
            r.tx_inputs == inputs,
            r.tx_outputs == outputs,
    {
        Self { block_number, tx_inputs: inputs, tx_outputs: outputs }
    }
}

impl CellBlockRollback {
    pub fn new(inputs: Vec<OutPoint>, outputs: Vec<OutPoint>) -> (r: Self)
        ensures
            r.tx_inputs == inputs,
            r.tx_outputs == outputs,
    {
        Self { tx_inputs: inputs, tx_outputs: outputs }
    }
}

} // verus!
