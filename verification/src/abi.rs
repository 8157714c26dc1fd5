//! The destination chain's calling convention, as data.
//!
//! A contract call is a four-byte method selector followed by the ABI encoding
//! of a single argument value. The byte-level encoding is delegated to an
//! outside collaborator; this module fixes the *input* handed to it — a tagged
//! structured value — so that each record type's field layout is stated once,
//! as data, and the rest of the crate can be proved against that statement.

use vstd::prelude::*;

verus! {

broadcast use vstd::std_specs::vec::group_vec_axioms;

/// Ghost model of an ABI argument value: the tree that the contracts of this
/// crate speak of when they say what gets encoded.
#[verifier::ext_equal]
pub enum AbiValueV {
    Uint(u128),
    FixedBytes(Seq<u8>),
    Bytes(Seq<u8>),
    Bool(bool),
    Tuple(Seq<AbiValueV>),
    Array(Seq<AbiValueV>),
}

/// A tagged structured value in the destination chain's calling convention:
/// the input language of the ABI-encoding collaborator. `Uint` carries the
/// widest integer any record field needs; the declared solidity width only
/// matters for the selector, never for the body encoding, which always uses
/// one 32-byte word per integer.
pub enum AbiValue {
    Uint(u128),
    FixedBytes(Vec<u8>),
    Bytes(Vec<u8>),
    Bool(bool),
    Tuple(Vec<AbiValue>),
    Array(Vec<AbiValue>),
}

impl AbiValue {
    pub open spec fn model(self) -> AbiValueV
        decreases self,
    {
        match self {
            AbiValue::Uint(n) => AbiValueV::Uint(n),
            AbiValue::FixedBytes(b) => AbiValueV::FixedBytes(b@),
            AbiValue::Bytes(b) => AbiValueV::Bytes(b@),
            AbiValue::Bool(b) => AbiValueV::Bool(b),
            AbiValue::Tuple(vs) => AbiValueV::Tuple(model_seq(vs@)),
            AbiValue::Array(vs) => AbiValueV::Array(model_seq(vs@)),
        }
    }
}

/// The models of a sequence of values, in order.
pub open spec fn model_seq(vs: Seq<AbiValue>) -> Seq<AbiValueV>
    decreases vs,
{
    if vs.len() == 0 {
        Seq::empty()
    } else {
        seq![vs[0].model()] + model_seq(vs.subrange(1, vs.len() as int))
    }
}

pub proof fn lemma_model_seq(vs: Seq<AbiValue>)
    ensures
        model_seq(vs).len() == vs.len(),
        forall|i: int| 0 <= i < vs.len() ==> model_seq(vs)[i] == vs[i].model(),
    decreases vs.len(),
{
    if vs.len() > 0 {
        let tail = vs.subrange(1, vs.len() as int);
        lemma_model_seq(tail);
        assert forall|i: int| 0 <= i < vs.len() implies model_seq(vs)[i] == vs[i].model() by {
            if i > 0 {
                assert(model_seq(vs)[i] == model_seq(tail)[i - 1]);
                assert(tail[i - 1] == vs[i]);
            }
        }
    }
}

#[verifier::external_type_specification]
#[verifier::external_body]
pub struct ExToken(ethers_core::abi::Token);

/// The byte string the ABI-encoding collaborator produces for a value. Named,
/// not spelled out: the destination chain's encoding rules take pages to
/// state, and the bytes are a function of the value alone.
pub uninterp spec fn eth_abi_bytes(v: AbiValueV) -> Seq<u8>;

/// Relies on ethers_core::abi::Token: each variant is carried to the matching
/// token variant, fields moved one for one, children in order.
#[verifier::external_body]
fn to_eth_token(v: AbiValue) -> ethers_core::abi::Token {
    match v {
        AbiValue::Uint(n) => ethers_core::abi::Token::Uint(n.into()),
        AbiValue::FixedBytes(b) => ethers_core::abi::Token::FixedBytes(b),
        AbiValue::Bytes(b) => ethers_core::abi::Token::Bytes(b),
        AbiValue::Bool(b) => ethers_core::abi::Token::Bool(b),
        AbiValue::Tuple(vs) => {
            ethers_core::abi::Token::Tuple(vs.into_iter().map(to_eth_token).collect())
        },
        AbiValue::Array(vs) => {
            ethers_core::abi::Token::Array(vs.into_iter().map(to_eth_token).collect())
        },
    }
}

/// Relies on ethers_core::abi::encode, the general ABI-encoding collaborator:
/// a total function of the token list, hence of the value handed to it.
#[verifier::external_body]
fn eth_abi_encode(v: AbiValue) -> (r: Vec<u8>)
    ensures
        r@ == eth_abi_bytes(v.model()),
{
    ethers_core::abi::encode(&[to_eth_token(v)])
}

/// The call data of one contract method: its selector, then the ABI encoding
/// of its argument value. No other framing is added.
pub open spec fn call_data(selector: Seq<u8>, v: AbiValueV) -> Seq<u8> {
    selector + eth_abi_bytes(v)
}

/// Serializes one assembled call: the four selector bytes, then the encoded
/// argument.
pub fn encode_call(s0: u8, s1: u8, s2: u8, s3: u8, v: AbiValue) -> (r: Vec<u8>)
    ensures
        r@ == call_data(seq![s0, s1, s2, s3], v.model()),
{
    let mut out: Vec<u8> = Vec::new();
    out.push(s0);
    out.push(s1);
    out.push(s2);
    out.push(s3);
    let mut payload = eth_abi_encode(v);
    out.append(&mut payload);
    proof {
        assert(out@ =~= seq![s0, s1, s2, s3] + eth_abi_bytes(v.model()));
    }
    out
}

/// The encoding is deterministic: equal argument values give byte-identical
/// call data, whatever the selector.
pub proof fn lemma_call_data_deterministic(selector: Seq<u8>, v1: AbiValueV, v2: AbiValueV)
    requires
        v1 == v2,
    ensures
        call_data(selector, v1) == call_data(selector, v2),
{
}

} // verus!
