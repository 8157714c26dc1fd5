use axon_abi::{
    CellBlockRollback, CellBlockUpdate, CellInfo, CellOutput, CellRollbackCall, CellUpdateCall,
    Header, HeaderRollbackCall, HeaderUpdateCall, OutPoint, Script, SetStateCall,
};
use ethers_core::abi::{decode, encode, ParamType, Token};
use ethers_core::utils::id;

const IMAGE_CELL_UPDATE_SIG: &str = "update((uint64,(bytes32,uint32)[],((bytes32,uint32),(uint64,(bytes32,uint8,bytes),(bytes32,uint8,bytes)[]),bytes)[])[])";
const IMAGE_CELL_ROLLBACK_SIG: &str = "rollback(((bytes32,uint32)[],(bytes32,uint32)[])[])";
const LIGHT_CLIENT_UPDATE_SIG: &str = "update((uint32,uint32,uint64,uint64,uint64,bytes32,bytes32,bytes32,bytes32,bytes32,uint128,bytes,bytes32)[])";
const LIGHT_CLIENT_ROLLBACK_SIG: &str = "rollback(bytes32[])";
const SET_STATE_SIG: &str = "setState(bool)";

fn sample_header(seed: u8, number: u64) -> Header {
    Header {
        version: 0,
        compact_target: 0x2001_0000,
        timestamp: 1_600_000_000_000 + number,
        number,
        epoch: 7,
        parent_hash: [seed; 32],
        transactions_root: [seed.wrapping_add(1); 32],
        proposals_hash: [seed.wrapping_add(2); 32],
        extra_hash: [seed.wrapping_add(3); 32],
        dao: [seed.wrapping_add(4); 32],
        nonce: 0xdead_beef,
        extension: vec![seed, seed],
        block_hash: [seed.wrapping_add(5); 32],
    }
}

fn header_param_type() -> ParamType {
    ParamType::Tuple(vec![
        ParamType::Uint(32),
        ParamType::Uint(32),
        ParamType::Uint(64),
        ParamType::Uint(64),
        ParamType::Uint(64),
        ParamType::FixedBytes(32),
        ParamType::FixedBytes(32),
        ParamType::FixedBytes(32),
        ParamType::FixedBytes(32),
        ParamType::FixedBytes(32),
        ParamType::Uint(128),
        ParamType::Bytes,
        ParamType::FixedBytes(32),
    ])
}

#[test]
fn image_cell_update_selector_matches_signature() {
    let enc = CellUpdateCall::new(vec![]).abi_encode();
    assert_eq!(&enc[0..4], &id(IMAGE_CELL_UPDATE_SIG));
}

#[test]
fn image_cell_rollback_selector_matches_signature() {
    let enc = CellRollbackCall::new(vec![]).abi_encode();
    assert_eq!(&enc[0..4], &id(IMAGE_CELL_ROLLBACK_SIG));
}

#[test]
fn light_client_update_selector_matches_signature() {
    let enc = HeaderUpdateCall::new(vec![]).abi_encode();
    assert_eq!(&enc[0..4], &id(LIGHT_CLIENT_UPDATE_SIG));
}

#[test]
fn light_client_rollback_selector_matches_signature() {
    let enc = HeaderRollbackCall::new(vec![]).abi_encode();
    assert_eq!(&enc[0..4], &id(LIGHT_CLIENT_ROLLBACK_SIG));
}

#[test]
fn set_state_selector_matches_signature() {
    let enc = SetStateCall::new(true).abi_encode();
    assert_eq!(&enc[0..4], &id(SET_STATE_SIG));
}

#[test]
fn empty_batches_encode_to_minimal_calls() {
    // Selector plus the encoding of one empty dynamic array: 4 + 32 + 32.
    let empty_array = encode(&[Token::Array(vec![])]);
    for enc in [
        CellUpdateCall::new(vec![]).abi_encode(),
        CellRollbackCall::new(vec![]).abi_encode(),
        HeaderUpdateCall::new(vec![]).abi_encode(),
        HeaderRollbackCall::new(vec![]).abi_encode(),
    ] {
        assert_eq!(enc.len(), 68);
        assert_eq!(&enc[4..], &empty_array[..]);
    }
}

#[test]
fn set_state_encodes_one_bool_word() {
    let enc = SetStateCall::new(true).abi_encode();
    assert_eq!(&enc[4..], &encode(&[Token::Bool(true)])[..]);
    let enc = SetStateCall::new(false).abi_encode();
    assert_eq!(&enc[4..], &encode(&[Token::Bool(false)])[..]);
}

#[test]
fn encoding_is_deterministic() {
    let make = || {
        HeaderUpdateCall::new(vec![sample_header(9, 400), sample_header(3, 401)]).abi_encode()
    };
    assert_eq!(make(), make());
    let make_cells = || {
        CellUpdateCall::new(vec![CellBlockUpdate::new(
            42,
            vec![OutPoint { tx_hash: [7u8; 32], index: 2 }],
            vec![],
        )])
        .abi_encode()
    };
    assert_eq!(make_cells(), make_cells());
}

#[test]
fn header_update_preserves_order() {
    // Distinct, non-monotonic-looking hashes: sorting by any field would show.
    let headers = vec![sample_header(0x9a, 12), sample_header(0x05, 3), sample_header(0x55, 77)];
    let expected_parent_hashes: Vec<[u8; 32]> =
        headers.iter().map(|h| h.parent_hash).collect();
    let expected_numbers: Vec<u64> = headers.iter().map(|h| h.number).collect();

    let enc = HeaderUpdateCall::new(headers).abi_encode();
    let decoded = decode(&[ParamType::Array(Box::new(header_param_type()))], &enc[4..]).unwrap();
    let items = match &decoded[0] {
        Token::Array(items) => items.clone(),
        other => panic!("expected an array, got {other:?}"),
    };
    assert_eq!(items.len(), 3);
    for (i, item) in items.iter().enumerate() {
        let fields = match item {
            Token::Tuple(fields) => fields,
            other => panic!("expected a tuple, got {other:?}"),
        };
        assert_eq!(fields[3], Token::Uint(expected_numbers[i].into()));
        assert_eq!(fields[5], Token::FixedBytes(expected_parent_hashes[i].to_vec()));
    }
}

#[test]
fn header_rollback_preserves_hashes_in_order() {
    let hashes = vec![[0xe1u8; 32], [0x02u8; 32], [0x77u8; 32]];
    let enc = HeaderRollbackCall::new(hashes.clone()).abi_encode();
    let decoded =
        decode(&[ParamType::Array(Box::new(ParamType::FixedBytes(32)))], &enc[4..]).unwrap();
    let items = match &decoded[0] {
        Token::Array(items) => items.clone(),
        other => panic!("expected an array, got {other:?}"),
    };
    let expected: Vec<Token> = hashes.iter().map(|h| Token::FixedBytes(h.to_vec())).collect();
    assert_eq!(items, expected);
}

#[test]
fn header_field_offsets_match_declared_layout() {
    // One header, empty extension. Offsets from the start of the call data:
    //   4   selector ends; offset word of the header array
    //   36  array length
    //   68  offset word of element 0
    //   100 head of the header tuple, thirteen 32-byte words:
    //       100 version, 132 compact_target, 164 timestamp, 196 number,
    //       228 epoch, 260 parent_hash, 292 transactions_root,
    //       324 proposals_hash, 356 extra_hash, 388 dao, 420 nonce,
    //       452 offset of extension, 484 block_hash, 516 extension length.
    let mut h = sample_header(0xab, 0x0102030405060708);
    h.extension = vec![];
    h.version = 0x11223344;
    let enc = HeaderUpdateCall::new(vec![h.clone()]).abi_encode();
    assert_eq!(enc.len(), 548);
    assert_eq!(&enc[128..132], &[0x11, 0x22, 0x33, 0x44]);
    assert_eq!(&enc[220..228], &[0x01, 0x02, 0x03, 0x04, 0x05, 0x06, 0x07, 0x08]);
    assert_eq!(&enc[260..292], &h.parent_hash);
    assert_eq!(&enc[292..324], &h.transactions_root);
    assert_eq!(&enc[388..420], &h.dao);
    assert_eq!(&enc[484..516], &h.block_hash);
}

#[test]
fn cell_update_scenario_round_trips() {
    // One cell: out_point (tx_hash of 0x01 bytes, index 0), capacity 1000,
    // lock (code_hash of 0xaa bytes, hash_type 1, empty args), no type
    // script, data [0xde, 0xad]; one block, number 42, no inputs.
    let cell = CellInfo {
        out_point: OutPoint { tx_hash: [0x01u8; 32], index: 0 },
        output: CellOutput {
            capacity: 1000,
            lock: Script { code_hash: [0xaau8; 32], hash_type: 1, args: vec![] },
            type_: vec![],
        },
        data: vec![0xde, 0xad],
    };
    let enc = CellUpdateCall::new(vec![CellBlockUpdate::new(42, vec![], vec![cell])])
        .abi_encode();

    // The same value built directly in the collaborator's own input language.
    let script = |code_hash: [u8; 32], hash_type: u8, args: Vec<u8>| {
        Token::Tuple(vec![
            Token::FixedBytes(code_hash.to_vec()),
            Token::Uint(hash_type.into()),
            Token::Bytes(args),
        ])
    };
    let expected_cell = Token::Tuple(vec![
        Token::Tuple(vec![Token::FixedBytes(vec![0x01u8; 32]), Token::Uint(0u32.into())]),
        Token::Tuple(vec![
            Token::Uint(1000u64.into()),
            script([0xaau8; 32], 1, vec![]),
            Token::Array(vec![]),
        ]),
        Token::Bytes(vec![0xde, 0xad]),
    ]);
    let expected_block = Token::Tuple(vec![
        Token::Uint(42u64.into()),
        Token::Array(vec![]),
        Token::Array(vec![expected_cell]),
    ]);
    let expected = encode(&[Token::Array(vec![expected_block.clone()])]);
    assert_eq!(&enc[4..], &expected[..]);

    // And back out through an independent decoder that knows the schema.
    let out_point_ty = ParamType::Tuple(vec![ParamType::FixedBytes(32), ParamType::Uint(32)]);
    let script_ty = ParamType::Tuple(vec![
        ParamType::FixedBytes(32),
        ParamType::Uint(8),
        ParamType::Bytes,
    ]);
    let cell_ty = ParamType::Tuple(vec![
        out_point_ty.clone(),
        ParamType::Tuple(vec![
            ParamType::Uint(64),
            script_ty.clone(),
            ParamType::Array(Box::new(script_ty)),
        ]),
        ParamType::Bytes,
    ]);
    let block_ty = ParamType::Tuple(vec![
        ParamType::Uint(64),
        ParamType::Array(Box::new(out_point_ty)),
        ParamType::Array(Box::new(cell_ty)),
    ]);
    let decoded = decode(&[ParamType::Array(Box::new(block_ty))], &enc[4..]).unwrap();
    assert_eq!(decoded[0], Token::Array(vec![expected_block]));
}

#[test]
fn cell_rollback_round_trips() {
    let block = CellBlockRollback::new(
        vec![OutPoint { tx_hash: [0x10u8; 32], index: 5 }],
        vec![OutPoint { tx_hash: [0x20u8; 32], index: 0 }],
    );
    let enc = CellRollbackCall::new(vec![block]).abi_encode();

    let out_point = |tx_hash: [u8; 32], index: u32| {
        Token::Tuple(vec![Token::FixedBytes(tx_hash.to_vec()), Token::Uint(index.into())])
    };
    let expected = encode(&[Token::Array(vec![Token::Tuple(vec![
        Token::Array(vec![out_point([0x10u8; 32], 5)]),
        Token::Array(vec![out_point([0x20u8; 32], 0)]),
    ])])]);
    assert_eq!(&enc[4..], &expected[..]);
}
