use ckb_types::prelude::{Builder, Entity};
use rollup_core::hash::H256;
use rollup_core::mempool::MemPool;
use rollup_core::registry::{
    Backend, DebugConfig, MemPoolConfig, NodeMode, Registry, RollupConfig,
};
use rollup_core::script::Script;
use rollup_core::state::State;
use rollup_core::store::{BlockInfo, Store};

fn h(n: u8) -> H256 {
    let mut b = [0u8; 32];
    b[0] = n;
    H256 { b }
}

#[test]
fn script_serialization_layout() {
    // Three-field table: total size, offsets 16/48/49, code hash, hash type,
    // length-prefixed args.
    let s = Script { code_hash: h(0), hash_type: 1, args: Vec::new() };
    let bytes = s.serialize();
    let mut want = Vec::new();
    want.extend_from_slice(&53u32.to_le_bytes());
    want.extend_from_slice(&16u32.to_le_bytes());
    want.extend_from_slice(&48u32.to_le_bytes());
    want.extend_from_slice(&49u32.to_le_bytes());
    want.extend_from_slice(&[0u8; 32]);
    want.push(1);
    want.extend_from_slice(&0u32.to_le_bytes());
    assert_eq!(bytes, want);

    let s2 = Script { code_hash: h(7), hash_type: 1, args: vec![9, 8] };
    let bytes2 = s2.serialize();
    assert_eq!(bytes2.len(), 55);
    assert_eq!(&bytes2[0..4], &55u32.to_le_bytes());
    assert_eq!(bytes2[16], 7);
    assert_eq!(&bytes2[49..53], &2u32.to_le_bytes());
    assert_eq!(&bytes2[53..], &[9, 8]);
}

#[test]
fn script_hash_matches_upstream() {
    let args = vec![1u8, 2, 3, 4];
    let mut code_hash = [0u8; 32];
    code_hash[0] = 5;
    code_hash[31] = 6;
    let ours = Script { code_hash: H256 { b: code_hash }, hash_type: 1, args: args.clone() };
    let theirs = ckb_types::packed::Script::new_builder()
        .code_hash(ckb_types::packed::Byte32::from_slice(&code_hash).unwrap())
        .hash_type(ckb_types::packed::Byte::new(1))
        .args(args.as_slice())
        .build();
    let want = theirs.calc_script_hash();
    assert_eq!(ours.hash().b.as_slice(), want.as_slice());
}

#[test]
fn serialization_feeds_the_chain_hash() {
    // The script hash is the chain's digest of the serialization; a script
    // whose args differ hashes differently, and hashing the serialized bytes
    // directly agrees.
    let a = Script { code_hash: h(1), hash_type: 1, args: vec![] };
    let b = Script { code_hash: h(1), hash_type: 1, args: vec![0] };
    assert_ne!(a.hash().b, b.hash().b);
    assert_eq!(a.hash().b, ckb_hash::blake2b_256(a.serialize()));
}

#[test]
fn backend_info_hashes_binaries() {
    let backends = vec![Backend {
        validator: vec![1, 2, 3],
        generator: vec![4, 5, 6],
        validator_script_type_hash: h(8),
    }];
    let reg = Registry::new(
        Store::new(
            State::new(),
            h(9),
            State::new(),
            BlockInfo { block_producer_id: 0, timestamp: 0, number: 1 },
        ),
        Some(MemPool::new()),
        &backends,
        false,
        RollupConfig {
            finality_blocks: 2,
            rollup_script_hash: h(10),
            l2_sudt_validator_script_type_hash: h(11),
        },
        DebugConfig { enable_debug_rpc: false },
        false,
        MemPoolConfig { execute_l2tx_max_cycles: 1000 },
        NodeMode::FullNode,
        String::from("1.0.0"),
    );
    let info = &reg.get_node_info().backends[0];
    assert_eq!(info.validator_code_hash.b, ckb_hash::blake2b_256([1u8, 2, 3]));
    assert_eq!(info.generator_code_hash.b, ckb_hash::blake2b_256([4u8, 5, 6]));
    assert_eq!(info.validator_script_type_hash.b, h(8).b);
}

#[test]
fn l2_sudt_script_hash_is_derived_script_hash() {
    let reg = Registry::new(
        Store::new(
            State::new(),
            h(9),
            State::new(),
            BlockInfo { block_producer_id: 0, timestamp: 0, number: 1 },
        ),
        None,
        &Vec::new(),
        false,
        RollupConfig {
            finality_blocks: 2,
            rollup_script_hash: h(10),
            l2_sudt_validator_script_type_hash: h(11),
        },
        DebugConfig { enable_debug_rpc: false },
        false,
        MemPoolConfig { execute_l2tx_max_cycles: 1000 },
        NodeMode::ReadOnly,
        String::from("1.0.0"),
    );
    let l1 = h(33);
    let got = reg.compute_l2_sudt_script_hash(&l1);
    let mut args = Vec::new();
    args.extend_from_slice(&h(10).b);
    args.extend_from_slice(&l1.b);
    let script = Script { code_hash: h(11), hash_type: 1, args };
    assert_eq!(got.b, script.hash().b);
}
