use rollup_core::checkpoint::{resolve_checkpoint, SubState};
use rollup_core::error::RpcError;
use rollup_core::hash::H256;
use rollup_core::mempool::MemPool;
use rollup_core::registry::{
    ChallengeTargetType, DebugConfig, DumpChallengeTarget, MemPoolConfig, NodeMode, Registry,
    RollupConfig, RpcMethod,
};
use rollup_core::state::{Account, BalanceEntry, State};
use rollup_core::store::{BlockInfo, Store};

fn h(n: u8) -> H256 {
    let mut b = [0u8; 32];
    b[0] = n;
    H256 { b }
}

fn tip_state() -> State {
    // One account with nonce 3, a storage slot, a balance, and a data blob.
    let mut s = State::new();
    s.accounts.push(Account {
        script_hash: h(50),
        nonce: 3,
        storage: vec![(h(1), h(2))],
    });
    s.balances.push(BalanceEntry {
        short_address: h(50).b[..20].to_vec(),
        sudt_id: 1,
        amount: 900,
    });
    s.data.push((h(60), vec![1, 2, 3]));
    s
}

fn mk_registry(mem_state: State, with_pool: bool, node_mode: NodeMode, debug: bool) -> Registry {
    let store = Store::new(
        tip_state(),
        h(9),
        mem_state,
        BlockInfo { block_producer_id: 0, timestamp: 0, number: 1 },
    );
    let backends = Vec::new();
    Registry::new(
        store,
        if with_pool { Some(MemPool::new()) } else { None },
        &backends,
        false,
        RollupConfig {
            finality_blocks: 2,
            rollup_script_hash: h(10),
            l2_sudt_validator_script_type_hash: h(11),
        },
        DebugConfig { enable_debug_rpc: debug },
        debug,
        MemPoolConfig { execute_l2tx_max_cycles: 1000 },
        node_mode,
        String::from("1.0.0"),
    )
}

#[test]
fn block_scoped_reads_past_tip_fail_with_header_not_found() {
    // Tip is block 0; every explicit block number above it fails, on every
    // block-scoped read.
    let reg = mk_registry(tip_state(), true, NodeMode::FullNode, false);
    for n in [1u64, 2, 100, u64::MAX] {
        let r = reg.get_balance(&vec![0; 20], 1, Some(n));
        assert_eq!(r, Err(RpcError::HeaderNotFound));
        assert_eq!(r.unwrap_err().code(), -32000);
        assert_eq!(reg.get_nonce(0, Some(n)), Err(RpcError::HeaderNotFound));
        assert_eq!(
            reg.get_storage_at(0, &h(1), Some(n)),
            Err(RpcError::HeaderNotFound)
        );
        assert!(reg.get_data(&h(60), Some(n)).is_err());
    }
}

#[test]
fn reads_at_tip_and_pending_resolve() {
    let mut mem = tip_state();
    // The pending snapshot has moved: nonce stepped to 4.
    mem.accounts[0].nonce = 4;
    let reg = mk_registry(mem, true, NodeMode::FullNode, false);
    // Explicit block number reads the committed state.
    assert_eq!(reg.get_nonce(0, Some(0)), Ok(3));
    // No block number on a mempool node reads the pending state.
    assert_eq!(reg.get_nonce(0, None), Ok(4));
    assert_eq!(reg.get_balance(&h(50).b[..20].to_vec(), 1, Some(0)), Ok(900));
    assert_eq!(reg.get_storage_at(0, &h(1), Some(0)).unwrap().b, h(2).b);
    // Absent storage slots read zero.
    assert_eq!(reg.get_storage_at(0, &h(3), Some(0)).unwrap().b, [0u8; 32]);
    assert_eq!(reg.get_data(&h(60), Some(0)).unwrap().unwrap(), &vec![1, 2, 3]);
    assert_eq!(reg.get_script_hash(0).unwrap().b, h(50).b);
    assert_eq!(reg.get_account_id_by_script_hash(&h(50)), Ok(Some(0)));
    assert_eq!(reg.get_account_id_by_script_hash(&h(51)), Ok(None));
    let sh = reg.get_script_hash_by_short_address(&h(50).b[..20].to_vec());
    assert_eq!(sh.unwrap().b, h(50).b);
}

#[test]
fn read_only_node_reads_tip_without_mempool() {
    let mut mem = tip_state();
    mem.accounts[0].nonce = 4;
    let reg = mk_registry(mem, false, NodeMode::ReadOnly, false);
    // Without a mempool, no block number falls back to the committed tip.
    assert_eq!(reg.get_nonce(0, None), Ok(3));
}

#[test]
fn resolver_encodes_the_ambiguity_rule() {
    let cp = resolve_checkpoint(Some(3), 10, true).unwrap();
    assert_eq!(cp.block_number, 3);
    assert_eq!(cp.sub_state, SubState::Block);
    assert_eq!(resolve_checkpoint(Some(11), 10, true), Err(RpcError::HeaderNotFound));
    let cp = resolve_checkpoint(None, 10, true).unwrap();
    assert_eq!(cp.block_number, 10);
    assert_eq!(cp.sub_state, SubState::MemBlock);
    let cp = resolve_checkpoint(None, 10, false).unwrap();
    assert_eq!(cp.sub_state, SubState::Block);
}

#[test]
fn method_table_follows_node_configuration() {
    let full = mk_registry(tip_state(), true, NodeMode::FullNode, false).build_rpc_server();
    assert!(full.contains(&RpcMethod::SubmitL2Transaction));
    assert!(full.contains(&RpcMethod::SubmitWithdrawalRequest));
    assert!(!full.contains(&RpcMethod::DebugDumpCancelChallengeTx));
    assert_eq!(full.len(), 21);

    let ro = mk_registry(tip_state(), false, NodeMode::ReadOnly, false).build_rpc_server();
    assert!(!ro.contains(&RpcMethod::SubmitL2Transaction));
    assert!(!ro.contains(&RpcMethod::SubmitWithdrawalRequest));
    assert_eq!(ro.len(), 19);

    let dbg = mk_registry(tip_state(), true, NodeMode::FullNode, true).build_rpc_server();
    assert!(dbg.contains(&RpcMethod::DebugDumpCancelChallengeTx));
    assert_eq!(dbg[0], RpcMethod::Ping);
}

#[test]
fn ping_and_node_info() {
    let reg = mk_registry(tip_state(), true, NodeMode::FullNode, false);
    assert_eq!(reg.ping(), "pong");
    assert_eq!(reg.get_node_info().version, "1.0.0");
}

#[test]
fn execute_contexts_gate_and_resolve() {
    let reg = mk_registry(tip_state(), false, NodeMode::FullNode, false);
    assert_eq!(
        reg.execute_l2transaction_block_info(None),
        Err(RpcError::MemPoolDisabled)
    );
    let reg = mk_registry(tip_state(), true, NodeMode::FullNode, false);
    let info = reg.execute_l2transaction_block_info(None).unwrap();
    assert_eq!(info.number, 1);
    let info = reg.execute_l2transaction_block_info(Some(0)).unwrap();
    assert_eq!(info.number, 0);
    assert_eq!(
        reg.execute_raw_l2transaction_block_info(Some(5)),
        Err(RpcError::HeaderNotFound)
    );
}

#[test]
fn challenge_dump_gating_and_resolution() {
    let target = DumpChallengeTarget::ByBlockHash {
        block_hash: h(9),
        target_index: 2,
        target_type: ChallengeTargetType::TxExecution,
    };
    let off = mk_registry(tip_state(), true, NodeMode::FullNode, false);
    let r = off.debug_dump_cancel_challenge_tx(target);
    assert_eq!(r, Err(RpcError::DebugNotEnabled));
    assert_eq!(r.unwrap_err().code(), -32601);

    let on = mk_registry(tip_state(), true, NodeMode::FullNode, true);
    let resolved = on.debug_dump_cancel_challenge_tx(target).unwrap();
    assert_eq!(resolved.block_hash.b, h(9).b);
    assert_eq!(resolved.target_index, 2);

    let by_number = DumpChallengeTarget::ByBlockNumber {
        block_number: 0,
        target_index: 1,
        target_type: ChallengeTargetType::Withdrawal,
    };
    let resolved = on.debug_dump_cancel_challenge_tx(by_number).unwrap();
    assert_eq!(resolved.block_hash.b, h(9).b);

    let missing = DumpChallengeTarget::ByBlockNumber {
        block_number: 7,
        target_index: 1,
        target_type: ChallengeTargetType::Withdrawal,
    };
    let r = on.debug_dump_cancel_challenge_tx(missing);
    assert_eq!(r, Err(RpcError::InvalidParam));
    assert_eq!(r.unwrap_err().code(), -32602);
}

#[test]
fn error_codes_are_stable() {
    assert_eq!(RpcError::HeaderNotFound.code(), -32000);
    assert_eq!(
        RpcError::InvalidNonce { account_id: 0, expected: 1, actual: 0 }.code(),
        -32001
    );
    assert_eq!(RpcError::MemPoolDisabled.code(), -32601);
    assert_eq!(RpcError::DebugNotEnabled.code(), -32601);
    assert_eq!(RpcError::InvalidParam.code(), -32602);
    assert_eq!(RpcError::InternalError.code(), -32099);
    assert_eq!(RpcError::HeaderNotFound.message(), "header not found");
    assert_eq!(RpcError::MemPoolDisabled.message(), "mem-pool is disabled");
}
