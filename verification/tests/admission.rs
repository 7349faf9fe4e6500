use rollup_core::error::RpcError;
use rollup_core::hash::H256;
use rollup_core::mempool::{CollectedCustodianCells, DepositInfo, MemPool, MemPoolProvider};
use rollup_core::run_result::StorageSlot;
use rollup_core::registry::{
    DebugConfig, ExecutionOutcome, MemPoolConfig, NodeMode, Registry, RollupConfig,
};
use rollup_core::run_result::RunResult;
use rollup_core::state::{Account, State};
use rollup_core::store::{BlockInfo, Store};
use rollup_core::tx::{L2Transaction, RawL2Transaction, WithdrawalRequest};

fn h(n: u8) -> H256 {
    let mut b = [0u8; 32];
    b[0] = n;
    H256 { b }
}

fn state_with_nonces(nonces: &[u32]) -> State {
    let mut s = State::new();
    for (i, n) in nonces.iter().enumerate() {
        s.accounts.push(Account { script_hash: h(i as u8 + 1), nonce: *n, storage: Vec::new() });
    }
    s
}

fn mk_registry(mem_state: State, with_pool: bool) -> Registry {
    let store = Store::new(
        State::new(),
        h(9),
        mem_state,
        BlockInfo { block_producer_id: 0, timestamp: 0, number: 1 },
    );
    let backends = Vec::new();
    Registry::new(
        store,
        if with_pool { Some(MemPool::new()) } else { None },
        &backends,
        false,
        RollupConfig {
            finality_blocks: 2,
            rollup_script_hash: h(10),
            l2_sudt_validator_script_type_hash: h(11),
        },
        DebugConfig { enable_debug_rpc: false },
        false,
        MemPoolConfig { execute_l2tx_max_cycles: 1000 },
        NodeMode::FullNode,
        String::from("1.0.0"),
    )
}

fn tx(from_id: u32, nonce: u32, tag: u8) -> L2Transaction {
    L2Transaction {
        raw: RawL2Transaction { from_id, to_id: 0, nonce, args: Vec::new() },
        signature: Vec::new(),
        hash: h(tag),
    }
}

fn empty_run_result() -> RunResult {
    RunResult {
        read_values: Vec::new(),
        write_values: Vec::new(),
        return_data: Vec::new(),
        account_count: None,
        recover_accounts: Vec::new(),
        new_scripts: Vec::new(),
        get_scripts: Vec::new(),
        write_data: Vec::new(),
        read_data: Vec::new(),
        logs: Vec::new(),
        used_cycles: 77,
        exit_code: 0,
    }
}

#[test]
fn nonce_mismatch_rejected_without_side_effect() {
    let mut reg = mk_registry(state_with_nonces(&[5]), true);
    let r = reg.submit_l2transaction(tx(0, 4, 42));
    assert_eq!(
        r,
        Err(RpcError::InvalidNonce { account_id: 0, expected: 5, actual: 4 })
    );
    assert_eq!(r.unwrap_err().code(), -32001);
    // No queuing happened on rejection.
    assert_eq!(reg.mem_pool.as_ref().unwrap().queue.len(), 0);
}

#[test]
fn matching_nonce_admitted_and_acknowledged_by_hash() {
    let mut reg = mk_registry(state_with_nonces(&[5]), true);
    let r = reg.submit_l2transaction(tx(0, 5, 42)).unwrap();
    assert_eq!(r.b[0], 42);
    assert_eq!(reg.mem_pool.as_ref().unwrap().queue.len(), 1);
}

#[test]
fn submission_without_mempool_rejected() {
    let mut reg = mk_registry(state_with_nonces(&[0]), false);
    let r = reg.submit_l2transaction(tx(0, 0, 42));
    assert_eq!(r, Err(RpcError::MemPoolDisabled));
    assert_eq!(r.unwrap_err().code(), -32601);
}

#[test]
fn withdrawal_without_mempool_always_feature_disabled() {
    // Whatever the withdrawal holds, a node without a mempool rejects it.
    let w_small = WithdrawalRequest {
        account_script_hash: h(1),
        capacity: 1,
        amount: 0,
        sudt_script_hash: h(0),
        nonce: 0,
    };
    let w_large = WithdrawalRequest {
        account_script_hash: h(2),
        capacity: u64::MAX,
        amount: u128::MAX,
        sudt_script_hash: h(3),
        nonce: 9,
    };
    let available = CollectedCustodianCells {
        capacity: u128::MAX,
        cells: Vec::new(),
        sudt: Vec::new(),
    };
    let mut reg = mk_registry(state_with_nonces(&[0]), false);
    for w in [w_small, w_large] {
        let r = reg.submit_withdrawal_request(w, &available);
        assert_eq!(r, Err(RpcError::MemPoolDisabled));
        assert_eq!(r.unwrap_err().code(), -32601);
    }
}

#[test]
fn withdrawal_covered_by_custodians_admitted() {
    let w = WithdrawalRequest {
        account_script_hash: h(1),
        capacity: 500,
        amount: 20,
        sudt_script_hash: h(4),
        nonce: 0,
    };
    let available = CollectedCustodianCells {
        capacity: 1000,
        cells: Vec::new(),
        sudt: vec![(h(4), 30u128)],
    };
    let mut reg = mk_registry(state_with_nonces(&[0]), true);
    assert_eq!(reg.submit_withdrawal_request(w, &available), Ok(()));
    assert_eq!(reg.mem_pool.as_ref().unwrap().withdrawals.len(), 1);
}

#[test]
fn withdrawal_past_custodian_funds_rejected() {
    let w = WithdrawalRequest {
        account_script_hash: h(1),
        capacity: 500,
        amount: 50,
        sudt_script_hash: h(4),
        nonce: 0,
    };
    let available = CollectedCustodianCells {
        capacity: 1000,
        cells: Vec::new(),
        sudt: vec![(h(4), 30u128)],
    };
    let mut reg = mk_registry(state_with_nonces(&[0]), true);
    let r = reg.submit_withdrawal_request(w, &available);
    assert_eq!(r, Err(RpcError::InternalError));
    assert_eq!(reg.mem_pool.as_ref().unwrap().withdrawals.len(), 0);
}

#[test]
fn admitted_transaction_round_trip_after_processing() {
    let mut reg = mk_registry(state_with_nonces(&[0]), true);
    let hash = reg.submit_l2transaction(tx(0, 0, 42)).unwrap();
    let processed = reg.process_next_submission(ExecutionOutcome::Success(empty_run_result()));
    assert_eq!(processed.unwrap().b, hash.b);
    // The receipt is reachable by lookup with the hash and the effects
    // recorded at execution time.
    let receipt = reg.store.get_transaction_receipt(&hash).unwrap();
    assert_eq!(receipt.tx_hash.b, hash.b);
    assert_eq!(receipt.used_cycles, 77);
    assert_eq!(receipt.exit_code, 0);
    // The transaction is reported as pending.
    let (found, status) = reg.store.get_transaction(&hash).unwrap();
    assert_eq!(found.hash.b, hash.b);
    assert_eq!(status, rollup_core::tx::L2TransactionStatus::Pending);
    // Execution stepped the sender's nonce.
    assert_eq!(reg.store.mem_state.get_nonce(0), 1);
}

#[test]
fn failed_execution_drops_item_without_receipt() {
    let mut reg = mk_registry(state_with_nonces(&[0]), true);
    let hash = reg.submit_l2transaction(tx(0, 0, 42)).unwrap();
    let processed = reg.process_next_submission(ExecutionOutcome::Failure);
    assert_eq!(processed.unwrap().b, hash.b);
    assert!(reg.store.get_transaction_receipt(&hash).is_none());
    assert!(reg.store.get_transaction(&hash).is_none());
    assert_eq!(reg.store.mem_state.get_nonce(0), 0);
}

#[test]
fn duplicate_nonce_rejected_after_first_applies() {
    let mut reg = mk_registry(state_with_nonces(&[7]), true);
    let first = reg.submit_l2transaction(tx(0, 7, 42));
    assert!(first.is_ok());
    reg.process_next_submission(ExecutionOutcome::Success(empty_run_result()));
    let second = reg.submit_l2transaction(tx(0, 7, 43));
    assert_eq!(
        second,
        Err(RpcError::InvalidNonce { account_id: 0, expected: 8, actual: 7 })
    );
}

/// Deterministic test double of the custodian provider capability.
struct DummyMemPoolProvider {
    fake_blocktime: u64,
    deposit_cells: Vec<DepositInfo>,
    custodian_capacity: u128,
    custodian_sudt: Vec<(H256, u128)>,
}

impl MemPoolProvider for DummyMemPoolProvider {
    fn estimate_next_blocktime(&self) -> Result<u64, RpcError> {
        Ok(self.fake_blocktime)
    }

    fn collect_deposit_cells(&self) -> Result<Vec<DepositInfo>, RpcError> {
        let mut out = Vec::new();
        for d in &self.deposit_cells {
            out.push(DepositInfo {
                cell: rollup_core::cells::CellInfo {
                    out_point: rollup_core::cells::OutPoint {
                        tx_hash: d.cell.out_point.tx_hash,
                        index: d.cell.out_point.index,
                    },
                    output: rollup_core::cells::CellOutput {
                        capacity: d.cell.output.capacity,
                        lock: rollup_core::script::Script {
                            code_hash: d.cell.output.lock.code_hash,
                            hash_type: d.cell.output.lock.hash_type,
                            args: d.cell.output.lock.args.clone(),
                        },
                        type_script: None,
                    },
                    data: d.cell.data.clone(),
                },
                request_capacity: d.request_capacity,
            });
        }
        Ok(out)
    }

    fn query_available_custodians(
        &self,
        _withdrawals: Vec<WithdrawalRequest>,
        _last_finalized_block_number: u64,
    ) -> Result<CollectedCustodianCells, RpcError> {
        Ok(CollectedCustodianCells {
            capacity: self.custodian_capacity,
            cells: Vec::new(),
            sudt: self.custodian_sudt.clone(),
        })
    }
}

#[test]
fn custodian_provider_feeds_withdrawal_admission() {
    let provider = DummyMemPoolProvider {
        fake_blocktime: 42,
        deposit_cells: Vec::new(),
        custodian_capacity: 1000,
        custodian_sudt: vec![(h(4), 30u128)],
    };
    assert_eq!(provider.estimate_next_blocktime(), Ok(42));
    assert_eq!(provider.collect_deposit_cells().unwrap().len(), 0);
    let w = WithdrawalRequest {
        account_script_hash: h(1),
        capacity: 900,
        amount: 25,
        sudt_script_hash: h(4),
        nonce: 0,
    };
    let available = provider.query_available_custodians(vec![w], 0).unwrap();
    let mut reg = mk_registry(state_with_nonces(&[0]), true);
    assert_eq!(reg.submit_withdrawal_request(w, &available), Ok(()));
}

#[test]
fn execution_effects_visible_in_pending_reads() {
    let mut reg = mk_registry(state_with_nonces(&[0]), true);
    reg.submit_l2transaction(tx(0, 0, 42)).unwrap();
    let mut rr = empty_run_result();
    rr.write_values.push(StorageSlot { account_id: 0, key: h(5), value: h(6) });
    rr.write_data.push((h(7), vec![9, 9]));
    reg.process_next_submission(rollup_core::registry::ExecutionOutcome::Success(rr));
    // A read with no block number sees the pending overlay.
    assert_eq!(reg.get_storage_at(0, &h(5), None).unwrap().b, h(6).b);
    assert_eq!(reg.get_data(&h(7), None).unwrap().unwrap(), &vec![9, 9]);
    // The committed tip state is untouched.
    assert_eq!(reg.get_storage_at(0, &h(5), Some(0)).unwrap().b, [0u8; 32]);
}
