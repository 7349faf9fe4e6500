//! The externally-facing request layer: snapshot-scoped reads, strict
//! synchronous admission, detached execution, and the node's method table.
//!
//! Submission acknowledges admission, not execution success: the nonce check
//! runs on the caller's path, while execution of admitted items is a detached
//! unit of work whose failures are observed, logged and dropped, never
//! surfaced to the submitter.

use vstd::prelude::*;
use crate::hash::H256;
use crate::error::{RpcError, mem_pool_is_disabled_err};
use crate::script::{Script, blake2b256, blake2b_of, build_l2_sudt_script};
use crate::state::{State, nonce_of, storage_value_of, script_hash_of, balance_of, kv_last,
    account_id_of, account_id_by_short_address, extended_len};
use crate::store::{Store, BlockInfo, find_block};
use crate::checkpoint::{SubState, checkpoint_of};
use crate::mempool::{MemPool, CollectedCustodianCells, custodian_sufficient};
use crate::tx::{L2Transaction, TxReceipt, WithdrawalRequest};
use crate::run_result::{RunResult, writes_for};

verus! {

/// The mode this node runs in; a read-only node never accepts submissions.
#[derive(Clone, Copy, Debug, PartialEq, Eq, Structural)]
pub enum NodeMode {
    FullNode,
    Test,
    ReadOnly,
}

/// Debug-only features.
#[derive(Clone, Copy, Debug)]
pub struct DebugConfig {
    pub enable_debug_rpc: bool,
}

/// Mempool limits.
#[derive(Clone, Copy, Debug)]
pub struct MemPoolConfig {
    pub execute_l2tx_max_cycles: u64,
}

/// Chain-wide constants the gateway needs.
#[derive(Clone, Copy, Debug)]
pub struct RollupConfig {
    pub finality_blocks: u64,
    pub rollup_script_hash: H256,
    pub l2_sudt_validator_script_type_hash: H256,
}

/// One execution backend: its binaries and its validator's type hash.
#[derive(Debug)]
pub struct Backend {
    pub validator: Vec<u8>,
    pub generator: Vec<u8>,
    pub validator_script_type_hash: H256,
}

/// The published code hashes of one backend.
#[derive(Clone, Copy, Debug)]
pub struct BackendInfo {
    pub validator_code_hash: H256,
    pub generator_code_hash: H256,
    pub validator_script_type_hash: H256,
}

/// What the node reports about itself.
#[derive(Debug)]
pub struct NodeInfo {
    pub version: String,
    pub backends: Vec<BackendInfo>,
}

/// How the detached execution of one admitted transaction ended: its effects,
/// or a failure that drops the item.
#[derive(Debug)]
pub enum ExecutionOutcome {
    Success(RunResult),
    Failure,
}

/// The request layer: the store, the optional mempool, and the node's
/// configuration.
#[derive(Debug)]
pub struct Registry {
    pub store: Store,
    pub mem_pool: Option<MemPool>,
    pub node_mode: NodeMode,
    pub rollup_config: RollupConfig,
    pub debug_config: DebugConfig,
    pub mem_pool_config: MemPoolConfig,
    pub node_info: NodeInfo,
    pub has_tests_rpc: bool,
    pub has_offchain_mock_context: bool,
}

/// What a submission returns, decided synchronously on the caller's path: a
/// disabled mempool rejects everything; a nonce out of sequence is rejected
/// with the expected and actual values; otherwise the transaction hash
/// acknowledges admission.
pub open spec fn submit_result(reg: Registry, tx: L2Transaction) -> Result<H256, RpcError> {
    if reg.mem_pool is None {
        Err(RpcError::MemPoolDisabled)
    } else if tx.raw.nonce != nonce_of(reg.store.mem_state, tx.raw.from_id) {
        Err(
            RpcError::InvalidNonce {
                account_id: tx.raw.from_id,
                expected: nonce_of(reg.store.mem_state, tx.raw.from_id),
                actual: tx.raw.nonce,
            },
        )
    } else {
        Ok(tx.hash)
    }
}

/// The state snapshot a read resolves to when it is not rejected.
pub open spec fn resolved_state(reg: Registry, block_number: Option<u64>) -> State {
    let cp = checkpoint_of(block_number, reg.store.tip_number() as u64, reg.mem_pool is Some);
    if cp.sub_state == SubState::MemBlock {
        reg.store.mem_state
    } else {
        reg.store.block_states@[cp.block_number as int]
    }
}

/// How one successful execution changes the pending snapshot: the account
/// table grows to the run's account count, each account's storage overlay is
/// extended by the run's writes to it, the sender's nonce steps by one, and
/// the run's new scripts and data are appended.
pub open spec fn mem_state_after_execution(s0: State, s1: State, sender: u32, rr: RunResult) -> bool {
    &&& s1.accounts@.len() == extended_len(s0.accounts@.len() as nat, rr.account_count)
    &&& forall|i: int|
        #![trigger s1.accounts@[i]]
        0 <= i < s1.accounts@.len() ==> {
            let base_nonce = if i < s0.accounts@.len() {
                s0.accounts@[i].nonce
            } else {
                0u32
            };
            let base_hash = if i < s0.accounts@.len() {
                s0.accounts@[i].script_hash@
            } else {
                H256::zero_spec()
            };
            let base_storage = if i < s0.accounts@.len() {
                s0.accounts@[i].storage@
            } else {
                Seq::<(H256, H256)>::empty()
            };
            &&& s1.accounts@[i].script_hash@ == base_hash
            &&& s1.accounts@[i].storage@ == base_storage + writes_for(rr.write_values@, i)
            &&& s1.accounts@[i].nonce == if i == sender && base_nonce < u32::MAX {
                (base_nonce + 1) as u32
            } else {
                base_nonce
            }
        }
    &&& s1.scripts@ == s0.scripts@ + rr.new_scripts@
    &&& s1.data@ == s0.data@ + rr.write_data@
    &&& s1.balances@ == s0.balances@
}

/// The published code hashes of each backend, in order.
pub fn get_backend_info(backends: &Vec<Backend>) -> (r: Vec<BackendInfo>)
    ensures
        r@.len() == backends@.len(),
        forall|i: int|
            #![trigger r@[i]]
            0 <= i < r@.len() ==> {
                &&& r@[i].validator_code_hash@ == blake2b_of(backends@[i].validator@)
                &&& r@[i].generator_code_hash@ == blake2b_of(backends@[i].generator@)
                &&& r@[i].validator_script_type_hash == backends@[i].validator_script_type_hash
            },
{
    let mut r: Vec<BackendInfo> = Vec::new();
    let mut i: usize = 0;
    while i < backends.len()
        invariant
            i <= backends@.len(),
            r@.len() == i,
            forall|k: int|
                #![trigger r@[k]]
                0 <= k < i ==> {
                    &&& r@[k].validator_code_hash@ == blake2b_of(backends@[k].validator@)
                    &&& r@[k].generator_code_hash@ == blake2b_of(backends@[k].generator@)
                    &&& r@[k].validator_script_type_hash == backends@[k].validator_script_type_hash
                },
        decreases backends@.len() - i,
    {
        let validator_code_hash = blake2b256(&backends[i].validator);
        let generator_code_hash = blake2b256(&backends[i].generator);
        r.push(
            BackendInfo {
                validator_code_hash,
                generator_code_hash,
                validator_script_type_hash: backends[i].validator_script_type_hash,
            },
        );
        i += 1;
    }
    r
}

impl Registry {
    /// The store lines up and every state's account table fits 32-bit ids.
    pub open spec fn wf(self) -> bool {
        &&& self.store.wf()
        &&& self.store.mem_state.accounts@.len() <= u32::MAX
        &&& forall|i: int|
            0 <= i < self.store.block_states@.len() ==> (#[trigger] self.store.block_states@[
                i
            ]).accounts@.len() <= u32::MAX
    }

    /// Assembles the request layer. The backend code hashes are computed here
    /// once and served by node-info reads.
    pub fn new(
        store: Store,
        mem_pool: Option<MemPool>,
        backends: &Vec<Backend>,
        has_tests_rpc: bool,
        rollup_config: RollupConfig,
        debug_config: DebugConfig,
        has_offchain_mock_context: bool,
        mem_pool_config: MemPoolConfig,
        node_mode: NodeMode,
        version: String,
    ) -> (r: Registry)
        ensures
            r.store == store,
            r.mem_pool == mem_pool,
            r.node_mode == node_mode,
            r.rollup_config == rollup_config,
            r.debug_config == debug_config,
            r.mem_pool_config == mem_pool_config,
            r.has_tests_rpc == has_tests_rpc,
            r.has_offchain_mock_context == has_offchain_mock_context,
            r.node_info.version@ == version@,
            r.node_info.backends@.len() == backends@.len(),
            forall|i: int|
                #![trigger r.node_info.backends@[i]]
                0 <= i < backends@.len() ==> {
                    &&& r.node_info.backends@[i].validator_code_hash@ == blake2b_of(
                        backends@[i].validator@,
                    )
                    &&& r.node_info.backends@[i].generator_code_hash@ == blake2b_of(
                        backends@[i].generator@,
                    )
                    &&& r.node_info.backends@[i].validator_script_type_hash == backends@[
                        i
                    ].validator_script_type_hash
                },
    {
        let backend_info = get_backend_info(backends);
        Registry {
            store,
            mem_pool,
            node_mode,
            rollup_config,
            debug_config,
            mem_pool_config,
            node_info: NodeInfo { version, backends: backend_info },
            has_tests_rpc,
            has_offchain_mock_context,
        }
    }

    /// Liveness probe.
    pub fn ping(&self) -> (r: &'static str)
        ensures
            r@ == "pong"@,
    {
        "pong"
    }

    /// What the node reports about itself: version and backend code hashes.
    pub fn get_node_info(&self) -> (r: &NodeInfo)
        ensures
            r == &self.node_info,
    {
        &self.node_info
    }

    /// Admits a transaction: reads the sender's nonce from the pending
    /// snapshot synchronously and rejects a mismatch immediately; an admitted
    /// transaction is queued for detached execution and acknowledged by hash.
    /// A rejection leaves the node unchanged.
    pub fn submit_l2transaction(&mut self, tx: L2Transaction) -> (r: Result<H256, RpcError>)
        requires
            old(self).wf(),
        ensures
            r == submit_result(*old(self), tx),
            final(self).wf(),
            r is Err ==> *final(self) == *old(self),
            r is Ok ==> {
                &&& final(self).mem_pool is Some
                &&& final(self).mem_pool.unwrap().queue@ == old(
                    self,
                ).mem_pool.unwrap().queue@.push(tx)
                &&& final(self).mem_pool.unwrap().withdrawals@ == old(
                    self,
                ).mem_pool.unwrap().withdrawals@
                &&& final(self).store == old(self).store
                &&& final(self).node_mode == old(self).node_mode
                &&& final(self).rollup_config == old(self).rollup_config
                &&& final(self).debug_config == old(self).debug_config
                &&& final(self).mem_pool_config == old(self).mem_pool_config
                &&& final(self).node_info == old(self).node_info
                &&& final(self).has_tests_rpc == old(self).has_tests_rpc
                &&& final(self).has_offchain_mock_context == old(self).has_offchain_mock_context
            },
    {
        if self.mem_pool.is_none() {
            return Err(mem_pool_is_disabled_err());
        }
        let sender_id = tx.raw.from_id;
        let tx_nonce = tx.raw.nonce;
        let sender_nonce: u32;
        {
            let state = match self.store.get_state_db_at_block(None, true) {
                Ok(s) => s,
                Err(e) => {
                    return Err(e);
                },
            };
            sender_nonce = state.get_nonce(sender_id);
        }
        if sender_nonce != tx_nonce {
            return Err(
                RpcError::InvalidNonce {
                    account_id: sender_id,
                    expected: sender_nonce,
                    actual: tx_nonce,
                },
            );
        }
        let tx_hash = tx.hash;
        match &mut self.mem_pool {
            Some(mp) => {
                mp.push_transaction(tx);
                Ok(tx_hash)
            },
            None => Err(mem_pool_is_disabled_err()),
        }
    }

    /// Admits a withdrawal request against the currently collectable
    /// custodian funds (supplied by the node's custodian provider). A node
    /// without a mempool rejects every withdrawal, whatever it holds.
    pub fn submit_withdrawal_request(
        &mut self,
        withdrawal: WithdrawalRequest,
        available: &CollectedCustodianCells,
    ) -> (r: Result<(), RpcError>)
        ensures
            old(self).mem_pool is None ==> r == Err::<(), RpcError>(RpcError::MemPoolDisabled)
                && *final(self) == *old(self),
            old(self).mem_pool is Some ==> {
                &&& final(self).mem_pool is Some
                &&& final(self).store == old(self).store
                &&& final(self).mem_pool.unwrap().queue@ == old(self).mem_pool.unwrap().queue@
                &&& match r {
                    Ok(()) => {
                        &&& custodian_sufficient(withdrawal, *available)
                        &&& final(self).mem_pool.unwrap().withdrawals@ == old(
                            self,
                        ).mem_pool.unwrap().withdrawals@.push(withdrawal)
                    },
                    Err(e) => {
                        &&& e == RpcError::InternalError
                        &&& !custodian_sufficient(withdrawal, *available)
                        &&& *final(self) == *old(self)
                    },
                }
            },
    {
        match &mut self.mem_pool {
            Some(mp) => mp.push_withdrawal_request(withdrawal, available),
            None => Err(mem_pool_is_disabled_err()),
        }
    }

    /// Runs the folding half of one detached execution: pops the oldest
    /// admitted transaction, and on success folds its effects into the
    /// pending snapshot, steps the sender's nonce, and records the pending
    /// transaction and its receipt. A failed execution drops the item with no
    /// effect on the snapshot; no receipt will ever appear for it.
    pub fn process_next_submission(&mut self, outcome: ExecutionOutcome) -> (r: Option<H256>)
        ensures
            (old(self).mem_pool is None || (old(self).mem_pool is Some && old(
                self,
            ).mem_pool.unwrap().queue@.len() == 0)) ==> r is None && *final(self) == *old(self),
            old(self).mem_pool is Some && old(self).mem_pool.unwrap().queue@.len() > 0 ==> {
                let tx = old(self).mem_pool.unwrap().queue@[0];
                &&& r == Some(tx.hash)
                &&& final(self).mem_pool is Some
                &&& final(self).mem_pool.unwrap().queue@ == old(
                    self,
                ).mem_pool.unwrap().queue@.drop_first()
                &&& final(self).mem_pool.unwrap().withdrawals@ == old(
                    self,
                ).mem_pool.unwrap().withdrawals@
                &&& final(self).node_mode == old(self).node_mode
                &&& final(self).rollup_config == old(self).rollup_config
                &&& final(self).debug_config == old(self).debug_config
                &&& final(self).mem_pool_config == old(self).mem_pool_config
                &&& final(self).node_info == old(self).node_info
                &&& final(self).has_tests_rpc == old(self).has_tests_rpc
                &&& final(self).has_offchain_mock_context == old(self).has_offchain_mock_context
                &&& match outcome {
                    ExecutionOutcome::Failure => final(self).store == old(self).store,
                    ExecutionOutcome::Success(rr) => {
                        &&& mem_state_after_execution(
                            old(self).store.mem_state,
                            final(self).store.mem_state,
                            tx.raw.from_id,
                            rr,
                        )
                        &&& final(self).store.mem_txs@ == old(self).store.mem_txs@.push(tx)
                        &&& final(self).store.mem_receipts@.len() == old(
                            self,
                        ).store.mem_receipts@.len() + 1
                        &&& final(self).store.mem_receipts@.take(
                            old(self).store.mem_receipts@.len() as int,
                        ) == old(self).store.mem_receipts@
                        &&& final(self).store.mem_receipts@.last().tx_hash == tx.hash
                        &&& final(self).store.mem_receipts@.last().exit_code == rr.exit_code
                        &&& final(self).store.mem_receipts@.last().used_cycles == rr.used_cycles
                        &&& final(self).store.mem_receipts@.last().logs@ == rr.logs@
                        &&& final(self).store.block_states@ == old(self).store.block_states@
                        &&& final(self).store.blocks@ == old(self).store.blocks@
                        &&& final(self).store.main_chain@ == old(self).store.main_chain@
                        &&& final(self).store.reverted@ == old(self).store.reverted@
                        &&& final(self).store.txs@ == old(self).store.txs@
                        &&& final(self).store.receipts@ == old(self).store.receipts@
                        &&& final(self).store.mem_block_info == old(self).store.mem_block_info
                    },
                }
            },
    {
        let has_work = match &self.mem_pool {
            Some(mp) => mp.queue.len() > 0,
            None => false,
        };
        if !has_work {
            return None;
        }
        let tx = match &mut self.mem_pool {
            Some(mp) => {
                let ghost q0 = mp.queue@;
                let tx = mp.queue.remove(0);
                proof {
                    assert(q0.remove(0) =~= q0.drop_first());
                }
                tx
            },
            None => {
                return None;
            },
        };
        let tx_hash = tx.hash;
        match outcome {
            ExecutionOutcome::Failure => Some(tx_hash),
            ExecutionOutcome::Success(rr) => {
                let sender = tx.raw.from_id;
                let exit_code = rr.exit_code;
                let used_cycles = rr.used_cycles;
                let ghost s0 = self.store.mem_state;
                let logs = self.store.mem_state.apply_run_result(rr);
                self.store.mem_state.increment_nonce(sender);
                let receipt = TxReceipt { tx_hash, exit_code, used_cycles, logs };
                self.store.mem_txs.push(tx);
                let ghost rc0 = self.store.mem_receipts@;
                self.store.mem_receipts.push(receipt);
                proof {
                    assert(self.store.mem_receipts@.take(rc0.len() as int) =~= rc0);
                }
                Some(tx_hash)
            },
        }
    }
}

/// Whether a challenge target names a resolvable block: the target descriptor
/// handed to the external dispute mock-executor.
#[derive(Clone, Copy, Debug, PartialEq, Eq, Structural)]
pub enum ChallengeTargetType {
    TxExecution,
    TxSignature,
    Withdrawal,
}

/// A challenge-dump request: the target block by hash or by height.
#[derive(Clone, Copy, Debug)]
pub enum DumpChallengeTarget {
    ByBlockHash { block_hash: H256, target_index: u32, target_type: ChallengeTargetType },
    ByBlockNumber { block_number: u64, target_index: u32, target_type: ChallengeTargetType },
}

/// A resolved challenge target, ready for the dispute mock-executor.
#[derive(Clone, Copy, Debug, PartialEq, Eq)]
pub struct ChallengeTarget {
    pub block_hash: H256,
    pub target_index: u32,
    pub target_type: ChallengeTargetType,
}

/// Every method the node can serve.
#[derive(Clone, Copy, Debug, PartialEq, Eq, Structural)]
pub enum RpcMethod {
    Ping,
    GetTipBlockHash,
    GetBlockHash,
    GetBlock,
    GetBlockByNumber,
    GetBalance,
    GetStorageAt,
    GetAccountIdByScriptHash,
    GetNonce,
    GetScript,
    GetScriptHash,
    GetScriptHashByShortAddress,
    GetData,
    GetTransaction,
    GetTransactionReceipt,
    ExecuteL2Transaction,
    ExecuteRawL2Transaction,
    ComputeL2SudtScriptHash,
    GetNodeInfo,
    SubmitL2Transaction,
    SubmitWithdrawalRequest,
    TestsProduceBlock,
    TestsShouldProduceBlock,
    TestsGetGlobalState,
    DebugDumpCancelChallengeTx,
}

/// The methods every node serves.
pub open spec fn base_methods() -> Seq<RpcMethod> {
    seq![
        RpcMethod::Ping,
        RpcMethod::GetTipBlockHash,
        RpcMethod::GetBlockHash,
        RpcMethod::GetBlock,
        RpcMethod::GetBlockByNumber,
        RpcMethod::GetBalance,
        RpcMethod::GetStorageAt,
        RpcMethod::GetAccountIdByScriptHash,
        RpcMethod::GetNonce,
        RpcMethod::GetScript,
        RpcMethod::GetScriptHash,
        RpcMethod::GetScriptHashByShortAddress,
        RpcMethod::GetData,
        RpcMethod::GetTransaction,
        RpcMethod::GetTransactionReceipt,
        RpcMethod::ExecuteL2Transaction,
        RpcMethod::ExecuteRawL2Transaction,
        RpcMethod::ComputeL2SudtScriptHash,
        RpcMethod::GetNodeInfo,
    ]
}

/// The method table a node registers: the base methods; the two submission
/// methods on every node that is not read-only; the test-mode methods when a
/// test hook is configured; the challenge dump when debug is enabled.
pub open spec fn registered_methods(
    node_mode: NodeMode,
    has_tests_rpc: bool,
    enable_debug_rpc: bool,
) -> Seq<RpcMethod> {
    base_methods() + (if node_mode != NodeMode::ReadOnly {
        seq![RpcMethod::SubmitL2Transaction, RpcMethod::SubmitWithdrawalRequest]
    } else {
        Seq::empty()
    }) + (if has_tests_rpc {
        seq![RpcMethod::TestsProduceBlock, RpcMethod::TestsShouldProduceBlock,
            RpcMethod::TestsGetGlobalState]
    } else {
        Seq::empty()
    }) + (if enable_debug_rpc {
        seq![RpcMethod::DebugDumpCancelChallengeTx]
    } else {
        Seq::empty()
    })
}

impl Registry {
    /// The method table this node serves, in registration order.
    pub fn build_rpc_server(self) -> (r: Vec<RpcMethod>)
        ensures
            r@ == registered_methods(
                self.node_mode,
                self.has_tests_rpc,
                self.debug_config.enable_debug_rpc,
            ),
    {
        let mut r: Vec<RpcMethod> = Vec::new();
        r.push(RpcMethod::Ping);
        r.push(RpcMethod::GetTipBlockHash);
        r.push(RpcMethod::GetBlockHash);
        r.push(RpcMethod::GetBlock);
        r.push(RpcMethod::GetBlockByNumber);
        r.push(RpcMethod::GetBalance);
        r.push(RpcMethod::GetStorageAt);
        r.push(RpcMethod::GetAccountIdByScriptHash);
        r.push(RpcMethod::GetNonce);
        r.push(RpcMethod::GetScript);
        r.push(RpcMethod::GetScriptHash);
        r.push(RpcMethod::GetScriptHashByShortAddress);
        r.push(RpcMethod::GetData);
        r.push(RpcMethod::GetTransaction);
        r.push(RpcMethod::GetTransactionReceipt);
        r.push(RpcMethod::ExecuteL2Transaction);
        r.push(RpcMethod::ExecuteRawL2Transaction);
        r.push(RpcMethod::ComputeL2SudtScriptHash);
        r.push(RpcMethod::GetNodeInfo);
        if !matches!(self.node_mode, NodeMode::ReadOnly) {
            r.push(RpcMethod::SubmitL2Transaction);
            r.push(RpcMethod::SubmitWithdrawalRequest);
        }
        if self.has_tests_rpc {
            r.push(RpcMethod::TestsProduceBlock);
            r.push(RpcMethod::TestsShouldProduceBlock);
            r.push(RpcMethod::TestsGetGlobalState);
        }
        if self.debug_config.enable_debug_rpc {
            r.push(RpcMethod::DebugDumpCancelChallengeTx);
        }
        proof {
            assert(r@ =~= registered_methods(
                self.node_mode,
                self.has_tests_rpc,
                self.debug_config.enable_debug_rpc,
            ));
        }
        r
    }

    /// A token balance, read through the snapshot an optional block number
    /// resolves to; a block number past the tip fails before any read.
    pub fn get_balance(
        &self,
        short_address: &Vec<u8>,
        sudt_id: u32,
        block_number: Option<u64>,
    ) -> (r: Result<u128, RpcError>)
        requires
            self.wf(),
        ensures
            match r {
                Ok(v) => {
                    &&& !(block_number is Some && block_number.unwrap() > self.store.tip_number())
                    &&& v == balance_of(
                        resolved_state(*self, block_number).balances@,
                        short_address@,
                        sudt_id,
                    )
                },
                Err(e) => {
                    &&& e == RpcError::HeaderNotFound
                    &&& block_number is Some && block_number.unwrap() > self.store.tip_number()
                },
            },
    {
        let state = match self.store.get_state_db_at_block(block_number, self.mem_pool.is_some()) {
            Ok(s) => s,
            Err(e) => {
                return Err(e);
            },
        };
        Ok(state.get_sudt_balance(sudt_id, short_address))
    }

    /// A raw storage slot, read through the resolved snapshot.
    pub fn get_storage_at(&self, account_id: u32, key: &H256, block_number: Option<u64>) -> (r:
        Result<H256, RpcError>)
        requires
            self.wf(),
        ensures
            match r {
                Ok(v) => {
                    &&& !(block_number is Some && block_number.unwrap() > self.store.tip_number())
                    &&& v@ == storage_value_of(
                        resolved_state(*self, block_number),
                        account_id,
                        key@,
                    )
                },
                Err(e) => {
                    &&& e == RpcError::HeaderNotFound
                    &&& block_number is Some && block_number.unwrap() > self.store.tip_number()
                },
            },
    {
        let state = match self.store.get_state_db_at_block(block_number, self.mem_pool.is_some()) {
            Ok(s) => s,
            Err(e) => {
                return Err(e);
            },
        };
        Ok(state.get_value(account_id, key))
    }

    /// An account's nonce, read through the resolved snapshot.
    pub fn get_nonce(&self, account_id: u32, block_number: Option<u64>) -> (r: Result<
        u32,
        RpcError,
    >)
        requires
            self.wf(),
        ensures
            match r {
                Ok(v) => {
                    &&& !(block_number is Some && block_number.unwrap() > self.store.tip_number())
                    &&& v == nonce_of(resolved_state(*self, block_number), account_id)
                },
                Err(e) => {
                    &&& e == RpcError::HeaderNotFound
                    &&& block_number is Some && block_number.unwrap() > self.store.tip_number()
                },
            },
    {
        let state = match self.store.get_state_db_at_block(block_number, self.mem_pool.is_some()) {
            Ok(s) => s,
            Err(e) => {
                return Err(e);
            },
        };
        Ok(state.get_nonce(account_id))
    }

    /// The script registered under a script hash, in the live snapshot.
    pub fn get_script(&self, script_hash: &H256) -> (r: Option<&Script>)
        requires
            self.wf(),
        ensures
            match r {
                Some(sc) => kv_last(resolved_state(*self, None).scripts@, script_hash@) == Some(
                    *sc,
                ),
                None => kv_last(resolved_state(*self, None).scripts@, script_hash@) is None,
            },
    {
        let state = match self.store.get_state_db_at_block(None, self.mem_pool.is_some()) {
            Ok(s) => s,
            Err(_) => {
                return None;
            },
        };
        state.get_script(script_hash)
    }

    /// An account's script hash, in the live snapshot.
    pub fn get_script_hash(&self, account_id: u32) -> (r: Result<H256, RpcError>)
        requires
            self.wf(),
        ensures
            match r {
                Ok(v) => v@ == script_hash_of(resolved_state(*self, None), account_id),
                Err(_) => false,
            },
    {
        let state = match self.store.get_state_db_at_block(None, self.mem_pool.is_some()) {
            Ok(s) => s,
            Err(e) => {
                return Err(e);
            },
        };
        Ok(state.get_script_hash(account_id))
    }

    /// The account id registered under a script hash, in the live snapshot.
    pub fn get_account_id_by_script_hash(&self, script_hash: &H256) -> (r: Result<
        Option<u32>,
        RpcError,
    >)
        requires
            self.wf(),
        ensures
            match r {
                Ok(opt) => match opt {
                    Some(id) => account_id_of(
                        resolved_state(*self, None).accounts@,
                        script_hash@,
                    ) == Some(id as int),
                    None => account_id_of(
                        resolved_state(*self, None).accounts@,
                        script_hash@,
                    ) is None,
                },
                Err(_) => false,
            },
    {
        let state = match self.store.get_state_db_at_block(None, self.mem_pool.is_some()) {
            Ok(s) => s,
            Err(e) => {
                return Err(e);
            },
        };
        Ok(state.get_account_id_by_script_hash(script_hash))
    }

    /// The script hash owning a short address, in the live snapshot.
    pub fn get_script_hash_by_short_address(&self, short_address: &Vec<u8>) -> (r: Option<H256>)
        requires
            self.wf(),
        ensures
            match r {
                Some(h) => {
                    &&& account_id_by_short_address(
                        resolved_state(*self, None).accounts@,
                        short_address@,
                    ) is Some
                    &&& h@ == resolved_state(*self, None).accounts@[account_id_by_short_address(
                        resolved_state(*self, None).accounts@,
                        short_address@,
                    ).unwrap()].script_hash@
                },
                None => account_id_by_short_address(
                    resolved_state(*self, None).accounts@,
                    short_address@,
                ) is None,
            },
    {
        let state = match self.store.get_state_db_at_block(None, self.mem_pool.is_some()) {
            Ok(s) => s,
            Err(_) => {
                return None;
            },
        };
        state.get_script_hash_by_short_address(short_address)
    }

    /// A data blob, read through the resolved snapshot.
    pub fn get_data(&self, data_hash: &H256, block_number: Option<u64>) -> (r: Result<
        Option<&Vec<u8>>,
        RpcError,
    >)
        requires
            self.wf(),
        ensures
            match r {
                Ok(opt) => {
                    &&& !(block_number is Some && block_number.unwrap() > self.store.tip_number())
                    &&& match opt {
                        Some(d) => kv_last(
                            resolved_state(*self, block_number).data@,
                            data_hash@,
                        ) == Some(*d),
                        None => kv_last(
                            resolved_state(*self, block_number).data@,
                            data_hash@,
                        ) is None,
                    }
                },
                Err(e) => {
                    &&& e == RpcError::HeaderNotFound
                    &&& block_number is Some && block_number.unwrap() > self.store.tip_number()
                },
            },
    {
        let state = match self.store.get_state_db_at_block(block_number, self.mem_pool.is_some()) {
            Ok(s) => s,
            Err(e) => {
                return Err(e);
            },
        };
        Ok(state.get_data(data_hash))
    }

    /// The hash of the layer-2 token script derived from a layer-1 token
    /// script hash, under this node's rollup configuration.
    pub fn compute_l2_sudt_script_hash(&self, l1_sudt_script_hash: &H256) -> (r: H256)
        ensures
            r@ == crate::script::blake2b_of(
                crate::script::serialized_script(
                    self.rollup_config.l2_sudt_validator_script_type_hash@,
                    crate::script::SCRIPT_HASH_TYPE_TYPE,
                    self.rollup_config.rollup_script_hash@ + l1_sudt_script_hash@,
                ),
            ),
    {
        let l2_sudt_script = build_l2_sudt_script(
            &self.rollup_config.rollup_script_hash,
            &self.rollup_config.l2_sudt_validator_script_type_hash,
            l1_sudt_script_hash,
        );
        l2_sudt_script.hash()
    }

    /// The header facts a live-state dry run executes under: the pending
    /// block's when no block number is given, else the named block's. A node
    /// without a mempool serves no live dry run; an unknown block is
    /// `HeaderNotFound`.
    pub fn execute_l2transaction_block_info(&self, block_number: Option<u64>) -> (r: Result<
        BlockInfo,
        RpcError,
    >)
        ensures
            self.mem_pool is None ==> r == Err::<BlockInfo, RpcError>(RpcError::MemPoolDisabled),
            self.mem_pool is Some ==> match block_number {
                None => r == Ok::<BlockInfo, RpcError>(self.store.mem_block_info),
                Some(n) => {
                    if n < self.store.main_chain@.len() && find_block(
                        self.store.blocks@,
                        self.store.main_chain@[n as int]@,
                    ) is Some {
                        let b = find_block(
                            self.store.blocks@,
                            self.store.main_chain@[n as int]@,
                        ).unwrap();
                        r == Ok::<BlockInfo, RpcError>(
                            BlockInfo {
                                block_producer_id: b.block_producer_id,
                                timestamp: b.timestamp,
                                number: b.number,
                            },
                        )
                    } else {
                        r == Err::<BlockInfo, RpcError>(RpcError::HeaderNotFound)
                    }
                },
            },
    {
        if self.mem_pool.is_none() {
            return Err(mem_pool_is_disabled_err());
        }
        self.execute_raw_l2transaction_block_info(block_number)
    }

    /// The header facts a historical dry run executes under; unlike the live
    /// variant this needs no mempool.
    pub fn execute_raw_l2transaction_block_info(&self, block_number: Option<u64>) -> (r: Result<
        BlockInfo,
        RpcError,
    >)
        ensures
            match block_number {
                None => r == Ok::<BlockInfo, RpcError>(self.store.mem_block_info),
                Some(n) => {
                    if n < self.store.main_chain@.len() && find_block(
                        self.store.blocks@,
                        self.store.main_chain@[n as int]@,
                    ) is Some {
                        let b = find_block(
                            self.store.blocks@,
                            self.store.main_chain@[n as int]@,
                        ).unwrap();
                        r == Ok::<BlockInfo, RpcError>(
                            BlockInfo {
                                block_producer_id: b.block_producer_id,
                                timestamp: b.timestamp,
                                number: b.number,
                            },
                        )
                    } else {
                        r == Err::<BlockInfo, RpcError>(RpcError::HeaderNotFound)
                    }
                },
            },
    {
        match block_number {
            Some(n) => {
                let block_hash = match self.store.get_block_hash_by_number(n) {
                    Some(h) => h,
                    None => {
                        return Err(RpcError::HeaderNotFound);
                    },
                };
                match self.store.get_block_record(&block_hash) {
                    Some(b) => Ok(
                        BlockInfo {
                            block_producer_id: b.block_producer_id,
                            timestamp: b.timestamp,
                            number: b.number,
                        },
                    ),
                    None => Err(RpcError::HeaderNotFound),
                }
            },
            None => Ok(self.store.mem_block_info),
        }
    }

    /// Resolves a challenge-dump request to the target descriptor handed to
    /// the external dispute mock-executor. Without the debug execution
    /// context the feature is reported as not enabled; a block number that
    /// resolves to no block is an invalid parameter.
    pub fn debug_dump_cancel_challenge_tx(&self, target: DumpChallengeTarget) -> (r: Result<
        ChallengeTarget,
        RpcError,
    >)
        ensures
            !self.has_offchain_mock_context ==> r == Err::<ChallengeTarget, RpcError>(
                RpcError::DebugNotEnabled,
            ),
            self.has_offchain_mock_context ==> match target {
                DumpChallengeTarget::ByBlockHash { block_hash, target_index, target_type } => r
                    == Ok::<ChallengeTarget, RpcError>(
                    ChallengeTarget { block_hash, target_index, target_type },
                ),
                DumpChallengeTarget::ByBlockNumber { block_number, target_index, target_type } => {
                    if block_number < self.store.main_chain@.len() {
                        r == Ok::<ChallengeTarget, RpcError>(
                            ChallengeTarget {
                                block_hash: self.store.main_chain@[block_number as int],
                                target_index,
                                target_type,
                            },
                        )
                    } else {
                        r == Err::<ChallengeTarget, RpcError>(RpcError::InvalidParam)
                    }
                },
            },
    {
        if !self.has_offchain_mock_context {
            return Err(RpcError::DebugNotEnabled);
        }
        match target {
            DumpChallengeTarget::ByBlockHash { block_hash, target_index, target_type } => Ok(
                ChallengeTarget { block_hash, target_index, target_type },
            ),
            DumpChallengeTarget::ByBlockNumber { block_number, target_index, target_type } => {
                match self.store.get_block_hash_by_number(block_number) {
                    Some(block_hash) => Ok(
                        ChallengeTarget { block_hash, target_index, target_type },
                    ),
                    None => Err(RpcError::InvalidParam),
                }
            },
        }
    }
}

/// Duplicate-nonce rejection: when a sender's transaction with nonce `k` is
/// admitted and its detached execution succeeds, a second submission from the
/// same sender with the same nonce `k` is rejected with the stepped expected
/// nonce. The premises on the intermediate nodes are exactly what admission
/// and execution processing guarantee, for a sender the pending snapshot
/// knows.
pub proof fn lemma_duplicate_nonce_rejected(
    reg0: Registry,
    reg1: Registry,
    reg2: Registry,
    tx1: L2Transaction,
    tx2: L2Transaction,
    rr: RunResult,
    k: u32,
)
    requires
        reg0.mem_pool is Some,
        tx1.raw.from_id == tx2.raw.from_id,
        tx1.raw.nonce == k,
        tx2.raw.nonce == k,
        k < u32::MAX,
        tx1.raw.from_id < reg0.store.mem_state.accounts@.len(),
        nonce_of(reg0.store.mem_state, tx1.raw.from_id) == k,
        reg1.store == reg0.store,
        reg2.mem_pool is Some,
        mem_state_after_execution(
            reg1.store.mem_state,
            reg2.store.mem_state,
            tx1.raw.from_id,
            rr,
        ),
    ensures
        submit_result(reg0, tx1) == Ok::<H256, RpcError>(tx1.hash),
        submit_result(reg2, tx2) == Err::<H256, RpcError>(
            RpcError::InvalidNonce {
                account_id: tx2.raw.from_id,
                expected: (k + 1) as u32,
                actual: k,
            },
        ),
{
    let sender = tx1.raw.from_id;
    let s1 = reg1.store.mem_state;
    let s2 = reg2.store.mem_state;
    assert(s2.accounts@.len() >= s1.accounts@.len());
    assert(s2.accounts@[sender as int].nonce == k + 1);
    assert(nonce_of(s2, sender) == k + 1);
}

} // verus!
