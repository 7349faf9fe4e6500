//! The mempool: the admitted-but-uncommitted transaction and withdrawal set
//! of the open pending block.
//!
//! Admission is synchronous and strict; execution of admitted items is
//! detached and handled by the registry, which folds each run result into the
//! pending snapshot. A withdrawal is admitted only when the currently
//! collectable custodian funds cover it.

use vstd::prelude::*;
use crate::hash::H256;
use crate::error::RpcError;
use crate::cells::CellInfo;
use crate::tx::{L2Transaction, WithdrawalRequest};

verus! {

/// Custodian funds currently collectable on chain: total capacity, the cells
/// themselves, and the collectable amount of each token.
#[derive(Debug)]
pub struct CollectedCustodianCells {
    pub capacity: u128,
    pub cells: Vec<CellInfo>,
    pub sudt: Vec<(H256, u128)>,
}

/// A deposit cell waiting to enter the pending block.
#[derive(Debug)]
pub struct DepositInfo {
    pub cell: CellInfo,
    pub request_capacity: u64,
}

/// The collectable amount of one token, by its script hash; absent reads 0.
pub open spec fn sudt_amount_of(entries: Seq<(H256, u128)>, hash: Seq<u8>) -> u128
    decreases entries.len(),
{
    if entries.len() == 0 {
        0
    } else if entries.last().0@ == hash {
        entries.last().1
    } else {
        sudt_amount_of(entries.drop_last(), hash)
    }
}

/// Whether collected custodian funds cover a withdrawal: enough capacity, and
/// for a token withdrawal enough of that token.
pub open spec fn custodian_sufficient(w: WithdrawalRequest, avail: CollectedCustodianCells) -> bool {
    &&& avail.capacity >= w.capacity
    &&& (w.amount > 0 ==> sudt_amount_of(avail.sudt@, w.sudt_script_hash@) >= w.amount)
}

/// The external capability the mempool consumes when assembling withdrawal
/// funding: block-time estimation, deposit cells, and custodian cells. The
/// node's production implementation polls a layer-1 indexer; tests inject a
/// deterministic double.
pub trait MemPoolProvider {
    /// Estimated timestamp of the next block, in milliseconds.
    fn estimate_next_blocktime(&self) -> Result<u64, RpcError>;

    /// Deposit cells currently collectable.
    fn collect_deposit_cells(&self) -> Result<Vec<DepositInfo>, RpcError>;

    /// Custodian funds collectable for a set of withdrawals.
    fn query_available_custodians(
        &self,
        withdrawals: Vec<WithdrawalRequest>,
        last_finalized_block_number: u64,
    ) -> Result<CollectedCustodianCells, RpcError>;
}

/// The pending block's admitted queue.
#[derive(Debug)]
pub struct MemPool {
    /// Admitted transactions awaiting detached execution, in admission order.
    pub queue: Vec<L2Transaction>,
    /// Admitted withdrawal requests, in admission order.
    pub withdrawals: Vec<WithdrawalRequest>,
}

impl MemPool {
    /// An empty mempool.
    pub fn new() -> (r: MemPool)
        ensures
            r.queue@.len() == 0,
            r.withdrawals@.len() == 0,
    {
        MemPool { queue: Vec::new(), withdrawals: Vec::new() }
    }

    /// Enqueues an admitted transaction for detached execution. Validation
    /// happens on the submission path before this call.
    pub fn push_transaction(&mut self, tx: L2Transaction)
        ensures
            final(self).queue@ == old(self).queue@.push(tx),
            final(self).withdrawals@ == old(self).withdrawals@,
    {
        self.queue.push(tx);
    }

    /// Admits a withdrawal request when the collectable custodian funds cover
    /// it; an uncovered request is rejected with an internal error and leaves
    /// the mempool unchanged.
    pub fn push_withdrawal_request(
        &mut self,
        withdrawal: WithdrawalRequest,
        available: &CollectedCustodianCells,
    ) -> (r: Result<(), RpcError>)
        ensures
            match r {
                Ok(()) => {
                    &&& custodian_sufficient(withdrawal, *available)
                    &&& final(self).withdrawals@ == old(self).withdrawals@.push(withdrawal)
                    &&& final(self).queue@ == old(self).queue@
                },
                Err(e) => {
                    &&& e == RpcError::InternalError
                    &&& !custodian_sufficient(withdrawal, *available)
                    &&& *final(self) == *old(self)
                },
            },
    {
        if available.capacity < withdrawal.capacity as u128 {
            return Err(RpcError::InternalError);
        }
        if withdrawal.amount > 0 {
            let mut i: usize = available.sudt.len();
            proof {
                assert(available.sudt@.take(i as int) =~= available.sudt@);
            }
            while i > 0
                invariant
                    i <= available.sudt@.len(),
                    available.capacity >= withdrawal.capacity,
                    withdrawal.amount > 0,
                    old(self) == self,
                    sudt_amount_of(available.sudt@, withdrawal.sudt_script_hash@)
                        == sudt_amount_of(
                        available.sudt@.take(i as int),
                        withdrawal.sudt_script_hash@,
                    ),
                decreases i,
            {
                i -= 1;
                proof {
                    assert(available.sudt@.take(i + 1).drop_last() =~= available.sudt@.take(
                        i as int,
                    ));
                    assert(available.sudt@.take(i + 1).last() == available.sudt@[i as int]);
                }
                if available.sudt[i].0.eq(&withdrawal.sudt_script_hash) {
                    if available.sudt[i].1 >= withdrawal.amount {
                        self.withdrawals.push(withdrawal);
                        return Ok(());
                    } else {
                        return Err(RpcError::InternalError);
                    }
                }
            }
            return Err(RpcError::InternalError);
        }
        self.withdrawals.push(withdrawal);
        Ok(())
    }
}

} // verus!
