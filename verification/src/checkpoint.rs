//! Checkpoint resolution: mapping an optional block number onto an exact,
//! versioned point-in-time view of the store.
//!
//! This is the single place that encodes the finalized-versus-pending
//! ambiguity rule: an explicit block number names a committed block and fails
//! past the tip; no block number names the pending block when a mempool is
//! enabled and the tip otherwise.

use vstd::prelude::*;
use crate::error::{RpcError, header_not_found_err};

verus! {

/// Which sub-state of a block height a checkpoint names: the committed block
/// or the single open pending block.
#[derive(Clone, Copy, Debug, PartialEq, Eq, Structural)]
pub enum SubState {
    Block,
    MemBlock,
}

/// An exact, immutable point-in-time view into the versioned store. `Block`
/// checkpoints are only valid up to the finalized tip; the `MemBlock`
/// checkpoint names the one open pending block.
#[derive(Clone, Copy, Debug, PartialEq, Eq, Structural)]
pub struct CheckPoint {
    pub block_number: u64,
    pub sub_state: SubState,
}

impl CheckPoint {
    pub fn new(block_number: u64, sub_state: SubState) -> (r: CheckPoint)
        ensures
            r == (CheckPoint { block_number, sub_state }),
    {
        CheckPoint { block_number, sub_state }
    }
}

/// The checkpoint a request resolves to when it is not rejected.
pub open spec fn checkpoint_of(
    block_number: Option<u64>,
    tip_block_number: u64,
    is_mem_pool_enabled: bool,
) -> CheckPoint {
    match block_number {
        Some(n) => CheckPoint { block_number: n, sub_state: SubState::Block },
        None => CheckPoint {
            block_number: tip_block_number,
            sub_state: if is_mem_pool_enabled {
                SubState::MemBlock
            } else {
                SubState::Block
            },
        },
    }
}

/// Resolves an optional block number against the tip: an explicit number past
/// the tip is `HeaderNotFound`; an explicit number at or below the tip names
/// that committed block; no number names the pending block when the mempool
/// is enabled, else the tip block.
pub fn resolve_checkpoint(
    block_number: Option<u64>,
    tip_block_number: u64,
    is_mem_pool_enabled: bool,
) -> (r: Result<CheckPoint, RpcError>)
    ensures
        match r {
            Ok(cp) => {
                &&& cp == checkpoint_of(block_number, tip_block_number, is_mem_pool_enabled)
                &&& (block_number is Some ==> block_number.unwrap() <= tip_block_number)
            },
            Err(e) => {
                &&& e == RpcError::HeaderNotFound
                &&& block_number is Some
                &&& block_number.unwrap() > tip_block_number
            },
        },
{
    match block_number {
        Some(n) => {
            if n > tip_block_number {
                Err(header_not_found_err())
            } else {
                Ok(CheckPoint::new(n, SubState::Block))
            }
        },
        None => {
            if is_mem_pool_enabled {
                Ok(CheckPoint::new(tip_block_number, SubState::MemBlock))
            } else {
                Ok(CheckPoint::new(tip_block_number, SubState::Block))
            }
        },
    }
}

} // verus!
