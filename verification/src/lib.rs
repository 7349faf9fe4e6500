//! Transaction-admission and state-snapshot core of a layer-2 rollup node.
//!
//! The crate presents a finalized chain state and a pending state side by
//! side: checkpoint resolution maps an optional block number onto a versioned
//! snapshot, the mempool admits transactions and withdrawal requests against
//! the pending snapshot under strict nonce sequencing, and a greedy cell
//! selector gathers on-chain payment cells to fund withdrawals and fees.

pub mod hash;
pub mod vec_util;
pub mod error;
pub mod script;
pub mod cells;
pub mod run_result;
pub mod state;
pub mod tx;
pub mod checkpoint;
pub mod store;
pub mod mempool;
pub mod registry;
