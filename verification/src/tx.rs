//! Transactions, receipts and withdrawal requests.

use vstd::prelude::*;
use crate::hash::H256;
use crate::run_result::LogItem;

verus! {

/// The signed part of a layer-2 transaction.
#[derive(Debug)]
pub struct RawL2Transaction {
    pub from_id: u32,
    pub to_id: u32,
    pub nonce: u32,
    pub args: Vec<u8>,
}

/// A layer-2 transaction with its signature and hash.
#[derive(Debug)]
pub struct L2Transaction {
    pub raw: RawL2Transaction,
    pub signature: Vec<u8>,
    pub hash: H256,
}

/// Whether a looked-up transaction sits in a committed block or in the
/// pending block.
#[derive(Clone, Copy, Debug, PartialEq, Eq, Structural)]
pub enum L2TransactionStatus {
    Committed,
    Pending,
}

/// The receipt of one executed transaction: its effects in brief.
#[derive(Debug)]
pub struct TxReceipt {
    pub tx_hash: H256,
    pub exit_code: i8,
    pub used_cycles: u64,
    pub logs: Vec<LogItem>,
}

/// A claim against custodian funds: capacity to release and, for a token
/// withdrawal, the token amount.
#[derive(Clone, Copy, Debug)]
pub struct WithdrawalRequest {
    pub account_script_hash: H256,
    pub capacity: u64,
    pub amount: u128,
    pub sudt_script_hash: H256,
    pub nonce: u32,
}

} // verus!
