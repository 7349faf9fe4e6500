//! Accumulated execution effects of one transaction.
//!
//! A run result is produced by the external execution capability and folded
//! into the pending snapshot by the mempool; a dry run returns it to the
//! caller without folding.

use vstd::prelude::*;
use crate::hash::H256;
use crate::script::Script;

verus! {

/// One log record emitted during execution.
#[derive(Clone, Debug)]
pub struct LogItem {
    pub account_id: u32,
    pub service_flag: u8,
    pub data: Vec<u8>,
}

/// A signature-recovery request recorded during execution.
#[derive(Clone, Debug)]
pub struct RecoverAccount {
    pub message: H256,
    pub signature: Vec<u8>,
    pub lock_script: Script,
}

/// One write to an account's storage.
#[derive(Clone, Copy, Debug)]
pub struct StorageSlot {
    pub account_id: u32,
    pub key: H256,
    pub value: H256,
}

/// The effects of executing one transaction against a snapshot.
#[derive(Debug)]
pub struct RunResult {
    pub read_values: Vec<StorageSlot>,
    pub write_values: Vec<StorageSlot>,
    pub return_data: Vec<u8>,
    pub account_count: Option<u32>,
    pub recover_accounts: Vec<RecoverAccount>,
    pub new_scripts: Vec<(H256, Script)>,
    pub get_scripts: Vec<Vec<u8>>,
    pub write_data: Vec<(H256, Vec<u8>)>,
    pub read_data: Vec<(H256, Vec<u8>)>,
    pub logs: Vec<LogItem>,
    pub used_cycles: u64,
    pub exit_code: i8,
}

/// The storage writes aimed at one account, in execution order.
pub open spec fn writes_for(writes: Seq<StorageSlot>, id: int) -> Seq<(H256, H256)>
    decreases writes.len(),
{
    if writes.len() == 0 {
        Seq::empty()
    } else {
        let rest = writes_for(writes.drop_last(), id);
        if writes.last().account_id == id {
            rest.push((writes.last().key, writes.last().value))
        } else {
            rest
        }
    }
}

/// Processing one more write extends the per-account write sequence of its
/// target account only.
pub proof fn lemma_writes_for_snoc(writes: Seq<StorageSlot>, j: int, id: int)
    requires
        0 <= j < writes.len(),
    ensures
        writes_for(writes.take(j + 1), id) == if writes[j].account_id == id {
            writes_for(writes.take(j), id).push((writes[j].key, writes[j].value))
        } else {
            writes_for(writes.take(j), id)
        },
{
    assert(writes.take(j + 1).drop_last() =~= writes.take(j));
    assert(writes.take(j + 1).last() == writes[j]);
}

} // verus!
