//! The versioned state store: one immutable state per finalized block, plus
//! the single open pending block.
//!
//! The store is an append-only arena indexed by a checkpoint (block number and
//! sub-state tag): `Block(n)` reads the state as of block `n`, `MemBlock`
//! reads the working state of the pending block. The pending block also owns
//! the transactions and receipts the mempool has executed but not sealed.

use vstd::prelude::*;
use crate::hash::H256;
use crate::error::RpcError;
use crate::state::State;
use crate::tx::{L2Transaction, L2TransactionStatus, TxReceipt};
use crate::checkpoint::{CheckPoint, SubState, resolve_checkpoint, checkpoint_of};
use crate::vec_util::append_all;

verus! {

/// Header facts of a known block.
#[derive(Clone, Copy, Debug)]
pub struct BlockRecord {
    pub hash: H256,
    pub number: u64,
    pub block_producer_id: u32,
    pub timestamp: u64,
}

/// Header facts of the open pending block.
#[derive(Clone, Copy, Debug, PartialEq, Eq)]
pub struct BlockInfo {
    pub block_producer_id: u32,
    pub timestamp: u64,
    pub number: u64,
}

/// A committed transaction and the block that holds it.
#[derive(Debug)]
pub struct TxRecord {
    pub block_number: u64,
    pub transaction: L2Transaction,
}

/// A block tombstoned by a chain revert, named by height and hash.
#[derive(Clone, Copy, Debug)]
pub struct RevertedRef {
    pub number: u64,
    pub hash: H256,
}

/// Status of a block relative to the canonical chain and finality window.
#[derive(Clone, Copy, Debug, PartialEq, Eq, Structural)]
pub enum L2BlockStatus {
    Unfinalized,
    Finalized,
    Reverted,
}

/// The versioned store.
#[derive(Debug)]
pub struct Store {
    /// State as of each finalized block; entry `n` is the state after block `n`.
    pub block_states: Vec<State>,
    /// Working state of the open pending block.
    pub mem_state: State,
    /// Every block ever seen, on the canonical chain or not.
    pub blocks: Vec<BlockRecord>,
    /// Canonical chain: entry `n` is the hash of block `n`.
    pub main_chain: Vec<H256>,
    /// Tombstones of reverted blocks.
    pub reverted: Vec<RevertedRef>,
    /// Committed transactions.
    pub txs: Vec<TxRecord>,
    /// Committed receipts.
    pub receipts: Vec<TxReceipt>,
    /// Transactions executed into the pending block.
    pub mem_txs: Vec<L2Transaction>,
    /// Receipts of the pending block's executed transactions.
    pub mem_receipts: Vec<TxReceipt>,
    /// Header facts of the pending block.
    pub mem_block_info: BlockInfo,
}

/// Whether some block at a height is tombstoned.
pub open spec fn number_reverted(reverted: Seq<RevertedRef>, number: u64) -> bool {
    exists|k: int| 0 <= k < reverted.len() && (#[trigger] reverted[k]).number == number
}

/// Whether a block hash is tombstoned.
pub open spec fn hash_reverted(reverted: Seq<RevertedRef>, hash: Seq<u8>) -> bool {
    exists|k: int| 0 <= k < reverted.len() && (#[trigger] reverted[k]).hash@ == hash
}

/// The latest committed transaction record under a hash.
pub open spec fn find_tx(txs: Seq<TxRecord>, hash: Seq<u8>) -> Option<TxRecord>
    decreases txs.len(),
{
    if txs.len() == 0 {
        None
    } else if txs.last().transaction.hash@ == hash {
        Some(txs.last())
    } else {
        find_tx(txs.drop_last(), hash)
    }
}

/// The latest pending transaction under a hash.
pub open spec fn find_mem_tx(txs: Seq<L2Transaction>, hash: Seq<u8>) -> Option<L2Transaction>
    decreases txs.len(),
{
    if txs.len() == 0 {
        None
    } else if txs.last().hash@ == hash {
        Some(txs.last())
    } else {
        find_mem_tx(txs.drop_last(), hash)
    }
}

/// The latest receipt under a transaction hash.
pub open spec fn find_receipt(receipts: Seq<TxReceipt>, hash: Seq<u8>) -> Option<TxReceipt>
    decreases receipts.len(),
{
    if receipts.len() == 0 {
        None
    } else if receipts.last().tx_hash@ == hash {
        Some(receipts.last())
    } else {
        find_receipt(receipts.drop_last(), hash)
    }
}

/// The latest block record under a block hash.
pub open spec fn find_block(blocks: Seq<BlockRecord>, hash: Seq<u8>) -> Option<BlockRecord>
    decreases blocks.len(),
{
    if blocks.len() == 0 {
        None
    } else if blocks.last().hash@ == hash {
        Some(blocks.last())
    } else {
        find_block(blocks.drop_last(), hash)
    }
}

/// What a transaction lookup reports: a committed transaction, masked to
/// absent when its block is tombstoned, else a pending one.
pub open spec fn tx_lookup(s: Store, hash: Seq<u8>) -> Option<(L2Transaction, L2TransactionStatus)> {
    match find_tx(s.txs@, hash) {
        Some(rec) => if number_reverted(s.reverted@, rec.block_number) {
            None
        } else {
            Some((rec.transaction, L2TransactionStatus::Committed))
        },
        None => match find_mem_tx(s.mem_txs@, hash) {
            Some(t) => Some((t, L2TransactionStatus::Pending)),
            None => None,
        },
    }
}

/// What a receipt lookup reports: committed receipts first, then the pending
/// block's receipts.
pub open spec fn receipt_lookup(s: Store, hash: Seq<u8>) -> Option<TxReceipt> {
    match find_receipt(s.receipts@, hash) {
        Some(r) => Some(r),
        None => find_receipt(s.mem_receipts@, hash),
    }
}

impl Store {
    /// The store always holds at least the genesis block, and the canonical
    /// chain and the per-block states line up.
    pub open spec fn wf(self) -> bool {
        &&& self.main_chain@.len() == self.block_states@.len()
        &&& 1 <= self.main_chain@.len() <= u64::MAX
    }

    /// The height of the last committed block.
    pub open spec fn tip_number(self) -> int {
        self.main_chain@.len() - 1
    }

    /// A store holding one genesis block and an empty pending block.
    pub fn new(
        genesis_state: State,
        genesis_hash: H256,
        mem_state: State,
        mem_block_info: BlockInfo,
    ) -> (r: Store)
        ensures
            r.wf(),
            r.tip_number() == 0,
            r.main_chain@.len() == 1 && r.main_chain@[0] == genesis_hash,
            r.block_states@ == seq![genesis_state],
            r.mem_state == mem_state,
            r.blocks@.len() == 1 && r.blocks@[0].hash == genesis_hash && r.blocks@[0].number == 0,
            r.reverted@.len() == 0,
            r.txs@.len() == 0 && r.receipts@.len() == 0,
            r.mem_txs@.len() == 0 && r.mem_receipts@.len() == 0,
            r.mem_block_info == mem_block_info,
    {
        let mut block_states: Vec<State> = Vec::new();
        block_states.push(genesis_state);
        let mut main_chain: Vec<H256> = Vec::new();
        main_chain.push(genesis_hash);
        let mut blocks: Vec<BlockRecord> = Vec::new();
        blocks.push(
            BlockRecord { hash: genesis_hash, number: 0, block_producer_id: 0, timestamp: 0 },
        );
        proof {
            assert(block_states@ =~= seq![block_states@[0]]);
        }
        Store {
            block_states,
            mem_state,
            blocks,
            main_chain,
            reverted: Vec::new(),
            txs: Vec::new(),
            receipts: Vec::new(),
            mem_txs: Vec::new(),
            mem_receipts: Vec::new(),
            mem_block_info,
        }
    }

    /// Commits one block on top of the chain: its record, its post-state, and
    /// its transactions and receipts. This models the sealing boundary, which
    /// block production drives.
    pub fn insert_block(
        &mut self,
        block: BlockRecord,
        post_state: State,
        txs: Vec<TxRecord>,
        receipts: Vec<TxReceipt>,
    )
        requires
            old(self).wf(),
            old(self).main_chain@.len() < u64::MAX,
            block.number == old(self).main_chain@.len(),
            forall|i: int| 0 <= i < txs@.len() ==> (#[trigger] txs@[i]).block_number
                == block.number,
        ensures
            final(self).wf(),
            final(self).main_chain@ == old(self).main_chain@.push(block.hash),
            final(self).block_states@ == old(self).block_states@.push(post_state),
            final(self).blocks@ == old(self).blocks@.push(block),
            final(self).txs@ == old(self).txs@ + txs@,
            final(self).receipts@ == old(self).receipts@ + receipts@,
            final(self).reverted@ == old(self).reverted@,
            final(self).mem_txs@ == old(self).mem_txs@,
            final(self).mem_receipts@ == old(self).mem_receipts@,
            final(self).mem_state == old(self).mem_state,
            final(self).mem_block_info == old(self).mem_block_info,
            final(self).tip_number() == old(self).tip_number() + 1,
    {
        self.main_chain.push(block.hash);
        self.block_states.push(post_state);
        self.blocks.push(block);
        append_all(&mut self.txs, txs);
        append_all(&mut self.receipts, receipts);
    }

    /// Tombstones a block: later lookups report it, and any transaction
    /// committed at its height, as reverted or absent. A tombstone is never
    /// removed.
    pub fn mark_reverted(&mut self, number: u64, hash: H256)
        ensures
            final(self).reverted@ == old(self).reverted@.push(
                RevertedRef { number, hash },
            ),
            final(self).txs@ == old(self).txs@,
            final(self).receipts@ == old(self).receipts@,
            final(self).mem_txs@ == old(self).mem_txs@,
            final(self).mem_receipts@ == old(self).mem_receipts@,
            final(self).blocks@ == old(self).blocks@,
            final(self).main_chain@ == old(self).main_chain@,
            final(self).block_states@ == old(self).block_states@,
            final(self).mem_state == old(self).mem_state,
            final(self).mem_block_info == old(self).mem_block_info,
    {
        self.reverted.push(RevertedRef { number, hash });
    }

    /// The height of the chain tip.
    pub fn get_tip_block_number(&self) -> (r: u64)
        requires
            self.wf(),
        ensures
            r == self.tip_number(),
    {
        (self.main_chain.len() - 1) as u64
    }

    /// The hash of the chain tip.
    pub fn get_tip_block_hash(&self) -> (r: H256)
        requires
            self.wf(),
        ensures
            r@ == self.main_chain@.last()@,
    {
        self.main_chain[self.main_chain.len() - 1]
    }

    /// The canonical block hash at a height, if the chain is that tall.
    pub fn get_block_hash_by_number(&self, number: u64) -> (r: Option<H256>)
        ensures
            match r {
                Some(h) => number < self.main_chain@.len() && h == self.main_chain@[
                    number as int
                ],
                None => number >= self.main_chain@.len(),
            },
    {
        if number < self.main_chain.len() as u64 {
            Some(self.main_chain[number as usize])
        } else {
            None
        }
    }

    /// The state snapshot a checkpoint names.
    pub fn state_at(&self, checkpoint: CheckPoint) -> (r: &State)
        requires
            self.wf(),
            checkpoint.sub_state == SubState::Block ==> checkpoint.block_number
                < self.block_states@.len(),
        ensures
            checkpoint.sub_state == SubState::Block ==> r == &self.block_states@[
                checkpoint.block_number as int
            ],
            checkpoint.sub_state == SubState::MemBlock ==> r == &self.mem_state,
    {
        match checkpoint.sub_state {
            SubState::Block => {
                let n = self.block_states.len();
                proof {
                    assert(checkpoint.block_number < n);
                }
                &self.block_states[checkpoint.block_number as usize]
            },
            SubState::MemBlock => &self.mem_state,
        }
    }

    /// Resolves an optional block number to a snapshot, as every block-scoped
    /// read does: an explicit number past the tip is `HeaderNotFound`; no
    /// number reads the pending state when the mempool is enabled, else the
    /// tip state.
    pub fn get_state_db_at_block(
        &self,
        block_number: Option<u64>,
        is_mem_pool_enabled: bool,
    ) -> (r: Result<&State, RpcError>)
        requires
            self.wf(),
        ensures
            match r {
                Ok(state) => {
                    let cp = checkpoint_of(block_number, self.tip_number() as u64,
                        is_mem_pool_enabled);
                    &&& (block_number is Some ==> block_number.unwrap() <= self.tip_number())
                    &&& (cp.sub_state == SubState::MemBlock ==> state == &self.mem_state)
                    &&& (cp.sub_state == SubState::Block ==> state == &self.block_states@[
                        cp.block_number as int
                    ])
                },
                Err(e) => {
                    &&& e == RpcError::HeaderNotFound
                    &&& block_number is Some && block_number.unwrap() > self.tip_number()
                },
            },
    {
        let tip = self.get_tip_block_number();
        let checkpoint = match resolve_checkpoint(block_number, tip, is_mem_pool_enabled) {
            Ok(cp) => cp,
            Err(e) => {
                return Err(e);
            },
        };
        Ok(self.state_at(checkpoint))
    }
}

/// What a block lookup reports: absent when unknown or no longer on the
/// canonical chain; reverted when tombstoned; else finalized once the tip has
/// moved a finality window past it, unfinalized before that.
pub open spec fn block_lookup(s: Store, hash: Seq<u8>, finality_blocks: u64) -> Option<
    (BlockRecord, L2BlockStatus),
> {
    match find_block(s.blocks@, hash) {
        None => None,
        Some(b) => if hash_reverted(s.reverted@, hash) {
            Some((b, L2BlockStatus::Reverted))
        } else if b.number >= s.main_chain@.len() || s.main_chain@[b.number as int]@ != hash {
            None
        } else if s.tip_number() >= b.number + finality_blocks {
            Some((b, L2BlockStatus::Finalized))
        } else {
            Some((b, L2BlockStatus::Unfinalized))
        },
    }
}

impl Store {
    /// Index of the latest committed transaction under a hash.
    fn find_tx_index(&self, tx_hash: &H256) -> (r: Option<usize>)
        ensures
            match r {
                Some(i) => i < self.txs@.len() && find_tx(self.txs@, tx_hash@) == Some(
                    self.txs@[i as int],
                ),
                None => find_tx(self.txs@, tx_hash@) is None,
            },
    {
        let mut i: usize = self.txs.len();
        proof {
            assert(self.txs@.take(i as int) =~= self.txs@);
        }
        while i > 0
            invariant
                i <= self.txs@.len(),
                find_tx(self.txs@, tx_hash@) == find_tx(self.txs@.take(i as int), tx_hash@),
            decreases i,
        {
            i -= 1;
            proof {
                assert(self.txs@.take(i + 1).drop_last() =~= self.txs@.take(i as int));
                assert(self.txs@.take(i + 1).last() == self.txs@[i as int]);
            }
            if self.txs[i].transaction.hash.eq(tx_hash) {
                return Some(i);
            }
        }
        None
    }

    /// Index of the latest pending transaction under a hash.
    fn find_mem_tx_index(&self, tx_hash: &H256) -> (r: Option<usize>)
        ensures
            match r {
                Some(i) => i < self.mem_txs@.len() && find_mem_tx(self.mem_txs@, tx_hash@)
                    == Some(self.mem_txs@[i as int]),
                None => find_mem_tx(self.mem_txs@, tx_hash@) is None,
            },
    {
        let mut i: usize = self.mem_txs.len();
        proof {
            assert(self.mem_txs@.take(i as int) =~= self.mem_txs@);
        }
        while i > 0
            invariant
                i <= self.mem_txs@.len(),
                find_mem_tx(self.mem_txs@, tx_hash@) == find_mem_tx(
                    self.mem_txs@.take(i as int),
                    tx_hash@,
                ),
            decreases i,
        {
            i -= 1;
            proof {
                assert(self.mem_txs@.take(i + 1).drop_last() =~= self.mem_txs@.take(i as int));
                assert(self.mem_txs@.take(i + 1).last() == self.mem_txs@[i as int]);
            }
            if self.mem_txs[i].hash.eq(tx_hash) {
                return Some(i);
            }
        }
        None
    }

    /// Index of the latest receipt under a hash, in a given receipt list.
    fn find_receipt_index(receipts: &Vec<TxReceipt>, tx_hash: &H256) -> (r: Option<usize>)
        ensures
            match r {
                Some(i) => i < receipts@.len() && find_receipt(receipts@, tx_hash@) == Some(
                    receipts@[i as int],
                ),
                None => find_receipt(receipts@, tx_hash@) is None,
            },
    {
        let mut i: usize = receipts.len();
        proof {
            assert(receipts@.take(i as int) =~= receipts@);
        }
        while i > 0
            invariant
                i <= receipts@.len(),
                find_receipt(receipts@, tx_hash@) == find_receipt(
                    receipts@.take(i as int),
                    tx_hash@,
                ),
            decreases i,
        {
            i -= 1;
            proof {
                assert(receipts@.take(i + 1).drop_last() =~= receipts@.take(i as int));
                assert(receipts@.take(i + 1).last() == receipts@[i as int]);
            }
            if receipts[i].tx_hash.eq(tx_hash) {
                return Some(i);
            }
        }
        None
    }

    /// The latest block record under a hash.
    pub fn get_block_record(&self, block_hash: &H256) -> (r: Option<BlockRecord>)
        ensures
            r == find_block(self.blocks@, block_hash@),
    {
        let mut i: usize = self.blocks.len();
        proof {
            assert(self.blocks@.take(i as int) =~= self.blocks@);
        }
        while i > 0
            invariant
                i <= self.blocks@.len(),
                find_block(self.blocks@, block_hash@) == find_block(
                    self.blocks@.take(i as int),
                    block_hash@,
                ),
            decreases i,
        {
            i -= 1;
            proof {
                assert(self.blocks@.take(i + 1).drop_last() =~= self.blocks@.take(i as int));
                assert(self.blocks@.take(i + 1).last() == self.blocks@[i as int]);
            }
            if self.blocks[i].hash.eq(block_hash) {
                return Some(self.blocks[i]);
            }
        }
        None
    }

    /// Whether some block at this height is tombstoned.
    pub fn is_number_reverted(&self, number: u64) -> (r: bool)
        ensures
            r == number_reverted(self.reverted@, number),
    {
        let mut k: usize = 0;
        while k < self.reverted.len()
            invariant
                k <= self.reverted@.len(),
                forall|m: int| 0 <= m < k ==> (#[trigger] self.reverted@[m]).number != number,
            decreases self.reverted@.len() - k,
        {
            if self.reverted[k].number == number {
                return true;
            }
            k += 1;
        }
        false
    }

    /// Whether a block hash is tombstoned.
    pub fn is_hash_reverted(&self, hash: &H256) -> (r: bool)
        ensures
            r == hash_reverted(self.reverted@, hash@),
    {
        let mut k: usize = 0;
        while k < self.reverted.len()
            invariant
                k <= self.reverted@.len(),
                forall|m: int| 0 <= m < k ==> (#[trigger] self.reverted@[m]).hash@ != hash@,
            decreases self.reverted@.len() - k,
        {
            if self.reverted[k].hash.eq(hash) {
                return true;
            }
            k += 1;
        }
        false
    }

    /// Looks a transaction up by hash: first among committed transactions,
    /// where a tombstoned containing block masks it to absent; else among the
    /// pending block's transactions.
    pub fn get_transaction(&self, tx_hash: &H256) -> (r: Option<
        (&L2Transaction, L2TransactionStatus),
    >)
        ensures
            match r {
                Some(p) => tx_lookup(*self, tx_hash@) == Some((*p.0, p.1)),
                None => tx_lookup(*self, tx_hash@) is None,
            },
    {
        match self.find_tx_index(tx_hash) {
            Some(i) => {
                if self.is_number_reverted(self.txs[i].block_number) {
                    None
                } else {
                    Some((&self.txs[i].transaction, L2TransactionStatus::Committed))
                }
            },
            None => {
                match self.find_mem_tx_index(tx_hash) {
                    Some(i) => Some((&self.mem_txs[i], L2TransactionStatus::Pending)),
                    None => None,
                }
            },
        }
    }

    /// Looks a receipt up by transaction hash: committed receipts first, then
    /// the pending block's receipts.
    pub fn get_transaction_receipt(&self, tx_hash: &H256) -> (r: Option<&TxReceipt>)
        ensures
            match r {
                Some(rc) => receipt_lookup(*self, tx_hash@) == Some(*rc),
                None => receipt_lookup(*self, tx_hash@) is None,
            },
    {
        match Store::find_receipt_index(&self.receipts, tx_hash) {
            Some(i) => Some(&self.receipts[i]),
            None => {
                match Store::find_receipt_index(&self.mem_receipts, tx_hash) {
                    Some(i) => Some(&self.mem_receipts[i]),
                    None => None,
                }
            },
        }
    }

    /// Looks a block up by hash together with its chain status.
    pub fn get_block(&self, block_hash: &H256, finality_blocks: u64) -> (r: Option<
        (BlockRecord, L2BlockStatus),
    >)
        requires
            self.wf(),
        ensures
            r == block_lookup(*self, block_hash@, finality_blocks),
    {
        let block = match self.get_block_record(block_hash) {
            Some(b) => b,
            None => {
                return None;
            },
        };
        if self.is_hash_reverted(block_hash) {
            return Some((block, L2BlockStatus::Reverted));
        }
        match self.get_block_hash_by_number(block.number) {
            Some(on_chain) => {
                if !on_chain.eq(block_hash) {
                    return None;
                }
            },
            None => {
                return None;
            },
        }
        let tip = self.get_tip_block_number();
        if tip - block.number >= finality_blocks {
            Some((block, L2BlockStatus::Finalized))
        } else {
            Some((block, L2BlockStatus::Unfinalized))
        }
    }

    /// Looks a block up by height on the canonical chain.
    pub fn get_block_by_number(&self, number: u64) -> (r: Option<BlockRecord>)
        ensures
            match r {
                Some(b) => number < self.main_chain@.len() && find_block(
                    self.blocks@,
                    self.main_chain@[number as int]@,
                ) == Some(b),
                None => number >= self.main_chain@.len() || find_block(
                    self.blocks@,
                    self.main_chain@[number as int]@,
                ) is None,
            },
    {
        match self.get_block_hash_by_number(number) {
            Some(hash) => self.get_block_record(&hash),
            None => None,
        }
    }

    /// The latest pending transaction under a hash.
    pub fn get_mem_pool_transaction(&self, tx_hash: &H256) -> (r: Option<&L2Transaction>)
        ensures
            match r {
                Some(t) => find_mem_tx(self.mem_txs@, tx_hash@) == Some(*t),
                None => find_mem_tx(self.mem_txs@, tx_hash@) is None,
            },
    {
        match self.find_mem_tx_index(tx_hash) {
            Some(i) => Some(&self.mem_txs[i]),
            None => None,
        }
    }

    /// The latest pending receipt under a transaction hash.
    pub fn get_mem_pool_transaction_receipt(&self, tx_hash: &H256) -> (r: Option<&TxReceipt>)
        ensures
            match r {
                Some(rc) => find_receipt(self.mem_receipts@, tx_hash@) == Some(*rc),
                None => find_receipt(self.mem_receipts@, tx_hash@) is None,
            },
    {
        match Store::find_receipt_index(&self.mem_receipts, tx_hash) {
            Some(i) => Some(&self.mem_receipts[i]),
            None => None,
        }
    }
}

/// A transaction committed in a block that is later tombstoned is reported as
/// absent by transaction lookup, however often the lookup is repeated: the
/// tombstone is never removed.
pub proof fn lemma_reverted_block_masks_transaction(
    s0: Store,
    s1: Store,
    tx_hash: Seq<u8>,
    block_hash: H256,
)
    requires
        find_tx(s0.txs@, tx_hash) is Some,
        s1.txs@ == s0.txs@,
        s1.reverted@ == s0.reverted@.push(
            RevertedRef { number: find_tx(s0.txs@, tx_hash).unwrap().block_number, hash: block_hash },
        ),
    ensures
        tx_lookup(s1, tx_hash) is None,
{
    let rec = find_tx(s0.txs@, tx_hash).unwrap();
    let k = s0.reverted@.len() as int;
    assert(s1.reverted@[k].number == rec.block_number);
    assert(number_reverted(s1.reverted@, rec.block_number));
}

/// Round trip of an admitted transaction that does not fail execution: once
/// the detached execution has folded it into the pending block (and the
/// reader has synchronized with the mempool), transaction lookup reports it
/// as pending and receipt lookup returns the receipt recorded at execution
/// time, with the same hash and effects. The premises are exactly what
/// processing one successful execution guarantees, for a hash that is not
/// already committed.
pub proof fn lemma_admitted_transaction_round_trip(s0: Store, s1: Store, tx: L2Transaction)
    requires
        s1.txs@ == s0.txs@,
        s1.receipts@ == s0.receipts@,
        find_tx(s1.txs@, tx.hash@) is None,
        find_receipt(s1.receipts@, tx.hash@) is None,
        s1.mem_txs@ == s0.mem_txs@.push(tx),
        s1.mem_receipts@.len() == s0.mem_receipts@.len() + 1,
        s1.mem_receipts@.take(s0.mem_receipts@.len() as int) == s0.mem_receipts@,
        s1.mem_receipts@.last().tx_hash == tx.hash,
    ensures
        tx_lookup(s1, tx.hash@) == Some((tx, L2TransactionStatus::Pending)),
        receipt_lookup(s1, tx.hash@) == Some(s1.mem_receipts@.last()),
{
    assert(s1.mem_txs@.last() == tx);
    assert(find_mem_tx(s1.mem_txs@, tx.hash@) == Some(tx));
    assert(find_receipt(s1.mem_receipts@, tx.hash@) == Some(s1.mem_receipts@.last()));
}

} // verus!

