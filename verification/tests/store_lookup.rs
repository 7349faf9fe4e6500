use rollup_core::hash::H256;
use rollup_core::state::State;
use rollup_core::store::{BlockInfo, BlockRecord, L2BlockStatus, Store, TxRecord};
use rollup_core::tx::{L2Transaction, L2TransactionStatus, RawL2Transaction, TxReceipt};

fn h(n: u8) -> H256 {
    let mut b = [0u8; 32];
    b[0] = n;
    H256 { b }
}

fn tx(tag: u8) -> L2Transaction {
    L2Transaction {
        raw: RawL2Transaction { from_id: 0, to_id: 0, nonce: 0, args: Vec::new() },
        signature: Vec::new(),
        hash: h(tag),
    }
}

fn store_with_block_one() -> Store {
    let mut store = Store::new(
        State::new(),
        h(9),
        State::new(),
        BlockInfo { block_producer_id: 0, timestamp: 0, number: 2 },
    );
    let block = BlockRecord { hash: h(20), number: 1, block_producer_id: 3, timestamp: 1000 };
    let txs = vec![TxRecord { block_number: 1, transaction: tx(42) }];
    let receipts = vec![TxReceipt { tx_hash: h(42), exit_code: 0, used_cycles: 5, logs: Vec::new() }];
    store.insert_block(block, State::new(), txs, receipts);
    store
}

#[test]
fn committed_transaction_found_then_masked_by_revert() {
    let mut store = store_with_block_one();
    let (found, status) = store.get_transaction(&h(42)).unwrap();
    assert_eq!(found.hash.b, h(42).b);
    assert_eq!(status, L2TransactionStatus::Committed);

    store.mark_reverted(1, h(20));
    // The previously committed transaction is now reported as absent.
    assert!(store.get_transaction(&h(42)).is_none());
    // Re-querying is idempotent: the tombstone is never removed.
    assert!(store.get_transaction(&h(42)).is_none());
}

#[test]
fn unknown_transaction_absent() {
    let store = store_with_block_one();
    assert!(store.get_transaction(&h(77)).is_none());
}

#[test]
fn block_status_progression() {
    let mut store = store_with_block_one();
    // finality window of 2: tip is 1, block 1 needs tip >= 3.
    assert_eq!(
        store.get_block(&h(20), 2).unwrap().1,
        L2BlockStatus::Unfinalized
    );
    store.insert_block(
        BlockRecord { hash: h(21), number: 2, block_producer_id: 0, timestamp: 0 },
        State::new(),
        Vec::new(),
        Vec::new(),
    );
    store.insert_block(
        BlockRecord { hash: h(22), number: 3, block_producer_id: 0, timestamp: 0 },
        State::new(),
        Vec::new(),
        Vec::new(),
    );
    assert_eq!(store.get_block(&h(20), 2).unwrap().1, L2BlockStatus::Finalized);
    store.mark_reverted(1, h(20));
    assert_eq!(store.get_block(&h(20), 2).unwrap().1, L2BlockStatus::Reverted);
}

#[test]
fn unknown_block_absent() {
    let store = store_with_block_one();
    assert!(store.get_block(&h(33), 2).is_none());
}

#[test]
fn block_hash_and_number_lookups() {
    let store = store_with_block_one();
    assert_eq!(store.get_tip_block_number(), 1);
    assert_eq!(store.get_tip_block_hash().b, h(20).b);
    assert_eq!(store.get_block_hash_by_number(1).unwrap().b, h(20).b);
    assert!(store.get_block_hash_by_number(2).is_none());
    let b = store.get_block_by_number(1).unwrap();
    assert_eq!(b.number, 1);
    assert_eq!(b.timestamp, 1000);
    assert!(store.get_block_by_number(9).is_none());
}

#[test]
fn committed_receipt_found() {
    let store = store_with_block_one();
    let rc = store.get_transaction_receipt(&h(42)).unwrap();
    assert_eq!(rc.used_cycles, 5);
    assert!(store.get_transaction_receipt(&h(77)).is_none());
}
