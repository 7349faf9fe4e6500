//! One account-state snapshot: accounts, balances, scripts and data blobs.
//!
//! A snapshot is an append-only overlay: writes push new entries and a read
//! takes the latest entry for its key, so every historical snapshot stays
//! intact. Values absent from the state read as zero, as in the underlying
//! commitment tree.

use vstd::prelude::*;
use crate::hash::{H256, SHORT_ADDRESS_LEN};
use crate::script::Script;
use crate::run_result::{RunResult, StorageSlot, LogItem, writes_for, lemma_writes_for_snoc};

verus! {

/// One account: its script hash, nonce, and storage overlay.
#[derive(Debug)]
pub struct Account {
    pub script_hash: H256,
    pub nonce: u32,
    pub storage: Vec<(H256, H256)>,
}

/// A token balance, keyed by the holder's short address and the token id.
#[derive(Debug)]
pub struct BalanceEntry {
    pub short_address: Vec<u8>,
    pub sudt_id: u32,
    pub amount: u128,
}

/// A full state snapshot.
#[derive(Debug)]
pub struct State {
    pub accounts: Vec<Account>,
    pub balances: Vec<BalanceEntry>,
    pub scripts: Vec<(H256, Script)>,
    pub data: Vec<(H256, Vec<u8>)>,
}

/// The latest value recorded for a key, if any.
pub open spec fn kv_last<V>(entries: Seq<(H256, V)>, key: Seq<u8>) -> Option<V>
    decreases entries.len(),
{
    if entries.len() == 0 {
        None
    } else if entries.last().0@ == key {
        Some(entries.last().1)
    } else {
        kv_last(entries.drop_last(), key)
    }
}

/// The nonce of an account; unknown accounts read zero.
pub open spec fn nonce_of(s: State, id: u32) -> u32 {
    if id < s.accounts@.len() {
        s.accounts@[id as int].nonce
    } else {
        0
    }
}

/// The script hash of an account; unknown accounts read zero.
pub open spec fn script_hash_of(s: State, id: u32) -> Seq<u8> {
    if id < s.accounts@.len() {
        s.accounts@[id as int].script_hash@
    } else {
        H256::zero_spec()
    }
}

/// A storage slot of an account; absent slots read zero.
pub open spec fn storage_value_of(s: State, id: u32, key: Seq<u8>) -> Seq<u8> {
    if id < s.accounts@.len() {
        match kv_last(s.accounts@[id as int].storage@, key) {
            Some(v) => v@,
            None => H256::zero_spec(),
        }
    } else {
        H256::zero_spec()
    }
}

/// The latest balance recorded for a short address and token; absent reads 0.
pub open spec fn balance_of(entries: Seq<BalanceEntry>, short_address: Seq<u8>, sudt_id: u32) -> u128
    decreases entries.len(),
{
    if entries.len() == 0 {
        0
    } else if entries.last().short_address@ == short_address && entries.last().sudt_id == sudt_id {
        entries.last().amount
    } else {
        balance_of(entries.drop_last(), short_address, sudt_id)
    }
}

/// The lowest account id carrying a script hash.
pub open spec fn account_id_of(accounts: Seq<Account>, script_hash: Seq<u8>) -> Option<int>
    decreases accounts.len(),
{
    if accounts.len() == 0 {
        None
    } else if accounts[0].script_hash@ == script_hash {
        Some(0int)
    } else {
        match account_id_of(accounts.drop_first(), script_hash) {
            Some(i) => Some(i + 1),
            None => None,
        }
    }
}

/// The lowest account id whose script hash starts with a short address.
pub open spec fn account_id_by_short_address(accounts: Seq<Account>, short_address: Seq<u8>) -> Option<int>
    decreases accounts.len(),
{
    if accounts.len() == 0 {
        None
    } else if accounts[0].script_hash@.subrange(0, SHORT_ADDRESS_LEN as int) == short_address {
        Some(0int)
    } else {
        match account_id_by_short_address(accounts.drop_first(), short_address) {
            Some(i) => Some(i + 1),
            None => None,
        }
    }
}

/// The number of accounts after a run extended the account table.
pub open spec fn extended_len(old_len: nat, account_count: Option<u32>) -> nat {
    match account_count {
        Some(n) => if n > old_len {
            n as nat
        } else {
            old_len
        },
        None => old_len,
    }
}

/// Finds the index of the latest entry for a key in an overlay.
fn kv_find_last<V>(entries: &Vec<(H256, V)>, key: &H256) -> (r: Option<usize>)
    ensures
        match r {
            Some(i) => i < entries@.len() && kv_last(entries@, key@) == Some(entries@[i as int].1)
                && entries@[i as int].0@ == key@,
            None => kv_last(entries@, key@) is None,
        },
{
    let mut i: usize = entries.len();
    proof {
        assert(entries@.take(i as int) =~= entries@);
    }
    while i > 0
        invariant
            i <= entries@.len(),
            kv_last(entries@, key@) == kv_last(entries@.take(i as int), key@),
        decreases i,
    {
        i -= 1;
        proof {
            assert(entries@.take(i + 1).drop_last() =~= entries@.take(i as int));
            assert(entries@.take(i + 1).last() == entries@[i as int]);
        }
        if entries[i].0.eq(key) {
            return Some(i);
        }
    }
    None
}

impl State {
    /// A state with no accounts, balances, scripts or data.
    pub fn new() -> (r: State)
        ensures
            r.accounts@.len() == 0,
            r.balances@.len() == 0,
            r.scripts@.len() == 0,
            r.data@.len() == 0,
    {
        State { accounts: Vec::new(), balances: Vec::new(), scripts: Vec::new(), data: Vec::new() }
    }

    /// The nonce of an account in this snapshot.
    pub fn get_nonce(&self, account_id: u32) -> (r: u32)
        ensures
            r == nonce_of(*self, account_id),
    {
        if (account_id as usize) < self.accounts.len() {
            self.accounts[account_id as usize].nonce
        } else {
            0
        }
    }

    /// The script hash of an account in this snapshot.
    pub fn get_script_hash(&self, account_id: u32) -> (r: H256)
        ensures
            r@ == script_hash_of(*self, account_id),
    {
        if (account_id as usize) < self.accounts.len() {
            self.accounts[account_id as usize].script_hash
        } else {
            H256::zero()
        }
    }

    /// A raw storage slot of an account in this snapshot.
    pub fn get_value(&self, account_id: u32, key: &H256) -> (r: H256)
        ensures
            r@ == storage_value_of(*self, account_id, key@),
    {
        if (account_id as usize) < self.accounts.len() {
            match kv_find_last(&self.accounts[account_id as usize].storage, key) {
                Some(i) => self.accounts[account_id as usize].storage[i].1,
                None => H256::zero(),
            }
        } else {
            H256::zero()
        }
    }

    /// The token balance held under a short address.
    pub fn get_sudt_balance(&self, sudt_id: u32, short_address: &Vec<u8>) -> (r: u128)
        ensures
            r == balance_of(self.balances@, short_address@, sudt_id),
    {
        let mut i: usize = self.balances.len();
        proof {
            assert(self.balances@.take(i as int) =~= self.balances@);
        }
        while i > 0
            invariant
                i <= self.balances@.len(),
                balance_of(self.balances@, short_address@, sudt_id) == balance_of(
                    self.balances@.take(i as int),
                    short_address@,
                    sudt_id,
                ),
            decreases i,
        {
            i -= 1;
            proof {
                assert(self.balances@.take(i + 1).drop_last() =~= self.balances@.take(i as int));
                assert(self.balances@.take(i + 1).last() == self.balances@[i as int]);
            }
            if self.balances[i].sudt_id == sudt_id && crate::hash::bytes_eq(
                &self.balances[i].short_address,
                short_address,
            ) {
                return self.balances[i].amount;
            }
        }
        0
    }

    /// The script registered under a script hash.
    pub fn get_script(&self, script_hash: &H256) -> (r: Option<&Script>)
        ensures
            match r {
                Some(s) => kv_last(self.scripts@, script_hash@) == Some(*s),
                None => kv_last(self.scripts@, script_hash@) is None,
            },
    {
        match kv_find_last(&self.scripts, script_hash) {
            Some(i) => Some(&self.scripts[i].1),
            None => None,
        }
    }

    /// The data blob registered under a data hash.
    pub fn get_data(&self, data_hash: &H256) -> (r: Option<&Vec<u8>>)
        ensures
            match r {
                Some(d) => kv_last(self.data@, data_hash@) == Some(*d),
                None => kv_last(self.data@, data_hash@) is None,
            },
    {
        match kv_find_last(&self.data, data_hash) {
            Some(i) => Some(&self.data[i].1),
            None => None,
        }
    }

    /// The account id registered for a script hash, if any.
    pub fn get_account_id_by_script_hash(&self, script_hash: &H256) -> (r: Option<u32>)
        requires
            self.accounts@.len() <= u32::MAX,
        ensures
            match r {
                Some(id) => account_id_of(self.accounts@, script_hash@) == Some(id as int),
                None => account_id_of(self.accounts@, script_hash@) is None,
            },
    {
        let mut i: usize = 0;
        proof {
            assert(self.accounts@.skip(0) =~= self.accounts@);
        }
        while i < self.accounts.len()
            invariant
                i <= self.accounts@.len() <= u32::MAX,
                match account_id_of(self.accounts@.skip(i as int), script_hash@) {
                    Some(k) => account_id_of(self.accounts@, script_hash@) == Some(k + i),
                    None => account_id_of(self.accounts@, script_hash@) is None,
                },
            decreases self.accounts@.len() - i,
        {
            proof {
                assert(self.accounts@.skip(i as int)[0] == self.accounts@[i as int]);
                assert(self.accounts@.skip(i as int).drop_first() =~= self.accounts@.skip(i + 1));
            }
            if self.accounts[i].script_hash.eq(script_hash) {
                return Some(i as u32);
            }
            i += 1;
        }
        proof {
            assert(self.accounts@.skip(i as int) =~= Seq::<Account>::empty());
        }
        None
    }

    /// The script hash whose short address (first 20 bytes) matches, if any.
    pub fn get_script_hash_by_short_address(&self, short_address: &Vec<u8>) -> (r: Option<H256>)
        ensures
            match r {
                Some(h) => {
                    &&& account_id_by_short_address(self.accounts@, short_address@) is Some
                    &&& h@ == self.accounts@[account_id_by_short_address(
                        self.accounts@,
                        short_address@,
                    ).unwrap()].script_hash@
                },
                None => account_id_by_short_address(self.accounts@, short_address@) is None,
            },
    {
        let mut i: usize = 0;
        proof {
            assert(self.accounts@.skip(0) =~= self.accounts@);
        }
        while i < self.accounts.len()
            invariant
                i <= self.accounts@.len(),
                match account_id_by_short_address(self.accounts@.skip(i as int), short_address@) {
                    Some(k) => account_id_by_short_address(self.accounts@, short_address@)
                        == Some(k + i),
                    None => account_id_by_short_address(self.accounts@, short_address@) is None,
                },
            decreases self.accounts@.len() - i,
        {
            proof {
                assert(self.accounts@.skip(i as int)[0] == self.accounts@[i as int]);
                assert(self.accounts@.skip(i as int).drop_first() =~= self.accounts@.skip(i + 1));
            }
            let sa = self.accounts[i].script_hash.short_address();
            if crate::hash::bytes_eq(&sa, short_address) {
                return Some(self.accounts[i].script_hash);
            }
            i += 1;
        }
        proof {
            assert(self.accounts@.skip(i as int) =~= Seq::<Account>::empty());
        }
        None
    }

    /// Folds the effects of one executed transaction into this snapshot: the
    /// account table grows to the run's account count, each storage write is
    /// appended to its account's overlay in order (writes past the account
    /// table are dropped), and new scripts and data are appended. Returns the
    /// run's logs for the caller's receipt.
    pub fn apply_run_result(&mut self, run_result: RunResult) -> (logs: Vec<LogItem>)
        ensures
            final(self).accounts@.len() == extended_len(
                old(self).accounts@.len() as nat,
                run_result.account_count,
            ),
            forall|i: int|
                #![trigger final(self).accounts@[i]]
                0 <= i < old(self).accounts@.len() ==> {
                    &&& final(self).accounts@[i].nonce == old(self).accounts@[i].nonce
                    &&& final(self).accounts@[i].script_hash@ == old(self).accounts@[i].script_hash@
                    &&& final(self).accounts@[i].storage@ == old(self).accounts@[i].storage@
                        + writes_for(run_result.write_values@, i)
                },
            forall|i: int|
                #![trigger final(self).accounts@[i]]
                old(self).accounts@.len() <= i < final(self).accounts@.len() ==> {
                    &&& final(self).accounts@[i].nonce == 0
                    &&& final(self).accounts@[i].script_hash@ == H256::zero_spec()
                    &&& final(self).accounts@[i].storage@ == writes_for(run_result.write_values@, i)
                },
            final(self).scripts@ == old(self).scripts@ + run_result.new_scripts@,
            final(self).data@ == old(self).data@ + run_result.write_data@,
            final(self).balances@ == old(self).balances@,
            logs@ == run_result.logs@,
    {
        let ghost old_len = self.accounts@.len() as int;
        let RunResult {
            write_values,
            account_count,
            new_scripts,
            write_data,
            logs,
            ..
        } = run_result;
        if let Some(n) = account_count {
            while self.accounts.len() < n as usize
                invariant
                    old_len == old(self).accounts@.len(),
                    old_len <= self.accounts@.len() <= extended_len(old_len as nat, Some(n)),
                    forall|i: int|
                        #![trigger self.accounts@[i]]
                        0 <= i < old_len ==> self.accounts@[i] == old(self).accounts@[i],
                    forall|i: int|
                        #![trigger self.accounts@[i]]
                        old_len <= i < self.accounts@.len() ==> {
                            &&& self.accounts@[i].nonce == 0
                            &&& self.accounts@[i].script_hash@ == H256::zero_spec()
                            &&& self.accounts@[i].storage@.len() == 0
                        },
                    self.balances@ == old(self).balances@,
                    self.scripts@ == old(self).scripts@,
                    self.data@ == old(self).data@,
                decreases n as int - self.accounts@.len(),
            {
                let empty_storage: Vec<(H256, H256)> = Vec::new();
                let zero_hash = H256::zero();
                let ghost before = self.accounts@;
                let acc = Account { script_hash: zero_hash, nonce: 0, storage: empty_storage };
                let ghost accg = acc;
                self.accounts.push(acc);
                proof {
                    assert(self.accounts@ == before.push(accg));
                    assert(self.accounts@.last().nonce == 0);
                    assert(self.accounts@.last().script_hash@ == H256::zero_spec());
                    assert(self.accounts@.last().storage@.len() == 0);
                    assert forall|i: int| old_len <= i < self.accounts@.len() implies {
                        &&& (#[trigger] self.accounts@[i]).nonce == 0
                        &&& self.accounts@[i].script_hash@ == H256::zero_spec()
                        &&& self.accounts@[i].storage@.len() == 0
                    } by {
                        if i < before.len() {
                            assert(before.push(accg)[i] == before[i]);
                            assert(self.accounts@[i] == before[i]);
                        } else {
                            assert(self.accounts@[i] == self.accounts@.last());
                        }
                    }
                }
            }
        }
        let ghost base = self.accounts@;
        let ghost new_len = self.accounts@.len() as int;
        proof {
            assert(new_len == extended_len(old_len as nat, account_count));
            assert forall|i: int| old_len <= i < new_len implies (#[trigger] base[i]).storage@
                =~= Seq::<(H256, H256)>::empty() by {
            }
        }
        let mut j: usize = 0;
        proof {
            assert(write_values@.take(0) =~= Seq::<StorageSlot>::empty());
            assert forall|i: int| 0 <= i < new_len implies #[trigger] base[i].storage@
                == base[i].storage@ + writes_for(write_values@.take(0), i) by {
                assert(base[i].storage@ + Seq::<(H256, H256)>::empty() =~= base[i].storage@);
            }
        }
        while j < write_values.len()
            invariant
                j <= write_values@.len(),
                self.accounts@.len() == new_len,
                forall|i: int|
                    #![trigger self.accounts@[i]]
                    0 <= i < new_len ==> {
                        &&& self.accounts@[i].nonce == base[i].nonce
                        &&& self.accounts@[i].script_hash@ == base[i].script_hash@
                        &&& self.accounts@[i].storage@ == base[i].storage@ + writes_for(
                            write_values@.take(j as int),
                            i,
                        )
                    },
                self.balances@ == old(self).balances@,
                self.scripts@ == old(self).scripts@,
                self.data@ == old(self).data@,
            decreases write_values@.len() - j,
        {
            let w = write_values[j];
            proof {
                assert forall|i: int| 0 <= i < new_len implies writes_for(
                    write_values@.take(j + 1),
                    i,
                ) == if write_values@[j as int].account_id == i {
                    writes_for(write_values@.take(j as int), i).push(
                        (write_values@[j as int].key, write_values@[j as int].value),
                    )
                } else {
                    writes_for(write_values@.take(j as int), i)
                } by {
                    lemma_writes_for_snoc(write_values@, j as int, i);
                }
            }
            if (w.account_id as usize) < self.accounts.len() {
                let ghost before = self.accounts@;
                let idx = w.account_id as usize;
                let mut acc = self.accounts.remove(idx);
                acc.storage.push((w.key, w.value));
                self.accounts.insert(idx, acc);
                proof {
                    assert(self.accounts@ =~= before.update(
                        idx as int,
                        self.accounts@[idx as int],
                    ));
                }
            }
            j += 1;
        }
        proof {
            assert(write_values@.take(write_values@.len() as int) =~= write_values@);
        }
        let ghost accounts_after = self.accounts@;
        let ghost scripts_before = self.scripts@;
        let ghost ns0 = new_scripts@;
        let mut new_scripts = new_scripts;
        let ghost mut consumed: int = 0;
        while new_scripts.len() > 0
            invariant
                0 <= consumed <= ns0.len(),
                new_scripts@ == ns0.skip(consumed),
                self.scripts@ == scripts_before + ns0.take(consumed),
                self.accounts@ == accounts_after,
                self.balances@ == old(self).balances@,
                self.data@ == old(self).data@,
            decreases new_scripts@.len(),
        {
            let entry = new_scripts.remove(0);
            self.scripts.push(entry);
            proof {
                assert(ns0.skip(consumed)[0] == ns0[consumed]);
                assert(ns0.skip(consumed).remove(0) =~= ns0.skip(consumed + 1));
                assert(scripts_before + ns0.take(consumed + 1) =~= (scripts_before + ns0.take(
                    consumed,
                )).push(ns0[consumed]));
                consumed = consumed + 1;
            }
        }
        proof {
            assert(ns0.take(consumed) =~= ns0);
        }
        let ghost data_before = self.data@;
        let ghost wd0 = write_data@;
        let mut write_data = write_data;
        let ghost mut dconsumed: int = 0;
        while write_data.len() > 0
            invariant
                0 <= dconsumed <= wd0.len(),
                write_data@ == wd0.skip(dconsumed),
                self.data@ == data_before + wd0.take(dconsumed),
                self.accounts@ == accounts_after,
                self.balances@ == old(self).balances@,
                self.scripts@ == scripts_before + ns0,
            decreases write_data@.len(),
        {
            let entry = write_data.remove(0);
            self.data.push(entry);
            proof {
                assert(wd0.skip(dconsumed)[0] == wd0[dconsumed]);
                assert(wd0.skip(dconsumed).remove(0) =~= wd0.skip(dconsumed + 1));
                assert(data_before + wd0.take(dconsumed + 1) =~= (data_before + wd0.take(
                    dconsumed,
                )).push(wd0[dconsumed]));
                dconsumed = dconsumed + 1;
            }
        }
        proof {
            assert(wd0.take(dconsumed) =~= wd0);
        }
        logs
    }

    /// Steps an account's nonce by one; a nonce at the numeric ceiling, or an
    /// unknown account, is left as it is.
    pub fn increment_nonce(&mut self, account_id: u32)
        ensures
            final(self).accounts@.len() == old(self).accounts@.len(),
            forall|i: int|
                #![trigger final(self).accounts@[i]]
                0 <= i < old(self).accounts@.len() ==> {
                    &&& final(self).accounts@[i].script_hash == old(self).accounts@[i].script_hash
                    &&& final(self).accounts@[i].storage == old(self).accounts@[i].storage
                    &&& final(self).accounts@[i].nonce == if i == account_id && old(
                        self,
                    ).accounts@[i].nonce < u32::MAX {
                        (old(self).accounts@[i].nonce + 1) as u32
                    } else {
                        old(self).accounts@[i].nonce
                    }
                },
            final(self).balances@ == old(self).balances@,
            final(self).scripts@ == old(self).scripts@,
            final(self).data@ == old(self).data@,
    {
        if (account_id as usize) < self.accounts.len() {
            let idx = account_id as usize;
            let ghost before = self.accounts@;
            let mut acc = self.accounts.remove(idx);
            if acc.nonce < u32::MAX {
                acc.nonce = acc.nonce + 1;
            }
            self.accounts.insert(idx, acc);
            proof {
                assert(self.accounts@ =~= before.update(idx as int, self.accounts@[idx as int]));
            }
        }
    }
}

} // verus!

