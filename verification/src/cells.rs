//! Greedy payment-cell collection.
//!
//! Candidate on-chain cells arrive in pages from a cell index, newest first,
//! behind an opaque cursor. A cell is eligible as a payment cell when it
//! carries no data, no type script, and its out-point is not already claimed
//! by an in-flight selection. Eligible cells are accumulated greedily until
//! their capacity reaches the required target; a page with an empty
//! continuation cursor before that point is a terminal failure.

use vstd::prelude::*;
use ckb_types::prelude::Builder;
use ckb_types::prelude::Entity;
use crate::hash::H256;
use crate::script::Script;

verus! {

/// Reference to a live cell on chain: creating transaction and output index.
#[derive(Clone, Debug, PartialEq, Eq)]
pub struct OutPoint {
    pub tx_hash: H256,
    pub index: u32,
}

/// The consumable part of a cell: its capacity and its scripts.
#[derive(Clone, Debug, PartialEq, Eq)]
pub struct CellOutput {
    pub capacity: u64,
    pub lock: Script,
    pub type_script: Option<Script>,
}

/// A live cell: where it sits, what it holds, and its data payload.
#[derive(Clone, Debug, PartialEq, Eq)]
pub struct CellInfo {
    pub out_point: OutPoint,
    pub output: CellOutput,
    pub data: Vec<u8>,
}

/// One page of the paginated cell index. An empty `last_cursor` marks the end
/// of the stream.
#[derive(Clone, Debug, PartialEq, Eq)]
pub struct CellPage {
    pub cells: Vec<CellInfo>,
    pub last_cursor: Vec<u8>,
}

/// Failure of a collection run.
#[derive(Clone, Copy, Debug, PartialEq, Eq, Structural)]
pub enum CellCollectError {
    /// The cell index ran out of candidates before the target was reached.
    Exhausted,
}

pub open spec fn same_outpoint(a: OutPoint, b: OutPoint) -> bool {
    a.tx_hash@ == b.tx_hash@ && a.index == b.index
}

pub open spec fn contains_outpoint(taken: Seq<OutPoint>, o: OutPoint) -> bool {
    exists|k: int| 0 <= k < taken.len() && same_outpoint(#[trigger] taken[k], o)
}

/// A payment cell must be a plain capacity cell (no data, no type script)
/// whose out-point is not already claimed.
pub open spec fn cell_eligible(c: CellInfo, taken: Seq<OutPoint>) -> bool {
    &&& c.data@.len() == 0
    &&& c.output.type_script is None
    &&& !contains_outpoint(taken, c.out_point)
}

/// The eligible cells of a sequence, in order.
pub open spec fn eligible_cells(cells: Seq<CellInfo>, taken: Seq<OutPoint>) -> Seq<CellInfo>
    decreases cells.len(),
{
    if cells.len() == 0 {
        Seq::empty()
    } else {
        let rest = eligible_cells(cells.drop_last(), taken);
        if cell_eligible(cells.last(), taken) {
            rest.push(cells.last())
        } else {
            rest
        }
    }
}

/// Total capacity of a sequence of cells.
pub open spec fn cap_sum(cells: Seq<CellInfo>) -> int
    decreases cells.len(),
{
    if cells.len() == 0 {
        0
    } else {
        cells[0].output.capacity + cap_sum(cells.drop_first())
    }
}

/// The greedy selection: cells taken from the front until their capacity
/// reaches the target.
pub open spec fn greedy_take(cells: Seq<CellInfo>, required: int) -> Seq<CellInfo>
    decreases cells.len(),
{
    if required <= 0 || cells.len() == 0 {
        Seq::empty()
    } else {
        seq![cells[0]] + greedy_take(cells.drop_first(), required - cells[0].output.capacity)
    }
}

/// The cells the paginated stream can supply: the eligible cells of every
/// page before the first page whose continuation cursor is empty.
pub open spec fn available_cells(pages: Seq<CellPage>, taken: Seq<OutPoint>) -> Seq<CellInfo>
    decreases pages.len(),
{
    if pages.len() == 0 {
        Seq::empty()
    } else if pages[0].last_cursor@.len() == 0 {
        Seq::empty()
    } else {
        eligible_cells(pages[0].cells@, taken) + available_cells(pages.drop_first(), taken)
    }
}

proof fn lemma_cap_sum_nonneg(cells: Seq<CellInfo>)
    ensures
        cap_sum(cells) >= 0,
    decreases cells.len(),
{
    if cells.len() > 0 {
        lemma_cap_sum_nonneg(cells.drop_first());
    }
}

proof fn lemma_cap_sum_concat(a: Seq<CellInfo>, b: Seq<CellInfo>)
    ensures
        cap_sum(a + b) == cap_sum(a) + cap_sum(b),
    decreases a.len(),
{
    if a.len() == 0 {
        assert(a + b =~= b);
    } else {
        assert((a + b).drop_first() =~= a.drop_first() + b);
        lemma_cap_sum_concat(a.drop_first(), b);
    }
}

proof fn lemma_cap_sum_push(s: Seq<CellInfo>, x: CellInfo)
    ensures
        cap_sum(s.push(x)) == cap_sum(s) + x.output.capacity,
{
    assert(s.push(x) =~= s + seq![x]);
    lemma_cap_sum_concat(s, seq![x]);
    assert(cap_sum(seq![x]) == x.output.capacity + cap_sum(seq![x].drop_first()));
    assert(seq![x].drop_first() =~= Seq::<CellInfo>::empty());
}

/// A block of cells that reaches the target exactly at its end — every proper
/// prefix falls short — is precisely what the greedy selection takes, whatever
/// follows it.
proof fn lemma_greedy_exact(p: Seq<CellInfo>, r: Seq<CellInfo>, required: int)
    requires
        forall|k: int| 0 <= k < p.len() ==> cap_sum(#[trigger] p.take(k)) < required,
        cap_sum(p) >= required,
    ensures
        greedy_take(p + r, required) == p,
    decreases p.len(),
{
    if p.len() == 0 {
        assert(greedy_take(p + r, required) =~= p);
    } else {
        assert(cap_sum(p.take(0)) < required);
        assert(p.take(0) =~= Seq::<CellInfo>::empty());
        assert(required > 0);
        let p1 = p.drop_first();
        let req1 = required - p[0].output.capacity;
        assert(forall|k: int| 0 <= k < p1.len() ==> cap_sum(#[trigger] p1.take(k)) < req1) by {
            assert forall|k: int| 0 <= k < p1.len() implies cap_sum(#[trigger] p1.take(k)) < req1 by {
                assert(p.take(k + 1) =~= seq![p[0]] + p1.take(k));
                lemma_cap_sum_concat(seq![p[0]], p1.take(k));
                assert(cap_sum(seq![p[0]]) == p[0].output.capacity) by {
                    assert(seq![p[0]].drop_first() =~= Seq::<CellInfo>::empty());
                }
            }
        }
        assert(cap_sum(p1) >= req1) by {
            assert(p =~= seq![p[0]] + p1);
            lemma_cap_sum_concat(seq![p[0]], p1);
            assert(cap_sum(seq![p[0]]) == p[0].output.capacity) by {
                assert(seq![p[0]].drop_first() =~= Seq::<CellInfo>::empty());
            }
        }
        lemma_greedy_exact(p1, r, req1);
        assert((p + r).drop_first() =~= p1 + r);
        assert(greedy_take(p + r, required) =~= seq![p[0]] + p1);
        assert(seq![p[0]] + p1 =~= p);
    }
}

/// Appending one more cell to a processed prefix extends its eligible cells
/// by that cell exactly when it is eligible.
proof fn lemma_eligible_take_snoc(cells: Seq<CellInfo>, taken: Seq<OutPoint>, j: int)
    requires
        0 <= j < cells.len(),
    ensures
        eligible_cells(cells.take(j + 1), taken) == if cell_eligible(cells[j], taken) {
            eligible_cells(cells.take(j), taken).push(cells[j])
        } else {
            eligible_cells(cells.take(j), taken)
        },
{
    assert(cells.take(j + 1).drop_last() =~= cells.take(j));
    assert(cells.take(j + 1).last() == cells[j]);
}

/// The stream splits at any point before its end marker.
proof fn lemma_available_split(pages: Seq<CellPage>, taken: Seq<OutPoint>, i: int)
    requires
        0 <= i <= pages.len(),
        forall|j: int| 0 <= j < i ==> (#[trigger] pages[j]).last_cursor@.len() != 0,
    ensures
        available_cells(pages, taken) == available_cells(pages.take(i), taken) + available_cells(
            pages.skip(i),
            taken,
        ),
    decreases i,
{
    if i == 0 {
        assert(pages.take(0) =~= Seq::<CellPage>::empty());
        assert(pages.skip(0) =~= pages);
        assert(available_cells(pages.take(0), taken) + available_cells(pages, taken)
            =~= available_cells(pages, taken));
    } else {
        lemma_available_split(pages, taken, i - 1);
        let mid = pages.skip(i - 1);
        assert(mid[0] == pages[i - 1]);
        assert(mid.drop_first() =~= pages.skip(i));
        assert(available_cells(mid, taken) == eligible_cells(pages[i - 1].cells@, taken)
            + available_cells(pages.skip(i), taken));
        let single = pages.take(i).skip(i - 1);
        assert(single[0] == pages[i - 1]);
        assert(single.drop_first() =~= Seq::<CellPage>::empty());
        assert(available_cells(single, taken) == eligible_cells(pages[i - 1].cells@, taken)
            + available_cells(Seq::<CellPage>::empty(), taken));
        assert(eligible_cells(pages[i - 1].cells@, taken) + Seq::<CellInfo>::empty()
            =~= eligible_cells(pages[i - 1].cells@, taken));
        assert(pages.take(i).take(i - 1) =~= pages.take(i - 1));
        lemma_available_split(pages.take(i), taken, i - 1);
        assert(available_cells(pages.take(i - 1), taken) + (eligible_cells(
            pages[i - 1].cells@,
            taken,
        ) + available_cells(pages.skip(i), taken)) =~= (available_cells(pages.take(i - 1), taken)
            + eligible_cells(pages[i - 1].cells@, taken)) + available_cells(pages.skip(i), taken));
    }
}

/// The eligible cells of a sequence split around any position.
proof fn lemma_eligible_split(cells: Seq<CellInfo>, taken: Seq<OutPoint>, m: int)
    requires
        0 <= m <= cells.len(),
    ensures
        eligible_cells(cells, taken) == eligible_cells(cells.take(m), taken) + eligible_cells(
            cells.skip(m),
            taken,
        ),
    decreases cells.len(),
{
    if m == cells.len() {
        assert(cells.take(m) =~= cells);
        assert(cells.skip(m) =~= Seq::<CellInfo>::empty());
        assert(eligible_cells(cells, taken) + Seq::<CellInfo>::empty() =~= eligible_cells(
            cells,
            taken,
        ));
    } else {
        let head = cells.drop_last();
        assert(head.take(m) =~= cells.take(m));
        assert(cells.skip(m).drop_last() =~= head.skip(m));
        assert(cells.skip(m).last() == cells.last());
        assert(cells.skip(m).len() > 0);
        lemma_eligible_split(head, taken, m);
        if cell_eligible(cells.last(), taken) {
            assert(eligible_cells(cells.take(m), taken) + eligible_cells(head.skip(m), taken).push(
                cells.last(),
            ) =~= (eligible_cells(cells.take(m), taken) + eligible_cells(head.skip(m), taken)).push(
                cells.last(),
            ));
        }
    }
}

/// Saturation of a mathematical sum at the largest 64-bit value.
pub open spec fn sat_u64(x: int) -> int {
    if x <= u64::MAX as int {
        x
    } else {
        u64::MAX as int
    }
}

/// Collects payment cells from the paginated candidate stream.
///
/// Walks the pages in order, keeps every eligible cell, and stops as soon as
/// the kept capacity reaches `required_capacity`. Cells of a page are never
/// read past the first page whose continuation cursor is empty; reaching that
/// page, or the end of the stream, before the target is a terminal
/// `Exhausted` failure. On success the result is exactly the greedy selection
/// out of the stream's eligible cells.
pub fn query_payment_cells(
    pages: Vec<CellPage>,
    required_capacity: u64,
    taken_outpoints: &Vec<OutPoint>,
) -> (r: Result<Vec<CellInfo>, CellCollectError>)
    ensures
        match r {
            Ok(cells) => cap_sum(available_cells(pages@, taken_outpoints@)) >= required_capacity
                && cells@ == greedy_take(
                available_cells(pages@, taken_outpoints@),
                required_capacity as int,
            ),
            Err(e) => e == CellCollectError::Exhausted && cap_sum(
                available_cells(pages@, taken_outpoints@),
            ) < required_capacity,
        },
{
    let ghost pages0 = pages@;
    let ghost taken = taken_outpoints@;
    let ghost avail = available_cells(pages0, taken);
    let mut rest = pages;
    let mut collected: Vec<CellInfo> = Vec::new();
    let mut collected_capacity: u64 = 0;
    let ghost mut i: int = 0;
    proof {
        lemma_cap_sum_nonneg(avail);
        assert(pages0.take(0) =~= Seq::<CellPage>::empty());
        assert(pages0.skip(0) =~= pages0);
        if required_capacity == 0 {
            assert(greedy_take(avail, 0int) =~= Seq::<CellInfo>::empty());
        }
    }
    while collected_capacity < required_capacity
        invariant
            0 <= i <= pages0.len(),
            rest@ == pages0.skip(i),
            pages0 == pages@,
            avail == available_cells(pages0, taken),
            taken == taken_outpoints@,
            forall|j: int| 0 <= j < i ==> (#[trigger] pages0[j]).last_cursor@.len() != 0,
            collected_capacity as int == sat_u64(cap_sum(collected@)),
            forall|k: int|
                0 <= k < collected@.len() ==> cap_sum(#[trigger] collected@.take(k))
                    < required_capacity,
            collected_capacity < required_capacity ==> collected@ == available_cells(
                pages0.take(i),
                taken,
            ),
            collected_capacity >= required_capacity ==> (cap_sum(avail) >= required_capacity
                && collected@ == greedy_take(avail, required_capacity as int)),
        decreases rest@.len(),
    {
        proof {
            lemma_cap_sum_nonneg(collected@);
        }
        if rest.len() == 0 {
            proof {
                assert(i == pages0.len());
                assert(pages0.take(i) =~= pages0);
            }
            return Err(CellCollectError::Exhausted);
        }
        let page = rest.remove(0);
        proof {
            assert(page == pages0.skip(i)[0]);
            assert(page == pages0[i]);
            assert(pages0.skip(i).remove(0) =~= pages0.skip(i + 1));
        }
        if page.last_cursor.len() == 0 {
            proof {
                lemma_available_split(pages0, taken, i);
                assert(available_cells(pages0.skip(i), taken) =~= Seq::<CellInfo>::empty());
                assert(avail =~= collected@);
            }
            return Err(CellCollectError::Exhausted);
        }
        let ghost pcells = page.cells@;
        let mut cells = page.cells;
        let ghost mut j: int = 0;
        proof {
            assert(pcells.take(0) =~= Seq::<CellInfo>::empty());
            assert(pcells.skip(0) =~= pcells);
            assert(collected@ + Seq::<CellInfo>::empty() =~= collected@);
        }
        while cells.len() > 0 && collected_capacity < required_capacity
            invariant
                0 <= j <= pcells.len(),
                cells@ == pcells.skip(j),
                0 <= i < pages0.len(),
                pages0[i].cells@ == pcells,
                pages0[i].last_cursor@.len() != 0,
                pages0 == pages@,
                avail == available_cells(pages0, taken),
                taken == taken_outpoints@,
                forall|j2: int| 0 <= j2 < i ==> (#[trigger] pages0[j2]).last_cursor@.len() != 0,
                collected_capacity as int == sat_u64(cap_sum(collected@)),
                forall|k: int|
                    0 <= k < collected@.len() ==> cap_sum(#[trigger] collected@.take(k))
                        < required_capacity,
                collected_capacity < required_capacity ==> collected@ == available_cells(
                    pages0.take(i),
                    taken,
                ) + eligible_cells(pcells.take(j), taken),
                collected_capacity >= required_capacity ==> (cap_sum(avail) >= required_capacity
                    && collected@ == greedy_take(avail, required_capacity as int)),
            decreases cells@.len(),
        {
            let c = cells.remove(0);
            proof {
                assert(c == pcells.skip(j)[0]);
                assert(c == pcells[j]);
                assert(pcells.skip(j).remove(0) =~= pcells.skip(j + 1));
                lemma_cap_sum_nonneg(collected@);
            }
            if is_cell_eligible(&c, taken_outpoints) {
                let ghost prev = collected@;
                let ghost prev_sum = cap_sum(prev);
                proof {
                    lemma_eligible_take_snoc(pcells, taken, j);
                    lemma_cap_sum_push(prev, c);
                }
                collected_capacity = collected_capacity.saturating_add(c.output.capacity);
                collected.push(c);
                proof {
                    assert(collected@ == prev.push(c));
                    assert(collected@ =~= available_cells(pages0.take(i), taken) + eligible_cells(
                        pcells.take(j + 1),
                        taken,
                    ));
                    assert forall|k: int|
                        0 <= k < collected@.len() implies cap_sum(#[trigger] collected@.take(k))
                        < required_capacity by {
                        if k < prev.len() {
                            assert(collected@.take(k) =~= prev.take(k));
                        } else {
                            assert(collected@.take(k) =~= prev);
                        }
                    }
                    if collected_capacity >= required_capacity {
                        lemma_available_split(pages0, taken, i);
                        assert(pages0.skip(i)[0] == pages0[i]);
                        assert(pages0.skip(i).drop_first() =~= pages0.skip(i + 1));
                        assert(available_cells(pages0.skip(i), taken) == eligible_cells(
                            pcells,
                            taken,
                        ) + available_cells(pages0.skip(i + 1), taken));
                        lemma_eligible_split(pcells, taken, j + 1);
                        let tail = eligible_cells(pcells.skip(j + 1), taken) + available_cells(
                            pages0.skip(i + 1),
                            taken,
                        );
                        assert(avail =~= collected@ + tail);
                        lemma_greedy_exact(collected@, tail, required_capacity as int);
                        lemma_cap_sum_concat(collected@, tail);
                        lemma_cap_sum_nonneg(tail);
                        lemma_cap_sum_nonneg(eligible_cells(pcells.skip(j + 1), taken));
                        lemma_cap_sum_nonneg(available_cells(pages0.skip(i + 1), taken));
                    }
                    j = j + 1;
                }
            } else {
                proof {
                    lemma_eligible_take_snoc(pcells, taken, j);
                    j = j + 1;
                }
            }
        }
        proof {
            if collected_capacity < required_capacity {
                assert(j == pcells.len());
                assert(pcells.take(j) =~= pcells);
                lemma_available_split(pages0.take(i + 1), taken, i);
                assert(pages0.take(i + 1).take(i) =~= pages0.take(i));
                let single = pages0.take(i + 1).skip(i);
                assert(single[0] == pages0[i]);
                assert(single.drop_first() =~= Seq::<CellPage>::empty());
                assert(available_cells(single, taken) == eligible_cells(pcells, taken)
                    + available_cells(Seq::<CellPage>::empty(), taken));
                assert(eligible_cells(pcells, taken) + Seq::<CellInfo>::empty() =~= eligible_cells(
                    pcells,
                    taken,
                ));
                assert(collected@ =~= available_cells(pages0.take(i + 1), taken));
            }
            i = i + 1;
        }
    }
    Ok(collected)
}

/// Whether a cell may fund a payment: plain capacity cell, not yet claimed.
pub fn is_cell_eligible(c: &CellInfo, taken_outpoints: &Vec<OutPoint>) -> (r: bool)
    ensures
        r == cell_eligible(*c, taken_outpoints@),
{
    if c.data.len() != 0 {
        return false;
    }
    if c.output.type_script.is_some() {
        return false;
    }
    let mut k: usize = 0;
    while k < taken_outpoints.len()
        invariant
            k <= taken_outpoints@.len(),
            forall|m: int| 0 <= m < k ==> !same_outpoint(#[trigger] taken_outpoints@[m], c.out_point),
        decreases taken_outpoints@.len() - k,
    {
        if taken_outpoints[k].index == c.out_point.index && taken_outpoints[k].tx_hash.eq(
            &c.out_point.tx_hash,
        ) {
            return false;
        }
        k += 1;
    }
    true
}

/// The capacity error of the occupied-capacity computation.
#[verifier::external_type_specification]
#[verifier::external_body]
pub struct ExCapacityError(ckb_types::core::CapacityError);

/// Relies on ckb_types::packed::CellOutput::occupied_capacity (with
/// ckb_types::core::Capacity::bytes): the capacity a cell occupies on chain
/// is one hundred million shannons per byte of the 8-byte capacity field, the
/// data, and each script counted as its 32-byte code hash, 1-byte hash type
/// and args; every step is checked, so the call errs exactly when the total
/// does not fit in 64 bits.
#[verifier::external_body]
fn occupied_capacity_call(
    lock: &Script,
    type_script: &Option<Script>,
    data_capacity: usize,
) -> (r: Result<u64, ckb_types::core::CapacityError>)
    ensures
        match r {
            Ok(v) => occupied_total(*lock, *type_script, data_capacity as nat) <= u64::MAX && v
                == occupied_total(*lock, *type_script, data_capacity as nat),
            Err(_) => occupied_total(*lock, *type_script, data_capacity as nat) > u64::MAX,
        },
{
    let lock_script = ckb_types::packed::Script::new_builder().args(lock.args.as_slice()).build();
    let type_opt = match type_script {
        Some(t) => ckb_types::packed::ScriptOpt::new_builder().set(Some(
            ckb_types::packed::Script::new_builder().args(t.args.as_slice()).build(),
        )).build(),
        None => ckb_types::packed::ScriptOpt::new_builder().set(None).build(),
    };
    let output = ckb_types::packed::CellOutput::new_builder().lock(lock_script).type_(
        type_opt,
    ).build();
    let data = ckb_types::core::Capacity::bytes(data_capacity)?;
    output.occupied_capacity(data).map(|c| c.as_u64())
}

/// The occupied capacity of a cell in shannons: one hundred million per byte
/// of the capacity field (8), the data, the lock script (33 plus args), and
/// the type script (33 plus args) when present.
pub open spec fn occupied_total(lock: Script, type_script: Option<Script>, data_capacity: nat) -> int {
    100_000_000 * (8 + data_capacity + 33 + lock.args@.len() + match type_script {
        Some(t) => 33 + t.args@.len() as int,
        None => 0int,
    })
}

impl CellOutput {
    /// The on-chain bytes this cell occupies, as a capacity in shannons;
    /// errs when the total overflows 64 bits.
    pub fn occupied_capacity(&self, data_capacity: usize) -> (r: Result<
        u64,
        ckb_types::core::CapacityError,
    >)
        ensures
            match r {
                Ok(v) => occupied_total(self.lock, self.type_script, data_capacity as nat)
                    <= u64::MAX && v == occupied_total(
                    self.lock,
                    self.type_script,
                    data_capacity as nat,
                ),
                Err(_) => occupied_total(self.lock, self.type_script, data_capacity as nat)
                    > u64::MAX,
            },
    {
        occupied_capacity_call(&self.lock, &self.type_script, data_capacity)
    }
}

} // verus!
