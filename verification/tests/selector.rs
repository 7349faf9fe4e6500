use ckb_types::prelude::{Builder, Entity};
use rollup_core::cells::{CellCollectError, CellInfo, CellOutput, CellPage, OutPoint, query_payment_cells};
use rollup_core::hash::H256;
use rollup_core::script::Script;

fn h(n: u8) -> H256 {
    let mut b = [0u8; 32];
    b[0] = n;
    H256 { b }
}

fn script(args: Vec<u8>) -> Script {
    Script { code_hash: h(0), hash_type: 1, args }
}

fn cell(tx: u8, capacity: u64, data: Vec<u8>, has_type: bool) -> CellInfo {
    CellInfo {
        out_point: OutPoint { tx_hash: h(tx), index: 0 },
        output: CellOutput {
            capacity,
            lock: script(vec![]),
            type_script: if has_type { Some(script(vec![7])) } else { None },
        },
        data,
    }
}

fn page(cells: Vec<CellInfo>, cursor: Vec<u8>) -> CellPage {
    CellPage { cells, last_cursor: cursor }
}

#[test]
fn filters_and_greedy_selection() {
    let cells = vec![
        cell(1, 100, vec![], false),
        cell(2, 50, vec![b'x'], false),
        cell(3, 80, vec![], true),
    ];
    let pages = vec![page(cells, vec![1])];
    let taken: Vec<OutPoint> = Vec::new();
    let r = query_payment_cells(pages, 90, &taken).unwrap();
    assert_eq!(r.len(), 1);
    assert_eq!(r[0].output.capacity, 100);
    assert_eq!(r[0].out_point.tx_hash.b[0], 1);
}

#[test]
fn exhausted_when_eligible_capacity_falls_short() {
    let cells = vec![
        cell(1, 100, vec![], false),
        cell(2, 80, vec![], false),
        cell(3, 50, vec![], false),
    ];
    let pages = vec![page(cells, vec![1])];
    let taken: Vec<OutPoint> = Vec::new();
    let r = query_payment_cells(pages, 500, &taken);
    assert_eq!(r, Err(CellCollectError::Exhausted));
}

#[test]
fn empty_cursor_page_contributes_nothing() {
    // The page carrying the cells ends the stream, so they are never read.
    let cells = vec![cell(1, 100, vec![], false)];
    let pages = vec![page(cells, vec![])];
    let taken: Vec<OutPoint> = Vec::new();
    let r = query_payment_cells(pages, 90, &taken);
    assert_eq!(r, Err(CellCollectError::Exhausted));
}

#[test]
fn taken_outpoints_are_skipped() {
    let cells = vec![cell(1, 100, vec![], false), cell(2, 90, vec![], false)];
    let pages = vec![page(cells, vec![1])];
    let taken = vec![OutPoint { tx_hash: h(1), index: 0 }];
    let r = query_payment_cells(pages, 90, &taken).unwrap();
    assert_eq!(r.len(), 1);
    assert_eq!(r[0].out_point.tx_hash.b[0], 2);
}

#[test]
fn spans_pages_and_stops_at_target() {
    let p1 = page(vec![cell(1, 60, vec![], false)], vec![1]);
    let p2 = page(vec![cell(2, 60, vec![], false), cell(3, 60, vec![], false)], vec![2]);
    let taken: Vec<OutPoint> = Vec::new();
    let r = query_payment_cells(vec![p1, p2], 100, &taken).unwrap();
    assert_eq!(r.len(), 2);
    assert_eq!(r[0].out_point.tx_hash.b[0], 1);
    assert_eq!(r[1].out_point.tx_hash.b[0], 2);
}

#[test]
fn zero_target_selects_nothing() {
    let pages: Vec<CellPage> = Vec::new();
    let taken: Vec<OutPoint> = Vec::new();
    let r = query_payment_cells(pages, 0, &taken).unwrap();
    assert_eq!(r.len(), 0);
}

#[test]
fn occupied_capacity_of_plain_cell() {
    // 8 bytes for the capacity field plus 33 for a lock script with empty
    // args, at one hundred million shannons per byte.
    let out = CellOutput { capacity: 100, lock: script(vec![]), type_script: None };
    assert_eq!(out.occupied_capacity(0).unwrap(), 4_100_000_000);
    // 20 bytes of lock args and 10 bytes of data on top: 71 bytes.
    let out2 = CellOutput { capacity: 100, lock: script(vec![0; 20]), type_script: None };
    assert_eq!(out2.occupied_capacity(10).unwrap(), 7_100_000_000);
}

#[test]
fn occupied_capacity_matches_upstream() {
    let args = vec![1u8, 2, 3];
    let out = CellOutput { capacity: 100, lock: script(args.clone()), type_script: None };
    let lock = ckb_types::packed::Script::new_builder()
        .args(args.as_slice())
        .build();
    let upstream = ckb_types::packed::CellOutput::new_builder().lock(lock).build();
    let want = upstream
        .occupied_capacity(ckb_types::core::Capacity::bytes(5).unwrap())
        .unwrap()
        .as_u64();
    assert_eq!(out.occupied_capacity(5).unwrap(), want);
}
