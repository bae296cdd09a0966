use json_rpc_client::batch::Batch;
use json_rpc_client::correlate::{correlate, ItemResult, ResponseView};
use json_rpc_client::response::{RawOutcome, RawResponse};
use json_rpc_client::session::Session;

fn one_entry(version: u64, timestamp: u64) -> Vec<RawResponse> {
    vec![RawResponse {
        id: 0,
        outcome: RawOutcome::Success { payload: "{}".to_string(), ledger_version: version, ledger_timestamp: timestamp },
    }]
}

fn stale_of(item: &ItemResult) -> bool {
    match item {
        ItemResult::Success(v) => v.stale,
        _ => panic!("expected a view"),
    }
}

#[test]
fn sequential_versions_flag_regression() {
    let mut b = Batch::new();
    b.add("get_metadata".to_string(), vec![]);
    let mut s = Session::new();
    let mut flags = vec![];
    for (v, t) in [(5u64, 50u64), (7, 70), (6, 60)] {
        let mut items = correlate(&b, &one_entry(v, t));
        s.check(&mut items);
        flags.push(stale_of(&items[0]));
    }
    assert_eq!(flags, vec![false, false, true]);
    assert_eq!(s.max_seen_ledger_version(), 7);
    assert_eq!(s.max_seen_timestamp(), 70);
}

#[test]
fn observe_equal_version_is_not_stale() {
    let mut s = Session::new();
    assert!(!s.observe(4, 40));
    assert!(!s.observe(4, 10));
    assert_eq!(s.max_seen_ledger_version(), 4);
    assert_eq!(s.max_seen_timestamp(), 40);
    assert!(s.observe(3, 99));
    assert_eq!(s.max_seen_timestamp(), 40);
}

#[test]
fn check_marks_within_one_batch_and_skips_errors() {
    let mut s = Session::new();
    let view = |v: u64| ItemResult::Success(ResponseView {
        payload: "{}".to_string(),
        ledger_version: v,
        ledger_timestamp: v,
        stale: false,
    });
    let mut items = vec![view(8), ItemResult::MissingResponse(1), view(6), view(9)];
    s.check(&mut items);
    assert_eq!(stale_of(&items[0]), false);
    assert_eq!(items[1], ItemResult::MissingResponse(1));
    assert_eq!(stale_of(&items[2]), true);
    assert_eq!(stale_of(&items[3]), false);
    assert_eq!(s.max_seen_ledger_version(), 9);
}
