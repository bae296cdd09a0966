use json_rpc_client::batch::Batch;
use json_rpc_client::correlate::{correlate, ItemResult, ResponseView};
use json_rpc_client::response::{RawOutcome, RawResponse};

fn batch_of(n: usize) -> Batch {
    let mut b = Batch::new();
    for i in 0..n {
        let pos = b.add(format!("get_account_{}", i), vec![format!("\"{}\"", i)]);
        assert_eq!(pos, i);
    }
    b
}

fn ok_entry(id: u64, version: u64) -> RawResponse {
    RawResponse {
        id,
        outcome: RawOutcome::Success {
            payload: format!("{{\"n\":{}}}", id),
            ledger_version: version,
            ledger_timestamp: version * 10,
        },
    }
}

fn ok_item(id: u64, version: u64) -> ItemResult {
    ItemResult::Success(ResponseView {
        payload: format!("{{\"n\":{}}}", id),
        ledger_version: version,
        ledger_timestamp: version * 10,
        stale: false,
    })
}

#[test]
fn batch_positions_count_from_zero() {
    let mut b = Batch::new();
    assert_eq!(b.len(), 0);
    assert_eq!(b.add("get_metadata".to_string(), vec![]), 0);
    assert_eq!(b.add("get_account".to_string(), vec!["\"0xa\"".to_string()]), 1);
    assert_eq!(b.add("submit".to_string(), vec!["\"00ff\"".to_string()]), 2);
    assert_eq!(b.len(), 3);
    assert_eq!(b.request(1).method, "get_account");
    assert_eq!(b.request(1).position, 1);
    assert_eq!(b.request(2).params, vec!["\"00ff\"".to_string()]);
}

#[test]
fn length_matches_batch_in_any_order() {
    for n in [0usize, 1, 5, 1000] {
        let b = batch_of(n);
        let mut raw: Vec<RawResponse> = (0..n as u64).map(|i| ok_entry(i, 3)).collect();
        raw.reverse();
        let r = correlate(&b, &raw);
        assert_eq!(r.len(), n);
        for (i, item) in r.iter().enumerate() {
            assert_eq!(*item, ok_item(i as u64, 3));
        }
    }
}

#[test]
fn empty_response_array_gives_missing_everywhere() {
    let b = batch_of(3);
    let r = correlate(&b, &vec![]);
    assert_eq!(
        r,
        vec![ItemResult::MissingResponse(0), ItemResult::MissingResponse(1), ItemResult::MissingResponse(2)]
    );
}

#[test]
fn omitted_entry_is_missing_and_others_unaffected() {
    let b = batch_of(4);
    let raw = vec![ok_entry(3, 1), ok_entry(0, 1), ok_entry(2, 1)];
    let r = correlate(&b, &raw);
    assert_eq!(r[0], ok_item(0, 1));
    assert_eq!(r[1], ItemResult::MissingResponse(1));
    assert_eq!(r[2], ok_item(2, 1));
    assert_eq!(r[3], ok_item(3, 1));
}

#[test]
fn duplicate_id_is_isolated() {
    let b = batch_of(3);
    let raw = vec![ok_entry(0, 1), ok_entry(1, 1), ok_entry(2, 1), ok_entry(1, 2)];
    let r = correlate(&b, &raw);
    assert_eq!(r, vec![ok_item(0, 1), ItemResult::DuplicateId(1), ok_item(2, 1)]);
}

#[test]
fn extra_ids_are_ignored() {
    let b = batch_of(2);
    let raw = vec![ok_entry(7, 1), ok_entry(1, 1), ok_entry(0, 1), ok_entry(2, 1)];
    let r = correlate(&b, &raw);
    assert_eq!(r, vec![ok_item(0, 1), ok_item(1, 1)]);
}

#[test]
fn remote_and_deserialization_errors_stay_at_their_position() {
    let b = batch_of(3);
    let raw = vec![
        RawResponse { id: 2, outcome: RawOutcome::Malformed { detail: "missing field sequence_number".to_string() } },
        ok_entry(0, 4),
        RawResponse { id: 1, outcome: RawOutcome::ProtocolError { code: -32600, message: "invalid request".to_string() } },
    ];
    let r = correlate(&b, &raw);
    assert!(r[0].is_success());
    assert_eq!(r[0], ok_item(0, 4));
    assert_eq!(
        r[1],
        ItemResult::RemoteError { position: 1, code: -32600, message: "invalid request".to_string() }
    );
    assert!(!r[1].is_success());
    assert_eq!(
        r[2],
        ItemResult::DeserializationError { position: 2, detail: "missing field sequence_number".to_string() }
    );
}

#[test]
fn correlating_twice_gives_identical_results() {
    let b = batch_of(4);
    let raw = vec![
        ok_entry(2, 9),
        ok_entry(0, 9),
        RawResponse { id: 3, outcome: RawOutcome::ProtocolError { code: 1, message: "x".to_string() } },
        ok_entry(2, 9),
    ];
    let first = correlate(&b, &raw);
    let second = correlate(&b, &raw);
    assert_eq!(first, second);
    assert_eq!(
        first,
        vec![
            ok_item(0, 9),
            ItemResult::MissingResponse(1),
            ItemResult::DuplicateId(2),
            ItemResult::RemoteError { position: 3, code: 1, message: "x".to_string() },
        ]
    );
}
