//! The response correlator: splits a raw response array into one outcome per
//! request position, isolating every failure to its own position.
use vstd::prelude::*;
use vstd::multiset::Multiset;
use crate::batch::Batch;
use crate::response::{RawOutcome, RawResponse};

verus! {

/// The view of a successful entry, with the ledger state it was read at. `stale` is set by the session guard when the ledger version is
/// older than one seen before.
#[derive(Debug, Clone, PartialEq, Eq)]
pub struct ResponseView {
    pub payload: String,
    pub ledger_version: u64,
    pub ledger_timestamp: u64,
    pub stale: bool,
}

/// The outcome for one position of a batch.
#[derive(Debug, Clone, PartialEq, Eq)]
pub enum ItemResult {
    Success(ResponseView),
    /// No wire entry carried this position's id.
    MissingResponse(usize),
    /// More than one wire entry carried this position's id.
    DuplicateId(usize),
    /// The node reported an error for this request.
    RemoteError { position: usize, code: i64, message: String },
    /// The entry's result did not have the shape of the requested view.
    DeserializationError { position: usize, detail: String },
}

/// The entries of `raw` that carry `id`, in wire order.
pub open spec fn entries_with_id(raw: Seq<RawResponse>, id: u64) -> Seq<RawResponse>
    decreases raw.len(),
{
    if raw.len() == 0 {
        Seq::empty()
    } else {
        let rest = entries_with_id(raw.drop_last(), id);
        if raw.last().id == id {
            rest.push(raw.last())
        } else {
            rest
        }
    }
}

/// The entries of `raw` that do not carry `id`, in wire order.
pub open spec fn without_id(raw: Seq<RawResponse>, id: u64) -> Seq<RawResponse>
    decreases raw.len(),
{
    if raw.len() == 0 {
        Seq::empty()
    } else {
        let rest = without_id(raw.drop_last(), id);
        if raw.last().id == id {
            rest
        } else {
            rest.push(raw.last())
        }
    }
}

/// The outcome at `position` when exactly one entry answers it.
pub open spec fn outcome_result(position: usize, outcome: RawOutcome) -> ItemResult {
    match outcome {
        RawOutcome::Success { payload, ledger_version, ledger_timestamp } => ItemResult::Success(
            ResponseView { payload, ledger_version, ledger_timestamp, stale: false },
        ),
        RawOutcome::Malformed { detail } => ItemResult::DeserializationError { position, detail },
        RawOutcome::ProtocolError { code, message } => ItemResult::RemoteError {
            position,
            code,
            message,
        },
    }
}

/// The outcome at `position`, given the whole raw array.
pub open spec fn item_result(raw: Seq<RawResponse>, position: usize) -> ItemResult {
    let found = entries_with_id(raw, position as u64);
    if found.len() == 0 {
        ItemResult::MissingResponse(position)
    } else if found.len() == 1 {
        outcome_result(position, found[0].outcome)
    } else {
        ItemResult::DuplicateId(position)
    }
}

/// The outcomes of a batch of `n` requests.
pub open spec fn correlation(n: nat, raw: Seq<RawResponse>) -> Seq<ItemResult> {
    Seq::new(n, |i: int| item_result(raw, i as usize))
}

/// Taking out the entries that carry `k` leaves the entries of every other id
/// as they were, and none of `k`.
proof fn lemma_without_id_entries(raw: Seq<RawResponse>, k: u64, j: u64)
    ensures
        entries_with_id(without_id(raw, k), j) == (if j == k {
            Seq::<RawResponse>::empty()
        } else {
            entries_with_id(raw, j)
        }),
    decreases raw.len(),
{
    if raw.len() > 0 {
        let rest = without_id(raw.drop_last(), k);
        lemma_without_id_entries(raw.drop_last(), k, j);
        if raw.last().id != k {
            assert(rest.push(raw.last()).drop_last() =~= rest);
        }
    }
}

/// An entry at index `a` that carries `id` is counted among its entries.
proof fn lemma_entry_counted(raw: Seq<RawResponse>, id: u64, a: int)
    requires
        0 <= a < raw.len(),
        raw[a].id == id,
    ensures
        entries_with_id(raw, id).len() >= 1,
    decreases raw.len(),
{
    if a < raw.len() - 1 {
        lemma_entry_counted(raw.drop_last(), id, a);
    }
}

/// Two entries at indices `a < b` that carry `id` are both counted.
proof fn lemma_two_entries_counted(raw: Seq<RawResponse>, id: u64, a: int, b: int)
    requires
        0 <= a < b < raw.len(),
        raw[a].id == id,
        raw[b].id == id,
    ensures
        entries_with_id(raw, id).len() >= 2,
    decreases raw.len(),
{
    if b == raw.len() - 1 {
        lemma_entry_counted(raw.drop_last(), id, a);
    } else {
        lemma_two_entries_counted(raw.drop_last(), id, a, b);
    }
}

/// Omitting every entry that answers position `k` turns that position into a
/// missing response and leaves the outcome of every other position unchanged.
pub proof fn lemma_missing_entry_isolated(n: nat, raw: Seq<RawResponse>, k: usize)
    requires
        k < n <= usize::MAX,
    ensures
        correlation(n, without_id(raw, k as u64))[k as int] == ItemResult::MissingResponse(k),
        forall|j: int|
            0 <= j < n && j != k ==> #[trigger] correlation(n, without_id(raw, k as u64))[j]
                == correlation(n, raw)[j],
{
    lemma_without_id_entries(raw, k as u64, k as u64);
    assert forall|j: int| 0 <= j < n && j != k implies #[trigger] correlation(
        n,
        without_id(raw, k as u64),
    )[j] == correlation(n, raw)[j] by {
        lemma_without_id_entries(raw, k as u64, j as usize as u64);
    }
}

/// When two entries carry the id of position `k`, that position is a
/// duplicate-id error, and every other position has the outcome it would
/// have had without those entries.
pub proof fn lemma_duplicate_id_isolated(
    n: nat,
    raw: Seq<RawResponse>,
    k: usize,
    a: int,
    b: int,
)
    requires
        k < n <= usize::MAX,
        0 <= a < raw.len(),
        0 <= b < raw.len(),
        a != b,
        raw[a].id == k as u64,
        raw[b].id == k as u64,
    ensures
        correlation(n, raw)[k as int] == ItemResult::DuplicateId(k),
        forall|j: int|
            0 <= j < n && j != k ==> #[trigger] correlation(n, raw)[j] == correlation(
                n,
                without_id(raw, k as u64),
            )[j],
{
    if a < b {
        lemma_two_entries_counted(raw, k as u64, a, b);
    } else {
        lemma_two_entries_counted(raw, k as u64, b, a);
    }
    lemma_missing_entry_isolated(n, raw, k);
}

/// Correlating one raw array against two batches of the same length gives
/// the same outcomes: nothing but the length and the raw entries is read.
pub proof fn lemma_correlate_deterministic(
    first: Batch,
    second: Batch,
    raw: Seq<RawResponse>,
    r1: Seq<ItemResult>,
    r2: Seq<ItemResult>,
)
    requires
        first@.len() == second@.len(),
        r1 == correlation(first@.len(), raw),
        r2 == correlation(second@.len(), raw),
    ensures
        r1 == r2,
{
}

/// Each entry that carries `id` is counted among its entries as often as it
/// occurs in `raw`; no other entry is.
proof fn lemma_entries_count(raw: Seq<RawResponse>, id: u64, x: RawResponse)
    ensures
        entries_with_id(raw, id).to_multiset().count(x) == (if x.id == id {
            raw.to_multiset().count(x)
        } else {
            0
        }),
    decreases raw.len(),
{
    broadcast use vstd::seq_lib::group_to_multiset_ensures, vstd::multiset::group_multiset_axioms;

    if raw.len() == 0 {
        assert(raw.to_multiset() =~= Multiset::empty());
        assert(entries_with_id(raw, id).to_multiset() =~= Multiset::empty());
    } else {
        lemma_entries_count(raw.drop_last(), id, x);
        assert(raw =~= raw.drop_last().push(raw.last()));
    }
}

/// The outcomes do not depend on the order of the raw entries: correlating
/// any permutation of them gives the same result.
pub proof fn lemma_correlation_order_free(n: nat, raw1: Seq<RawResponse>, raw2: Seq<RawResponse>)
    requires
        raw1.to_multiset() == raw2.to_multiset(),
    ensures
        correlation(n, raw1) == correlation(n, raw2),
{
    broadcast use vstd::seq_lib::group_to_multiset_ensures, vstd::multiset::group_multiset_axioms;

    assert forall|i: int| 0 <= i < n implies #[trigger] correlation(n, raw1)[i] == correlation(
        n,
        raw2,
    )[i] by {
        let id = i as usize as u64;
        let e1 = entries_with_id(raw1, id);
        let e2 = entries_with_id(raw2, id);
        assert forall|x: RawResponse| e1.to_multiset().count(x) == e2.to_multiset().count(x) by {
            lemma_entries_count(raw1, id, x);
            lemma_entries_count(raw2, id, x);
        }
        assert(e1.to_multiset() =~= e2.to_multiset());
        e1.to_multiset_ensures();
        e2.to_multiset_ensures();
        assert(e1.to_multiset().len() == e2.to_multiset().len());
        if e1.len() == 1 {
            assert(e1.contains(e1[0]));
            assert(e1.to_multiset().count(e1[0]) > 0);
            assert(e2.to_multiset().count(e1[0]) > 0);
            assert(e2.contains(e1[0]));
            assert(e2[0] == e1[0]);
        }
    }
    assert(correlation(n, raw1) =~= correlation(n, raw2));
}

impl ItemResult {
    /// Whether this position holds a view.
    pub fn is_success(&self) -> (r: bool)
        ensures
            r == (self is Success),
    {
        match self {
            ItemResult::Success(_) => true,
            _ => false,
        }
    }
}

/// How many entries carry `id` (counted up to two), and where the first is.
fn find_entry(raw: &Vec<RawResponse>, id: u64) -> (r: (usize, usize))
    ensures
        r.0 <= 2,
        r.0 == 0 <==> entries_with_id(raw@, id).len() == 0,
        r.0 == 1 <==> entries_with_id(raw@, id).len() == 1,
        r.0 >= 1 ==> r.1 < raw@.len() && raw@[r.1 as int] == entries_with_id(raw@, id)[0],
{
    let mut count: usize = 0;
    let mut first: usize = 0;
    let mut j: usize = 0;
    while j < raw.len()
        invariant
            j <= raw@.len(),
            count <= 2,
            count == 0 <==> entries_with_id(raw@.take(j as int), id).len() == 0,
            count == 1 <==> entries_with_id(raw@.take(j as int), id).len() == 1,
            count >= 1 ==> first < j && raw@[first as int] == entries_with_id(
                raw@.take(j as int),
                id,
            )[0],
        decreases raw@.len() - j,
    {
        assert(raw@.take(j + 1).drop_last() =~= raw@.take(j as int));
        assert(raw@.take(j + 1).last() == raw@[j as int]);
        if raw[j].id == id {
            if count == 0 {
                first = j;
            }
            if count < 2 {
                count = count + 1;
            }
        }
        j = j + 1;
    }
    assert(raw@.take(raw@.len() as int) =~= raw@);
    (count, first)
}

/// The executable counterpart of `outcome_result`.
fn outcome_to_result(position: usize, outcome: &RawOutcome) -> (r: ItemResult)
    ensures
        r == outcome_result(position, *outcome),
{
    match outcome {
        RawOutcome::Success { payload, ledger_version, ledger_timestamp } => ItemResult::Success(
            ResponseView {
                payload: payload.clone(),
                ledger_version: *ledger_version,
                ledger_timestamp: *ledger_timestamp,
                stale: false,
            },
        ),
        RawOutcome::Malformed { detail } => ItemResult::DeserializationError {
            position,
            detail: detail.clone(),
        },
        RawOutcome::ProtocolError { code, message } => ItemResult::RemoteError {
            position,
            code: *code,
            message: message.clone(),
        },
    }
}

/// Matches each raw entry to the request it answers. The result has one
/// outcome per request of the batch, in position order, whatever the number
/// and order of the raw entries; entries whose id matches no position are
/// ignored. The result depends on the batch's length and the raw entries alone.
pub fn correlate(batch: &Batch, raw: &Vec<RawResponse>) -> (r: Vec<ItemResult>)
    ensures
        r@.len() == batch@.len(),
        r@ == correlation(batch@.len(), raw@),
{
    let n = batch.len();
    let mut out: Vec<ItemResult> = Vec::new();
    let mut i: usize = 0;
    while i < n
        invariant
            n == batch@.len(),
            i <= n,
            out@.len() == i,
            forall|k: int| 0 <= k < i ==> #[trigger] out@[k] == item_result(raw@, k as usize),
        decreases n - i,
    {
        let (count, first) = find_entry(raw, i as u64);
        let item = if count == 0 {
            ItemResult::MissingResponse(i)
        } else if count == 1 {
            outcome_to_result(i, &raw[first].outcome)
        } else {
            ItemResult::DuplicateId(i)
        };
        out.push(item);
        i = i + 1;
    }
    assert(out@ =~= correlation(batch@.len(), raw@));
    out
}

} // verus!
