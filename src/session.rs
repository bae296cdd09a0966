//! The session consistency guard: the highest ledger state seen through one
//! client, and the staleness check applied to every accepted result.
use vstd::prelude::*;
use crate::correlate::{ItemResult, ResponseView};

verus! {

/// The ledger state seen so far by one client: `(max_seen_ledger_version,
/// max_seen_timestamp)`. Neither ever decreases.
pub struct Session {
    max_seen_ledger_version: u64,
    max_seen_timestamp: u64,
}

impl View for Session {
    type V = (u64, u64);

    closed spec fn view(&self) -> (u64, u64) {
        (self.max_seen_ledger_version, self.max_seen_timestamp)
    }
}

/// The session state after accepting a result read at `(version, timestamp)`:
/// only a strictly newer version moves it forward.
pub open spec fn observed(state: (u64, u64), version: u64, timestamp: u64) -> (u64, u64) {
    if version > state.0 {
        (version, if timestamp > state.1 { timestamp } else { state.1 })
    } else {
        state
    }
}

/// The session state after the successful items of `items`, in order.
pub open spec fn state_after(state: (u64, u64), items: Seq<ItemResult>) -> (u64, u64)
    decreases items.len(),
{
    if items.len() == 0 {
        state
    } else {
        let before = state_after(state, items.drop_last());
        match items.last() {
            ItemResult::Success(v) => observed(before, v.ledger_version, v.ledger_timestamp),
            _ => before,
        }
    }
}

/// Item `i` of `items` once checked: a view is marked stale exactly when its
/// ledger version is older than the highest seen before it.
pub open spec fn checked_item(state: (u64, u64), items: Seq<ItemResult>, i: int) -> ItemResult {
    match items[i] {
        ItemResult::Success(v) => ItemResult::Success(
            ResponseView {
                stale: v.ledger_version < state_after(state, items.take(i)).0,
                ..v
            },
        ),
        other => other,
    }
}

/// Every item of `items` once checked.
pub open spec fn checked_items(state: (u64, u64), items: Seq<ItemResult>) -> Seq<ItemResult> {
    Seq::new(items.len(), |i: int| checked_item(state, items, i))
}

impl Session {
    /// A session that has seen nothing yet.
    pub fn new() -> (s: Session)
        ensures
            s@ == (0u64, 0u64),
    {
        Session { max_seen_ledger_version: 0, max_seen_timestamp: 0 }
    }

    /// The highest ledger version seen.
    pub fn max_seen_ledger_version(&self) -> (v: u64)
        ensures
            v == self@.0,
    {
        self.max_seen_ledger_version
    }

    /// The ledger timestamp that came with the highest version seen, or a
    /// later one seen before it.
    pub fn max_seen_timestamp(&self) -> (t: u64)
        ensures
            t == self@.1,
    {
        self.max_seen_timestamp
    }

    /// Accepts a result read at `(version, timestamp)`. Returns whether it is
    /// stale, that is older than a version already seen; a stale result
    /// leaves the session unchanged.
    pub fn observe(&mut self, version: u64, timestamp: u64) -> (stale: bool)
        ensures
            stale == (version < old(self)@.0),
            final(self)@ == observed(old(self)@, version, timestamp),
            final(self)@.0 >= old(self)@.0,
            final(self)@.1 >= old(self)@.1,
    {
        let stale = version < self.max_seen_ledger_version;
        if version > self.max_seen_ledger_version {
            self.max_seen_ledger_version = version;
            if timestamp > self.max_seen_timestamp {
                self.max_seen_timestamp = timestamp;
            }
        }
        stale
    }

    /// Checks the items of one batch result in position order, marking each
    /// stale view and moving the session forward past the others.
    pub fn check(&mut self, items: &mut Vec<ItemResult>)
        ensures
            final(items)@ == checked_items(old(self)@, old(items)@),
            final(self)@ == state_after(old(self)@, old(items)@),
    {
        let ghost start = self@;
        let ghost input = items@;
        let n = items.len();
        let mut i: usize = 0;
        while i < n
            invariant
                n == input.len(),
                items@.len() == n,
                i <= n,
                self@ == state_after(start, input.take(i as int)),
                forall|k: int| 0 <= k < i ==> #[trigger] items@[k] == checked_item(start, input, k),
                forall|k: int| i <= k < n ==> #[trigger] items@[k] == input[k],
            decreases n - i,
        {
            assert(input.take(i + 1).drop_last() =~= input.take(i as int));
            let marked = match &items[i] {
                ItemResult::Success(v) => {
                    let stale = self.observe(v.ledger_version, v.ledger_timestamp);
                    Some(
                        ItemResult::Success(
                            ResponseView {
                                payload: v.payload.clone(),
                                ledger_version: v.ledger_version,
                                ledger_timestamp: v.ledger_timestamp,
                                stale,
                            },
                        ),
                    )
                },
                _ => None,
            };
            match marked {
                Some(item) => {
                    items.set(i, item);
                },
                None => {},
            }
            i = i + 1;
        }
        assert(input.take(n as int) =~= input);
        assert(items@ =~= checked_items(start, input));
    }
}

} // verus!
