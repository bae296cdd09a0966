//! A batched JSON-RPC client core: batch building and its wire form,
//! response correlation with per-item error isolation, the retry policy of
//! the blocking call, the session guard that flags ledger-version
//! regressions, and the checks on autopay instruction batches.

pub mod batch;
pub mod response;
pub mod correlate;
pub mod session;
pub mod blocking;
pub mod wire;
pub mod autopay;
