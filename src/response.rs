//! What the transport hands back: one raw entry per wire response.
use vstd::prelude::*;

verus! {

/// The whole round trip failed: no connection, an HTTP error, or a body that
/// is not a JSON-RPC envelope. Nothing of the batch is usable.
#[derive(Debug, Clone, PartialEq, Eq)]
pub struct TransportError {
    pub detail: String,
}

/// What one wire entry carried.
#[derive(Debug, Clone, PartialEq, Eq)]
pub enum RawOutcome {
    /// A result whose shape matched the view its method asks for, as JSON
    /// text, with the ledger state the node reported.
    Success { payload: String, ledger_version: u64, ledger_timestamp: u64 },
    /// A result whose shape does not match the view its method asks for.
    Malformed { detail: String },
    /// An error object reported by the node.
    ProtocolError { code: i64, message: String },
}

/// One wire entry with the id it answers. The id of the request at position
/// `i` is `i`.
#[derive(Debug, Clone, PartialEq, Eq)]
pub struct RawResponse {
    pub id: u64,
    pub outcome: RawOutcome,
}

} // verus!
