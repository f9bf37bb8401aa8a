//! What a mutating operation hands back to the host: outbound addressed
//! calls to dispatch, observability attributes, and an optional opaque
//! result payload. The host serializes and relays these; this node only
//! decides their content.

use vstd::prelude::*;

verus! {

/// A named key/value pair emitted for observability; also the shape of
/// an entry in an asynchronous outcome's event log.
pub struct Attribute {
    pub key: String,
    pub value: String,
}

/// An addressed call to a peer node, to be dispatched by the host bus.
/// `reply_on_success_id` is the correlation id under which this node
/// asks to be notified of the call's asynchronous outcome.
pub struct OutboundCall<M> {
    pub contract_addr: String,
    pub payload: M,
    pub reply_on_success_id: u64,
}

/// The full result of a mutating operation: calls to dispatch,
/// attributes to emit, and an optional payload returned as the node's
/// own call result (used to hand a downstream failure back as data).
pub struct ActionResponse<M> {
    pub messages: Vec<OutboundCall<M>>,
    pub attributes: Vec<Attribute>,
    pub data: Option<String>,
}

/// The asynchronous outcome of a dispatched call, as the bus reports
/// it: success carries the peer's event log, failure a textual detail.
pub enum ReplyOutcome {
    Success(Vec<Attribute>),
    Failure(String),
}

} // verus!
