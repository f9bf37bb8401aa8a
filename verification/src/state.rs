//! The node's persisted store: request ledger, identity gate and
//! status state machine.

use vstd::prelude::*;

use crate::numeric::str_eq;

verus! {

/// Progress of the single outstanding cross-node request; the sole
/// observable progress indicator of the protocol instance.
#[derive(Debug, Clone, Copy, PartialEq, Eq, Structural)]
pub enum RequestStatus {
    /// No request has been issued since the node was created.
    NotStarted,
    /// A request was dispatched; its outcome has not arrived yet.
    Requested,
    /// The dispatch reached the peer and the peer's handler completed;
    /// the price answer itself is still outstanding.
    Accepted,
    /// A validated price answer was committed.
    Answered,
    /// The dispatch failed on the remote side.
    Failed,
}

/// The persisted record of the request in flight: which denominations
/// were asked for, and who should ultimately receive the computed
/// balance. Overwritten, never appended, when a new request is issued.
pub struct ContractRequest {
    pub base_asset_denom: String,
    pub quote_asset_denom: String,
    pub query_address: String,
}

/// Everything this node persists. The host guarantees crash-safe,
/// read-your-writes durability and serialized delivery, so each
/// operation is a plain transition over one value of this type.
pub struct ContractState {
    /// The trusted peer allowed to answer a price request; immutable
    /// once initialization has set it.
    pub currency_hub_address: Option<String>,
    /// The single outstanding request, if one was ever issued.
    pub sent_request: Option<ContractRequest>,
    /// The committed fixed-point exchange rate (18-decimal scale),
    /// written only on a validated answer.
    pub exchange_rate: Option<u128>,
    /// Progress of the in-flight protocol instance.
    pub request_status: RequestStatus,
}

impl ContractState {
    /// The store of a freshly created, not yet initialized node.
    pub fn new() -> (s: ContractState)
        ensures
            s.currency_hub_address is None,
            s.sent_request is None,
            s.exchange_rate is None,
            s.request_status == RequestStatus::NotStarted,
    {
        ContractState {
            currency_hub_address: None,
            sent_request: None,
            exchange_rate: None,
            request_status: RequestStatus::NotStarted,
        }
    }
}

/// The identity gate, as a predicate: whether `sender` is the stored
/// trusted peer. A missing configuration reads as "not authorized",
/// never as a crash.
pub open spec fn spec_is_currency_hub(state: ContractState, sender: Seq<char>) -> bool {
    match state.currency_hub_address {
        Some(hub) => hub@ == sender,
        None => false,
    }
}

/// Executable identity gate; answers exactly as
/// [`spec_is_currency_hub`] does.
pub fn is_currency_hub(state: &ContractState, sender: &str) -> (r: bool)
    ensures
        r == spec_is_currency_hub(*state, sender@),
{
    match &state.currency_hub_address {
        Some(hub) => str_eq(hub.as_str(), sender),
        None => false,
    }
}

} // verus!
