//! The tagged unions this node accepts, and the typed payloads its
//! queries answer with. Wire encoding and decoding belong to the host
//! boundary; here every message is plain data.

use vstd::prelude::*;

use crate::state::RequestStatus;

verus! {

/// One-time configuration: the address of the trusted peer.
pub struct InstantiateMsg {
    pub currency_hub: String,
}

/// The mutating entry points of the requester node.
pub enum ExecuteMsg {
    /// Issue a new price request (overwriting any outstanding one) and
    /// dispatch it to the trusted peer.
    RequestTokenPrice { base_asset_denom: String, quote_asset_denom: String, query_address: String },
    /// A direct answer from the peer carrying the time-weighted average
    /// price as a decimal string in 18-decimal fixed point.
    ResponseTokenPrice { base_asset_denom: String, quote_asset_denom: String, arithmetic_twap: String },
}

/// The call this node addresses to the price oracle peer.
pub enum Contract2ExecuteMsg {
    GetTokenPrice { base_asset_denom: String, quote_asset_denom: String },
}

/// The read-only entry points.
pub enum QueryMsg {
    /// The converted amount for the stored request's address and base
    /// denomination.
    CalculatedBalance {},
    /// The current progress of the in-flight request.
    RequestStatus {},
}

/// Answer of [`QueryMsg::CalculatedBalance`]; amounts are rendered as
/// decimal strings at the boundary.
pub struct GetCalculatedBalanceResponse {
    pub query_address: String,
    pub original_balance: String,
    pub exchanged_balance: String,
}

/// Answer of [`QueryMsg::RequestStatus`].
pub struct GetRequestStatusResponse {
    pub request_status: RequestStatus,
}

/// A query answer, tagged with the entry point it came from.
pub enum QueryAnswer {
    CalculatedBalance(GetCalculatedBalanceResponse),
    RequestStatus(GetRequestStatusResponse),
}

} // verus!
