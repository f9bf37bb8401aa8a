//! Protocol-level guarantees that span the state machine and the
//! query path.

use vstd::prelude::*;

use crate::contract::spec_calculated_balance_err;
use crate::error::ContractError;
use crate::state::ContractState;
use crate::state::RequestStatus;

verus! {

/// The calculated-balance query is gated by the committed rate.
///
/// In any store that holds a request and whose rate is present exactly
/// when the status is `Answered` — which every run maintains unless a
/// new request is issued after an answer, leaving a stale rate behind —
/// the query reports `RateNotAvailable` precisely in the statuses
/// `NotStarted`, `Requested`, `Accepted` and `Failed`, and can succeed
/// only once a validated answer committed a rate.
pub proof fn lemma_rate_gates_query(state: ContractState, balance: u128)
    requires
        state.sent_request is Some,
        state.exchange_rate is Some <==> state.request_status == RequestStatus::Answered,
    ensures
        state.request_status != RequestStatus::Answered <==> spec_calculated_balance_err(
            state,
            balance,
        ) == Some(ContractError::RateNotAvailable),
        spec_calculated_balance_err(state, balance) is None ==> state.request_status
            == RequestStatus::Answered,
{
}

} // verus!
