//! The orchestrator: issues the cross-node price request, validates and
//! commits the answer, absorbs the asynchronous outcome of the
//! dispatch, and computes the converted amount on demand.

use vstd::prelude::*;

use crate::ack::ack_fail_json;
use crate::ack::make_ack_fail;
use crate::error::ContractError;
use crate::msg::Contract2ExecuteMsg;
use crate::msg::ExecuteMsg;
use crate::msg::GetCalculatedBalanceResponse;
use crate::msg::GetRequestStatusResponse;
use crate::msg::InstantiateMsg;
use crate::msg::QueryAnswer;
use crate::msg::QueryMsg;
use crate::numeric::all_dec_digits;
use crate::numeric::dec_digits;
use crate::numeric::dec_val;
use crate::numeric::parse_decimal;
use crate::numeric::str_eq;
use crate::numeric::u128_to_decimal;
use crate::response::ActionResponse;
use crate::response::Attribute;
use crate::response::OutboundCall;
use crate::response::ReplyOutcome;
use crate::state::is_currency_hub;
use crate::state::spec_is_currency_hub;
use crate::state::ContractRequest;
use crate::state::ContractState;
use crate::state::RequestStatus;

verus! {

/// The one correlation id this node attaches to its dispatches: a
/// single outbound channel to the currency hub.
pub const REPLY_ID_FROM_CONTRACT2: u64 = 1;

/// Fixed-point scale of the exchange rate: eighteen decimal places.
pub const RATE_SCALE: u128 = 1_000_000_000_000_000_000;

/// The converter's result as a mathematical integer: the scaled
/// product, floor-divided back to base units.
pub open spec fn converted_amount(balance: u128, rate: u128) -> int {
    (balance * rate) / (RATE_SCALE as int)
}

/// Whether an incoming answer's denominations are the ones the stored
/// request asked for.
pub open spec fn denoms_match(req: ContractRequest, base: Seq<char>, quote: Seq<char>) -> bool {
    req.base_asset_denom@ == base && req.quote_asset_denom@ == quote
}

/// Whether `twap` is a well-formed fixed-point rate: one or more
/// decimal digits whose value fits the 128-bit representation.
pub open spec fn rate_parses(twap: Seq<char>) -> bool {
    twap.len() > 0 && all_dec_digits(twap) && dec_val(twap) <= u128::MAX
}

/// The error a price request fails with, if any: address validation
/// first, then the trusted-peer configuration.
pub open spec fn spec_request_err(state: ContractState, query_address_valid: bool) -> Option<
    ContractError,
> {
    if !query_address_valid {
        Some(ContractError::AddressInvalid)
    } else if state.currency_hub_address is None {
        Some(ContractError::StorageError)
    } else {
        None
    }
}

/// The error a price answer fails with, if any: authorization, then
/// correlation with the stored request, then parsing.
pub open spec fn spec_response_err(
    state: ContractState,
    sender: Seq<char>,
    base: Seq<char>,
    quote: Seq<char>,
    twap: Seq<char>,
) -> Option<ContractError> {
    if !spec_is_currency_hub(state, sender) {
        Some(ContractError::Unauthorized)
    } else if state.sent_request is None {
        Some(ContractError::NoRequestYet)
    } else if !denoms_match(state.sent_request.unwrap(), base, quote) {
        Some(ContractError::MismatchedRequest)
    } else if !rate_parses(twap) {
        Some(ContractError::NumericParseError)
    } else {
        None
    }
}

/// The error the calculated-balance query fails with, if any: a request
/// must exist, a rate must have been committed, and the product must be
/// representable.
pub open spec fn spec_calculated_balance_err(state: ContractState, balance: u128) -> Option<
    ContractError,
> {
    if state.sent_request is None {
        Some(ContractError::NoRequestYet)
    } else if state.exchange_rate is None {
        Some(ContractError::RateNotAvailable)
    } else if balance * state.exchange_rate.unwrap() > u128::MAX {
        Some(ContractError::ArithmeticOverflow)
    } else {
        None
    }
}

/// One-time initialization: stores the trusted peer and puts the
/// status state machine at its initial value. `currency_hub_valid` is
/// the host validator's verdict on the configured address; a rejected
/// address fails before any state mutation.
pub fn instantiate(state: &mut ContractState, msg: InstantiateMsg, currency_hub_valid: bool) -> (r:
    Result<ActionResponse<Contract2ExecuteMsg>, ContractError>)
    ensures
        !currency_hub_valid ==> r == Err::<ActionResponse<Contract2ExecuteMsg>, ContractError>(
            ContractError::ConfigError,
        ) && *final(state) == *old(state),
        currency_hub_valid ==> {
            &&& r is Ok
            &&& (final(state).currency_hub_address matches Some(hub) && hub@ == msg.currency_hub@)
            &&& final(state).request_status == RequestStatus::NotStarted
            &&& final(state).sent_request == old(state).sent_request
            &&& final(state).exchange_rate == old(state).exchange_rate
        },
        r matches Ok(resp) ==> {
            &&& resp.messages@.len() == 0
            &&& resp.attributes@.len() == 1
            &&& resp.attributes@[0].key@ == "action"@
            &&& resp.attributes@[0].value@ == "instantiate"@
            &&& resp.data is None
        },
{
    if !currency_hub_valid {
        return Err(ContractError::ConfigError);
    }
    state.currency_hub_address = Some(msg.currency_hub);
    state.request_status = RequestStatus::NotStarted;
    let mut attributes: Vec<Attribute> = Vec::new();
    attributes.push(
        Attribute { key: String::from_str("action"), value: String::from_str("instantiate") },
    );
    Ok(ActionResponse { messages: Vec::new(), attributes, data: None })
}

/// The mutating entry point.
///
/// `RequestTokenPrice` overwrites the request ledger, sets the status
/// to `Requested` and hands back the addressed call to dispatch, tagged
/// for notification under [`REPLY_ID_FROM_CONTRACT2`].
/// `ResponseTokenPrice` authorizes the sender against the trusted peer,
/// correlates the denominations against the stored request, parses the
/// rate, and commits status `Answered` together with the rate. Every
/// failing path leaves the store untouched.
pub fn execute(
    state: &mut ContractState,
    sender: &str,
    query_address_valid: bool,
    msg: ExecuteMsg,
) -> (r: Result<ActionResponse<Contract2ExecuteMsg>, ContractError>)
    ensures
        (msg matches ExecuteMsg::RequestTokenPrice {
            base_asset_denom: b,
            quote_asset_denom: q,
            query_address: a,
        } ==> {
            &&& (spec_request_err(*old(state), query_address_valid) matches Some(e) ==> r == Err::<
                ActionResponse<Contract2ExecuteMsg>,
                ContractError,
            >(e) && *final(state) == *old(state))
            &&& (spec_request_err(*old(state), query_address_valid) is None ==> {
                &&& r is Ok
                &&& final(state).request_status == RequestStatus::Requested
                &&& (final(state).sent_request matches Some(req) && req.base_asset_denom@ == b@
                    && req.quote_asset_denom@ == q@ && req.query_address@ == a@)
                &&& final(state).currency_hub_address == old(state).currency_hub_address
                &&& final(state).exchange_rate == old(state).exchange_rate
                &&& (r matches Ok(resp) ==> {
                    &&& resp.messages@.len() == 1
                    &&& (old(state).currency_hub_address matches Some(hub) ==> resp.messages@[0].contract_addr@
                        == hub@)
                    &&& resp.messages@[0].reply_on_success_id == REPLY_ID_FROM_CONTRACT2
                    &&& (resp.messages@[0].payload matches Contract2ExecuteMsg::GetTokenPrice {
                        base_asset_denom: pb,
                        quote_asset_denom: pq,
                    } && pb@ == b@ && pq@ == q@)
                    &&& resp.attributes@.len() == 1
                    &&& resp.attributes@[0].key@ == "action"@
                    &&& resp.attributes@[0].value@ == "request_token_price"@
                    &&& resp.data is None
                })
            })
        }),
        (msg matches ExecuteMsg::ResponseTokenPrice {
            base_asset_denom: b,
            quote_asset_denom: q,
            arithmetic_twap: t,
        } ==> {
            &&& (spec_response_err(*old(state), sender@, b@, q@, t@) matches Some(e) ==> r == Err::<
                ActionResponse<Contract2ExecuteMsg>,
                ContractError,
            >(e) && *final(state) == *old(state))
            &&& (spec_response_err(*old(state), sender@, b@, q@, t@) is None ==> {
                &&& r is Ok
                &&& final(state).request_status == RequestStatus::Answered
                &&& (final(state).exchange_rate matches Some(rate) && rate as nat == dec_val(t@))
                &&& final(state).sent_request == old(state).sent_request
                &&& final(state).currency_hub_address == old(state).currency_hub_address
                &&& (r matches Ok(resp) ==> {
                    &&& resp.messages@.len() == 0
                    &&& resp.attributes@.len() == 1
                    &&& resp.attributes@[0].key@ == "action"@
                    &&& resp.attributes@[0].value@ == "response_token_price"@
                    &&& resp.data is None
                })
            })
        }),
{
    match msg {
        ExecuteMsg::RequestTokenPrice { base_asset_denom, quote_asset_denom, query_address } => {
            if !query_address_valid {
                return Err(ContractError::AddressInvalid);
            }
            let hub: String = match &state.currency_hub_address {
                Some(h) => String::from_str(h.as_str()),
                None => {
                    return Err(ContractError::StorageError);
                },
            };
            let payload = Contract2ExecuteMsg::GetTokenPrice {
                base_asset_denom: String::from_str(base_asset_denom.as_str()),
                quote_asset_denom: String::from_str(quote_asset_denom.as_str()),
            };
            state.sent_request = Some(
                ContractRequest { base_asset_denom, quote_asset_denom, query_address },
            );
            state.request_status = RequestStatus::Requested;
            let mut messages: Vec<OutboundCall<Contract2ExecuteMsg>> = Vec::new();
            messages.push(
                OutboundCall {
                    contract_addr: hub,
                    payload,
                    reply_on_success_id: REPLY_ID_FROM_CONTRACT2,
                },
            );
            let mut attributes: Vec<Attribute> = Vec::new();
            attributes.push(
                Attribute {
                    key: String::from_str("action"),
                    value: String::from_str("request_token_price"),
                },
            );
            Ok(ActionResponse { messages, attributes, data: None })
        },
        ExecuteMsg::ResponseTokenPrice { base_asset_denom, quote_asset_denom, arithmetic_twap } => {
            if !is_currency_hub(state, sender) {
                return Err(ContractError::Unauthorized);
            }
            let denoms_ok: bool = match &state.sent_request {
                Some(req) => {
                    let base_ok = str_eq(req.base_asset_denom.as_str(), base_asset_denom.as_str());
                    let quote_ok = str_eq(
                        req.quote_asset_denom.as_str(),
                        quote_asset_denom.as_str(),
                    );
                    base_ok && quote_ok
                },
                None => {
                    return Err(ContractError::NoRequestYet);
                },
            };
            if !denoms_ok {
                return Err(ContractError::MismatchedRequest);
            }
            let rate: u128 = match parse_decimal(arithmetic_twap.as_str()) {
                Ok(v) => v,
                Err(e) => {
                    return Err(e);
                },
            };
            state.request_status = RequestStatus::Answered;
            state.exchange_rate = Some(rate);
            let mut attributes: Vec<Attribute> = Vec::new();
            attributes.push(
                Attribute {
                    key: String::from_str("action"),
                    value: String::from_str("response_token_price"),
                },
            );
            Ok(ActionResponse { messages: Vec::new(), attributes, data: None })
        },
    }
}

/// The asynchronous-outcome handler, the protocol's single suspension
/// point: everything needed to resume lives in the store. An unknown
/// correlation id is fatal for the message and touches nothing; a
/// success moves the status to `Accepted`; a remote failure is absorbed
/// as status `Failed` plus an acknowledgement payload embedding the
/// detail, returned as data rather than raised.
pub fn reply(state: &mut ContractState, correlation_id: u64, outcome: ReplyOutcome) -> (r: Result<
    ActionResponse<Contract2ExecuteMsg>,
    ContractError,
>)
    ensures
        correlation_id != REPLY_ID_FROM_CONTRACT2 ==> r == Err::<
            ActionResponse<Contract2ExecuteMsg>,
            ContractError,
        >(ContractError::UnknownCorrelationId { id: correlation_id }) && *final(state) == *old(
            state,
        ),
        (correlation_id == REPLY_ID_FROM_CONTRACT2 && outcome is Success) ==> {
            &&& final(state).request_status == RequestStatus::Accepted
            &&& final(state).sent_request == old(state).sent_request
            &&& final(state).currency_hub_address == old(state).currency_hub_address
            &&& final(state).exchange_rate == old(state).exchange_rate
            &&& (r matches Ok(resp) && {
                &&& resp.messages@.len() == 0
                &&& resp.attributes@.len() == 1
                &&& resp.attributes@[0].key@ == "reply_from"@
                &&& resp.attributes@[0].value@ == "currency_hub_address"@
                &&& resp.data is None
            })
        },
        correlation_id == REPLY_ID_FROM_CONTRACT2 ==> (outcome matches ReplyOutcome::Failure(
            detail,
        ) ==> {
            &&& final(state).request_status == RequestStatus::Failed
            &&& final(state).sent_request == old(state).sent_request
            &&& final(state).currency_hub_address == old(state).currency_hub_address
            &&& final(state).exchange_rate == old(state).exchange_rate
            &&& (r matches Ok(resp) && {
                &&& resp.messages@.len() == 0
                &&& resp.attributes@.len() == 0
                &&& (resp.data matches Some(d) && d@ == ack_fail_json(detail@))
            })
        }),
{
    if correlation_id != REPLY_ID_FROM_CONTRACT2 {
        return Err(ContractError::UnknownCorrelationId { id: correlation_id });
    }
    match outcome {
        ReplyOutcome::Success(_events) => {
            state.request_status = RequestStatus::Accepted;
            let mut attributes: Vec<Attribute> = Vec::new();
            attributes.push(
                Attribute {
                    key: String::from_str("reply_from"),
                    value: String::from_str("currency_hub_address"),
                },
            );
            Ok(ActionResponse { messages: Vec::new(), attributes, data: None })
        },
        ReplyOutcome::Failure(detail) => {
            state.request_status = RequestStatus::Failed;
            let data = make_ack_fail(detail.as_str());
            Ok(ActionResponse { messages: Vec::new(), attributes: Vec::new(), data: Some(data) })
        },
    }
}

/// The converter: `balance * rate`, overflow-detected, floor-divided by
/// [`RATE_SCALE`] and rendered in decimal. Pure; the division error is
/// handled defensively although the divisor is a nonzero constant.
pub fn calculate_required_balance(balance_amount: u128, arithmetic_twap: u128) -> (r: Result<
    String,
    ContractError,
>)
    ensures
        balance_amount * arithmetic_twap <= u128::MAX ==> (r matches Ok(s) && s@ == dec_digits(
            converted_amount(balance_amount, arithmetic_twap) as nat,
        )),
        balance_amount * arithmetic_twap > u128::MAX ==> r == Err::<String, ContractError>(
            ContractError::ArithmeticOverflow,
        ),
{
    let product: u128 = match balance_amount.checked_mul(arithmetic_twap) {
        Some(p) => p,
        None => {
            return Err(ContractError::ArithmeticOverflow);
        },
    };
    let required: u128 = match product.checked_div(RATE_SCALE) {
        Some(q) => q,
        None => {
            return Err(ContractError::DivisionError);
        },
    };
    Ok(u128_to_decimal(required))
}

/// What the calculated-balance query needs fetched from the external
/// balance collaborator: the stored request's address and base
/// denomination.
pub fn calculated_balance_target(state: &ContractState) -> (r: Result<
    (String, String),
    ContractError,
>)
    ensures
        r is Ok <==> state.sent_request is Some,
        (r matches Ok(t) ==> (state.sent_request matches Some(req) && t.0@ == req.query_address@
            && t.1@ == req.base_asset_denom@)),
        r is Err ==> r == Err::<(String, String), ContractError>(ContractError::NoRequestYet),
{
    match &state.sent_request {
        Some(req) => Ok(
            (
                String::from_str(req.query_address.as_str()),
                String::from_str(req.base_asset_denom.as_str()),
            ),
        ),
        None => Err(ContractError::NoRequestYet),
    }
}

/// The read-only entry point. `observed_balance` is the external
/// balance collaborator's answer for the target named by
/// [`calculated_balance_target`]; the status query ignores it. Queries
/// never mutate the store.
pub fn query(state: &ContractState, msg: QueryMsg, observed_balance: u128) -> (r: Result<
    QueryAnswer,
    ContractError,
>)
    ensures
        msg is CalculatedBalance ==> {
            &&& (spec_calculated_balance_err(*state, observed_balance) matches Some(e) ==> r
                == Err::<QueryAnswer, ContractError>(e))
            &&& (spec_calculated_balance_err(*state, observed_balance) is None ==> (r matches Ok(
                QueryAnswer::CalculatedBalance(resp),
            ) && {
                &&& (state.sent_request matches Some(req) && resp.query_address@
                    == req.query_address@)
                &&& resp.original_balance@ == dec_digits(observed_balance as nat)
                &&& (state.exchange_rate matches Some(rate) && resp.exchanged_balance@
                    == dec_digits(converted_amount(observed_balance, rate) as nat))
            }))
        },
        msg is RequestStatus ==> (r matches Ok(QueryAnswer::RequestStatus(resp))
            && resp.request_status == state.request_status),
{
    match msg {
        QueryMsg::CalculatedBalance {  } => {
            let query_address: String = match &state.sent_request {
                Some(req) => String::from_str(req.query_address.as_str()),
                None => {
                    return Err(ContractError::NoRequestYet);
                },
            };
            let rate: u128 = match &state.exchange_rate {
                Some(rate) => *rate,
                None => {
                    return Err(ContractError::RateNotAvailable);
                },
            };
            let exchanged_balance: String = match calculate_required_balance(
                observed_balance,
                rate,
            ) {
                Ok(s) => s,
                Err(e) => {
                    return Err(e);
                },
            };
            Ok(
                QueryAnswer::CalculatedBalance(
                    GetCalculatedBalanceResponse {
                        query_address,
                        original_balance: u128_to_decimal(observed_balance),
                        exchanged_balance,
                    },
                ),
            )
        },
        QueryMsg::RequestStatus {  } => {
            Ok(
                QueryAnswer::RequestStatus(
                    GetRequestStatusResponse { request_status: state.request_status },
                ),
            )
        },
    }
}

} // verus!
