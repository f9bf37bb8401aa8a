//! The balance-relay sibling node: the same dispatch/suspend/resume
//! idiom as the orchestrator, with no authorization and no arithmetic.
//! It issues one outbound call and, on its successful asynchronous
//! outcome, lifts two named values out of the outcome's event log and
//! persists them, tolerating partial event data.

use vstd::prelude::*;

use crate::ack::ack_fail_json;
use crate::ack::make_ack_fail;
use crate::error::ContractError;
use crate::numeric::str_eq;
use crate::response::ActionResponse;
use crate::response::Attribute;
use crate::response::OutboundCall;
use crate::response::ReplyOutcome;

verus! {

/// Correlation id of the relay node's single outbound channel.
pub const RELAY_REPLY_ID: u64 = 1;

/// The call the relay node addresses to its peer.
pub enum RelayPeerMsg {
    TriggerFlow { query_address: String, query_denom: String },
}

/// Answer of the relay node's balance query.
pub struct BalanceInfoResponse {
    pub balance: String,
}

/// Everything the relay node persists.
pub struct RelayState {
    /// Denomination handed to the peer on every start; set once at
    /// initialization.
    pub query_denom: Option<String>,
    /// Address lifted from the last successful outcome's event log;
    /// empty until one arrived, or when the log lacked the key.
    pub reported_address: String,
    /// Balance lifted the same way.
    pub reported_balance: String,
}

impl RelayState {
    /// The store of a freshly created, not yet initialized relay node.
    pub fn new() -> (s: RelayState)
        ensures
            s.query_denom is None,
            s.reported_address@ == Seq::<char>::empty(),
            s.reported_balance@ == Seq::<char>::empty(),
    {
        let empty_address = String::from_str("");
        let empty_balance = String::from_str("");
        proof {
            reveal_strlit("");
            assert(""@ =~= Seq::<char>::empty());
        }
        RelayState { query_denom: None, reported_address: empty_address, reported_balance: empty_balance }
    }
}

/// The value under the first occurrence of `key` in an event log, or
/// the empty string when the key is absent.
pub open spec fn first_value_of(events: Seq<Attribute>, key: Seq<char>) -> Seq<char>
    decreases events.len(),
{
    if events.len() == 0 {
        Seq::empty()
    } else if events[0].key@ == key {
        events[0].value@
    } else {
        first_value_of(events.drop_first(), key)
    }
}

/// Scans an event log for `key`, answering exactly as
/// [`first_value_of`] does.
fn find_attribute(events: &Vec<Attribute>, key: &str) -> (r: String)
    ensures
        r@ == first_value_of(events@, key@),
{
    let mut i: usize = 0;
    proof {
        assert(events@.skip(0) =~= events@);
    }
    while i < events.len()
        invariant
            0 <= i <= events@.len(),
            first_value_of(events@, key@) == first_value_of(events@.skip(i as int), key@),
        decreases events@.len() - i,
    {
        proof {
            assert(events@.skip(i as int)[0] == events@[i as int]);
            assert(events@.skip(i as int).drop_first() =~= events@.skip(i as int + 1));
        }
        if str_eq(events[i].key.as_str(), key) {
            return String::from_str(events[i].value.as_str());
        }
        i = i + 1;
    }
    proof {
        assert(events@.skip(i as int) =~= Seq::<Attribute>::empty());
        reveal_strlit("");
        assert(""@ =~= Seq::<char>::empty());
    }
    String::from_str("")
}

/// One-time initialization of the relay node: stores the denomination
/// its flow will ask the peer about.
pub fn relay_instantiate(state: &mut RelayState, query_denom: String) -> (r: ActionResponse<
    RelayPeerMsg,
>)
    ensures
        (final(state).query_denom matches Some(qd) && qd@ == query_denom@),
        final(state).reported_address == old(state).reported_address,
        final(state).reported_balance == old(state).reported_balance,
        r.messages@.len() == 0,
        r.attributes@.len() == 1,
        r.attributes@[0].key@ == "action"@,
        r.attributes@[0].value@ == "instantiate"@,
        r.data is None,
{
    state.query_denom = Some(query_denom);
    let mut attributes: Vec<Attribute> = Vec::new();
    attributes.push(
        Attribute { key: String::from_str("action"), value: String::from_str("instantiate") },
    );
    ActionResponse { messages: Vec::new(), attributes, data: None }
}

/// Starts the relay flow: one outbound call to `peer_address` carrying
/// the address to report on and the configured denomination, tagged for
/// notification under [`RELAY_REPLY_ID`]. Nothing is persisted; the
/// resume point needs no more state than the fixed correlation id.
pub fn relay_start(state: &RelayState, peer_address: String, query_address: String) -> (r: Result<
    ActionResponse<RelayPeerMsg>,
    ContractError,
>)
    ensures
        state.query_denom is None ==> r == Err::<ActionResponse<RelayPeerMsg>, ContractError>(
            ContractError::ConfigError,
        ),
        state.query_denom matches Some(qd) ==> (r matches Ok(resp) && {
            &&& resp.messages@.len() == 1
            &&& resp.messages@[0].contract_addr@ == peer_address@
            &&& resp.messages@[0].reply_on_success_id == RELAY_REPLY_ID
            &&& (resp.messages@[0].payload matches RelayPeerMsg::TriggerFlow {
                query_address: qa,
                query_denom: qd2,
            } && qa@ == query_address@ && qd2@ == qd@)
            &&& resp.attributes@.len() == 1
            &&& resp.attributes@[0].key@ == "action"@
            &&& resp.attributes@[0].value@ == "start"@
            &&& resp.data is None
        }),
{
    let query_denom: String = match &state.query_denom {
        Some(qd) => String::from_str(qd.as_str()),
        None => {
            return Err(ContractError::ConfigError);
        },
    };
    let payload = RelayPeerMsg::TriggerFlow { query_address, query_denom };
    let mut messages: Vec<OutboundCall<RelayPeerMsg>> = Vec::new();
    messages.push(
        OutboundCall { contract_addr: peer_address, payload, reply_on_success_id: RELAY_REPLY_ID },
    );
    let mut attributes: Vec<Attribute> = Vec::new();
    attributes.push(
        Attribute { key: String::from_str("action"), value: String::from_str("start") },
    );
    Ok(ActionResponse { messages, attributes, data: None })
}

/// The relay node's asynchronous-outcome handler. On success it
/// persists whatever the event log holds under `reported_address` and
/// `reported_balance` (empty when absent, by design); on remote failure
/// it persists nothing and hands the failure back as data.
pub fn relay_reply(state: &mut RelayState, correlation_id: u64, outcome: ReplyOutcome) -> (r:
    Result<ActionResponse<RelayPeerMsg>, ContractError>)
    ensures
        correlation_id != RELAY_REPLY_ID ==> r == Err::<ActionResponse<RelayPeerMsg>,
            ContractError,
        >(ContractError::UnknownCorrelationId { id: correlation_id }) && *final(state) == *old(
            state,
        ),
        correlation_id == RELAY_REPLY_ID ==> (outcome matches ReplyOutcome::Success(events) ==> {
            &&& final(state).query_denom == old(state).query_denom
            &&& final(state).reported_address@ == first_value_of(events@, "reported_address"@)
            &&& final(state).reported_balance@ == first_value_of(events@, "reported_balance"@)
            &&& (r matches Ok(resp) && {
                &&& resp.messages@.len() == 0
                &&& resp.attributes@.len() == 1
                &&& resp.attributes@[0].key@ == "action"@
                &&& resp.attributes@[0].value@ == "relay_reply"@
                &&& resp.data is None
            })
        }),
        correlation_id == RELAY_REPLY_ID ==> (outcome matches ReplyOutcome::Failure(detail) ==> {
            &&& *final(state) == *old(state)
            &&& (r matches Ok(resp) && {
                &&& resp.messages@.len() == 0
                &&& resp.attributes@.len() == 0
                &&& (resp.data matches Some(d) && d@ == ack_fail_json(detail@))
            })
        }),
{
    if correlation_id != RELAY_REPLY_ID {
        return Err(ContractError::UnknownCorrelationId { id: correlation_id });
    }
    match outcome {
        ReplyOutcome::Success(events) => {
            state.reported_address = find_attribute(&events, "reported_address");
            state.reported_balance = find_attribute(&events, "reported_balance");
            let mut attributes: Vec<Attribute> = Vec::new();
            attributes.push(
                Attribute { key: String::from_str("action"), value: String::from_str("relay_reply") },
            );
            Ok(ActionResponse { messages: Vec::new(), attributes, data: None })
        },
        ReplyOutcome::Failure(detail) => {
            let data = make_ack_fail(detail.as_str());
            Ok(ActionResponse { messages: Vec::new(), attributes: Vec::new(), data: Some(data) })
        },
    }
}

/// The relay node's read-only balance query: the last reported balance,
/// as persisted.
pub fn relay_query_balance_info(state: &RelayState) -> (r: BalanceInfoResponse)
    ensures
        r.balance@ == state.reported_balance@,
{
    BalanceInfoResponse { balance: String::from_str(state.reported_balance.as_str()) }
}

} // verus!
