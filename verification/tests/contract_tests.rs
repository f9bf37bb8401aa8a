use token_price_client::contract::calculated_balance_target;
use token_price_client::contract::execute;
use token_price_client::contract::instantiate;
use token_price_client::contract::query;
use token_price_client::contract::reply;
use token_price_client::contract::REPLY_ID_FROM_CONTRACT2;
use token_price_client::error::ContractError;
use token_price_client::msg::Contract2ExecuteMsg;
use token_price_client::msg::ExecuteMsg;
use token_price_client::msg::InstantiateMsg;
use token_price_client::msg::QueryAnswer;
use token_price_client::msg::QueryMsg;
use token_price_client::response::ReplyOutcome;
use token_price_client::state::is_currency_hub;
use token_price_client::state::ContractState;
use token_price_client::state::RequestStatus;

fn initialized_state() -> ContractState {
    let mut state = ContractState::new();
    let r = instantiate(
        &mut state,
        InstantiateMsg { currency_hub: "hub".to_string() },
        true,
    );
    assert!(r.is_ok());
    state
}

fn request_msg() -> ExecuteMsg {
    ExecuteMsg::RequestTokenPrice {
        base_asset_denom: "uatom".to_string(),
        quote_asset_denom: "uusd".to_string(),
        query_address: "addr1".to_string(),
    }
}

fn response_msg(twap: &str) -> ExecuteMsg {
    ExecuteMsg::ResponseTokenPrice {
        base_asset_denom: "uatom".to_string(),
        quote_asset_denom: "uusd".to_string(),
        arithmetic_twap: twap.to_string(),
    }
}

#[test]
fn instantiate_sets_peer_and_initial_status() {
    let mut state = ContractState::new();
    let r = instantiate(
        &mut state,
        InstantiateMsg { currency_hub: "hub".to_string() },
        true,
    );
    let resp = match r {
        Ok(resp) => resp,
        Err(e) => panic!("unexpected error: {:?}", e),
    };
    assert_eq!(state.currency_hub_address.as_deref(), Some("hub"));
    assert_eq!(state.request_status, RequestStatus::NotStarted);
    assert_eq!(resp.attributes.len(), 1);
    assert_eq!(resp.attributes[0].key, "action");
    assert_eq!(resp.attributes[0].value, "instantiate");
    assert!(is_currency_hub(&state, "hub"));
    assert!(!is_currency_hub(&state, "other"));
}

#[test]
fn instantiate_rejects_an_invalid_address() {
    let mut state = ContractState::new();
    let r = instantiate(
        &mut state,
        InstantiateMsg { currency_hub: "not an address".to_string() },
        false,
    );
    let e = match r {
        Ok(_) => panic!("expected an error"),
        Err(e) => e,
    };
    assert_eq!(e, ContractError::ConfigError);
    assert!(state.currency_hub_address.is_none());
}

#[test]
fn request_persists_ledger_and_dispatches_to_peer() {
    let mut state = initialized_state();
    let r = execute(&mut state, "anyone", true, request_msg());
    let resp = match r {
        Ok(resp) => resp,
        Err(e) => panic!("unexpected error: {:?}", e),
    };
    assert_eq!(state.request_status, RequestStatus::Requested);
    let req = state.sent_request.as_ref().unwrap();
    assert_eq!(req.base_asset_denom, "uatom");
    assert_eq!(req.quote_asset_denom, "uusd");
    assert_eq!(req.query_address, "addr1");
    assert_eq!(resp.messages.len(), 1);
    assert_eq!(resp.messages[0].contract_addr, "hub");
    assert_eq!(resp.messages[0].reply_on_success_id, REPLY_ID_FROM_CONTRACT2);
    let Contract2ExecuteMsg::GetTokenPrice { base_asset_denom, quote_asset_denom } =
        &resp.messages[0].payload;
    assert_eq!(base_asset_denom, "uatom");
    assert_eq!(quote_asset_denom, "uusd");
    assert_eq!(resp.attributes.len(), 1);
    assert_eq!(resp.attributes[0].key, "action");
    assert_eq!(resp.attributes[0].value, "request_token_price");
}

#[test]
fn request_with_invalid_address_changes_nothing() {
    let mut state = initialized_state();
    let r = execute(&mut state, "anyone", false, request_msg());
    let e = match r {
        Ok(_) => panic!("expected an error"),
        Err(e) => e,
    };
    assert_eq!(e, ContractError::AddressInvalid);
    assert_eq!(state.request_status, RequestStatus::NotStarted);
    assert!(state.sent_request.is_none());
}

#[test]
fn request_before_initialization_fails() {
    let mut state = ContractState::new();
    let r = execute(&mut state, "anyone", true, request_msg());
    let e = match r {
        Ok(_) => panic!("expected an error"),
        Err(e) => e,
    };
    assert_eq!(e, ContractError::StorageError);
    assert_eq!(state.request_status, RequestStatus::NotStarted);
    assert!(state.sent_request.is_none());
}

#[test]
fn answer_from_non_peer_is_unauthorized() {
    let mut state = initialized_state();
    execute(&mut state, "anyone", true, request_msg()).unwrap_or_else(|e| panic!("{:?}", e));
    let r = execute(&mut state, "impostor", true, response_msg("1500000000000000000"));
    let e = match r {
        Ok(_) => panic!("expected an error"),
        Err(e) => e,
    };
    assert_eq!(e, ContractError::Unauthorized);
    // the prior status and the rate are untouched
    assert_eq!(state.request_status, RequestStatus::Requested);
    assert!(state.exchange_rate.is_none());
}

#[test]
fn answer_with_mismatched_denominations_is_refused() {
    let mut state = initialized_state();
    execute(&mut state, "anyone", true, request_msg()).unwrap_or_else(|e| panic!("{:?}", e));
    let r = execute(
        &mut state,
        "hub",
        true,
        ExecuteMsg::ResponseTokenPrice {
            base_asset_denom: "uosmo".to_string(),
            quote_asset_denom: "uusd".to_string(),
            arithmetic_twap: "1500000000000000000".to_string(),
        },
    );
    let e = match r {
        Ok(_) => panic!("expected an error"),
        Err(e) => e,
    };
    assert_eq!(e, ContractError::MismatchedRequest);
    assert_eq!(state.request_status, RequestStatus::Requested);
    assert!(state.exchange_rate.is_none());
}

#[test]
fn answer_before_any_request_is_refused() {
    let mut state = initialized_state();
    let r = execute(&mut state, "hub", true, response_msg("1"));
    let e = match r {
        Ok(_) => panic!("expected an error"),
        Err(e) => e,
    };
    assert_eq!(e, ContractError::NoRequestYet);
}

#[test]
fn answer_with_a_malformed_rate_is_refused() {
    let mut state = initialized_state();
    execute(&mut state, "anyone", true, request_msg()).unwrap_or_else(|e| panic!("{:?}", e));
    let r = execute(&mut state, "hub", true, response_msg("1.5e18"));
    let e = match r {
        Ok(_) => panic!("expected an error"),
        Err(e) => e,
    };
    assert_eq!(e, ContractError::NumericParseError);
    assert_eq!(state.request_status, RequestStatus::Requested);
    assert!(state.exchange_rate.is_none());
}

#[test]
fn valid_answer_commits_rate_and_status() {
    let mut state = initialized_state();
    execute(&mut state, "anyone", true, request_msg()).unwrap_or_else(|e| panic!("{:?}", e));
    let r = execute(&mut state, "hub", true, response_msg("1500000000000000000"));
    let resp = match r {
        Ok(resp) => resp,
        Err(e) => panic!("unexpected error: {:?}", e),
    };
    assert_eq!(state.request_status, RequestStatus::Answered);
    assert_eq!(state.exchange_rate, Some(1_500_000_000_000_000_000));
    assert_eq!(resp.attributes.len(), 1);
    assert_eq!(resp.attributes[0].key, "action");
    assert_eq!(resp.attributes[0].value, "response_token_price");
}

#[test]
fn status_walks_requested_accepted_answered() {
    let mut state = initialized_state();
    assert_eq!(state.request_status, RequestStatus::NotStarted);
    execute(&mut state, "anyone", true, request_msg()).unwrap_or_else(|e| panic!("{:?}", e));
    assert_eq!(state.request_status, RequestStatus::Requested);
    let r = reply(&mut state, REPLY_ID_FROM_CONTRACT2, ReplyOutcome::Success(Vec::new()));
    let resp = match r {
        Ok(resp) => resp,
        Err(e) => panic!("unexpected error: {:?}", e),
    };
    assert_eq!(state.request_status, RequestStatus::Accepted);
    assert_eq!(resp.attributes.len(), 1);
    assert_eq!(resp.attributes[0].key, "reply_from");
    assert_eq!(resp.attributes[0].value, "currency_hub_address");
    execute(&mut state, "hub", true, response_msg("2000000000000000000"))
        .unwrap_or_else(|e| panic!("{:?}", e));
    assert_eq!(state.request_status, RequestStatus::Answered);
}

#[test]
fn remote_failure_becomes_data_not_error() {
    let mut state = initialized_state();
    execute(&mut state, "anyone", true, request_msg()).unwrap_or_else(|e| panic!("{:?}", e));
    let r = reply(
        &mut state,
        REPLY_ID_FROM_CONTRACT2,
        ReplyOutcome::Failure("insufficient funds".to_string()),
    );
    let resp = match r {
        Ok(resp) => resp,
        Err(e) => panic!("the failure outcome must not become a fatal error: {:?}", e),
    };
    assert_eq!(state.request_status, RequestStatus::Failed);
    assert_eq!(resp.data.as_deref(), Some("{\"error\":\"insufficient funds\"}"));
}

#[test]
fn unknown_correlation_id_is_fatal_and_touches_nothing() {
    let mut state = initialized_state();
    execute(&mut state, "anyone", true, request_msg()).unwrap_or_else(|e| panic!("{:?}", e));
    let r = reply(&mut state, 7, ReplyOutcome::Success(Vec::new()));
    let e = match r {
        Ok(_) => panic!("expected an error"),
        Err(e) => e,
    };
    assert_eq!(e, ContractError::UnknownCorrelationId { id: 7 });
    assert_eq!(state.request_status, RequestStatus::Requested);
}

#[test]
fn full_round_trip_computes_fifteen() {
    let mut state = initialized_state();
    execute(&mut state, "anyone", true, request_msg()).unwrap_or_else(|e| panic!("{:?}", e));
    execute(&mut state, "hub", true, response_msg("1500000000000000000"))
        .unwrap_or_else(|e| panic!("{:?}", e));
    let target = calculated_balance_target(&state).unwrap_or_else(|e| panic!("{:?}", e));
    assert_eq!(target.0, "addr1");
    assert_eq!(target.1, "uatom");
    let r = query(&state, QueryMsg::CalculatedBalance {}, 10);
    let answer = match r {
        Ok(QueryAnswer::CalculatedBalance(answer)) => answer,
        Ok(QueryAnswer::RequestStatus(_)) => panic!("wrong answer variant"),
        Err(e) => panic!("unexpected error: {:?}", e),
    };
    assert_eq!(answer.query_address, "addr1");
    assert_eq!(answer.original_balance, "10");
    assert_eq!(answer.exchanged_balance, "15");
}

#[test]
fn calculated_balance_needs_a_request_first() {
    let state = ContractState::new();
    match query(&state, QueryMsg::CalculatedBalance {}, 10) {
        Ok(_) => panic!("expected an error"),
        Err(e) => assert_eq!(e, ContractError::NoRequestYet),
    }
    match calculated_balance_target(&state) {
        Ok(_) => panic!("expected an error"),
        Err(e) => assert_eq!(e, ContractError::NoRequestYet),
    }
}

#[test]
fn calculated_balance_needs_a_committed_rate() {
    let mut state = initialized_state();
    execute(&mut state, "anyone", true, request_msg()).unwrap_or_else(|e| panic!("{:?}", e));
    // Requested: no rate yet
    match query(&state, QueryMsg::CalculatedBalance {}, 10) {
        Ok(_) => panic!("expected an error"),
        Err(e) => assert_eq!(e, ContractError::RateNotAvailable),
    }
    // Accepted: the dispatch went through, still no answer
    reply(&mut state, REPLY_ID_FROM_CONTRACT2, ReplyOutcome::Success(Vec::new()))
        .unwrap_or_else(|_| panic!("reply failed"));
    match query(&state, QueryMsg::CalculatedBalance {}, 10) {
        Ok(_) => panic!("expected an error"),
        Err(e) => assert_eq!(e, ContractError::RateNotAvailable),
    }
    // Failed: the dispatch failed remotely
    reply(&mut state, REPLY_ID_FROM_CONTRACT2, ReplyOutcome::Failure("boom".to_string()))
        .unwrap_or_else(|_| panic!("reply failed"));
    match query(&state, QueryMsg::CalculatedBalance {}, 10) {
        Ok(_) => panic!("expected an error"),
        Err(e) => assert_eq!(e, ContractError::RateNotAvailable),
    }
}

#[test]
fn calculated_balance_reports_overflow() {
    let mut state = initialized_state();
    execute(&mut state, "anyone", true, request_msg()).unwrap_or_else(|e| panic!("{:?}", e));
    execute(
        &mut state,
        "hub",
        true,
        response_msg("340282366920938463463374607431768211455"),
    )
    .unwrap_or_else(|e| panic!("{:?}", e));
    match query(&state, QueryMsg::CalculatedBalance {}, 2) {
        Ok(_) => panic!("expected an error"),
        Err(e) => assert_eq!(e, ContractError::ArithmeticOverflow),
    }
}

#[test]
fn status_query_reports_the_current_status() {
    let mut state = initialized_state();
    match query(&state, QueryMsg::RequestStatus {}, 0) {
        Ok(QueryAnswer::RequestStatus(resp)) => {
            assert_eq!(resp.request_status, RequestStatus::NotStarted)
        }
        _ => panic!("wrong answer"),
    }
    execute(&mut state, "anyone", true, request_msg()).unwrap_or_else(|e| panic!("{:?}", e));
    match query(&state, QueryMsg::RequestStatus {}, 0) {
        Ok(QueryAnswer::RequestStatus(resp)) => {
            assert_eq!(resp.request_status, RequestStatus::Requested)
        }
        _ => panic!("wrong answer"),
    }
}

#[test]
fn reissuing_a_request_overwrites_the_ledger() {
    let mut state = initialized_state();
    execute(&mut state, "anyone", true, request_msg()).unwrap_or_else(|e| panic!("{:?}", e));
    execute(&mut state, "hub", true, response_msg("1000000000000000000"))
        .unwrap_or_else(|e| panic!("{:?}", e));
    assert_eq!(state.request_status, RequestStatus::Answered);
    let r = execute(
        &mut state,
        "anyone",
        true,
        ExecuteMsg::RequestTokenPrice {
            base_asset_denom: "uosmo".to_string(),
            quote_asset_denom: "ujpy".to_string(),
            query_address: "addr2".to_string(),
        },
    );
    assert!(r.is_ok());
    assert_eq!(state.request_status, RequestStatus::Requested);
    let req = state.sent_request.as_ref().unwrap();
    assert_eq!(req.base_asset_denom, "uosmo");
    assert_eq!(req.quote_asset_denom, "ujpy");
    assert_eq!(req.query_address, "addr2");
}
