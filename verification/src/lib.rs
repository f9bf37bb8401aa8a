//! Client side of an asynchronous request/response protocol between two
//! isolated nodes that exchange addressed messages through a host bus.
//!
//! One node (the requester, modelled here) asks a trusted peer (the
//! currency hub) for a token exchange rate, tracks the in-flight request
//! through an explicit status state machine, validates the identity of
//! whoever answers, and finally combines the answered rate with an
//! externally observed balance using overflow-checked fixed-point
//! arithmetic.
//!
//! The host environment (message delivery, persistence durability,
//! address validation, wire encoding) is out of scope: every operation
//! here is a pure transition over the node's persisted state, taking the
//! host's answers (a validation outcome, an observed balance, an
//! asynchronous call outcome) as plain arguments.

pub mod ack;
pub mod contract;
pub mod error;
pub mod laws;
pub mod msg;
pub mod numeric;
pub mod relay;
pub mod response;
pub mod state;
