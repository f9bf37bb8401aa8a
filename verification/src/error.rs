//! Failure taxonomy of the node's operations.

use vstd::prelude::*;

verus! {

/// Everything that can make an operation of this node fail.
///
/// Local errors (identity, correlation, parsing, arithmetic, missing
/// state) abort the current invocation; the host rolls the enclosing
/// transaction back, so a failed operation never leaves a partial state
/// change behind. A *remote* failure reported through the asynchronous
/// outcome channel is deliberately not represented here: it is converted
/// into data (status `Failed` plus an acknowledgement payload) instead of
/// a fatal error.
#[derive(Debug, Clone, Copy, PartialEq, Eq, Structural)]
pub enum ContractError {
    /// A bad or missing trusted-peer configuration.
    ConfigError,
    /// The address handed to a request did not pass the host's
    /// address validation.
    AddressInvalid,
    /// The sender of a price answer is not the trusted peer.
    Unauthorized,
    /// An asynchronous outcome arrived with a correlation id this node
    /// never attached to a dispatch.
    UnknownCorrelationId { id: u64 },
    /// The denominations of an incoming answer do not match the
    /// currently stored request.
    MismatchedRequest,
    /// The rate string is not a non-negative integer that fits the
    /// fixed-point representation.
    NumericParseError,
    /// `balance * rate` exceeds the representable range.
    ArithmeticOverflow,
    /// Division by zero in the converter (defensively handled; the
    /// divisor is a nonzero constant, so this is unreachable).
    DivisionError,
    /// A query or an answer arrived although no request was ever issued.
    NoRequestYet,
    /// The computed balance was asked for before a rate was committed.
    RateNotAvailable,
    /// The persistence collaborator could not hand back a stored value.
    StorageError,
}

} // verus!
