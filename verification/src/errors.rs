//! Error taxonomy of the relayer core.
//!
//! Validation and protocol violations abort only the action that raised
//! them; the worker surfaces them and goes on with later events.

use vstd::prelude::*;

verus! {

/// Rejections raised before anything is submitted to a chain:
/// malformed identifiers, versions, or counterparty data.
#[derive(Clone, Copy, Debug, PartialEq, Eq, Structural)]
pub enum ValidationError {
    InvalidIdentifier,
    InvalidVersion,
    InvalidState,
    MissingCounterparty,
    MissingCounterpartyPrefix,
}

/// Failures of the channel handshake or of channel lookup.
#[derive(Clone, Copy, Debug, PartialEq, Eq, Structural)]
pub enum ChannelError {
    OrderingMismatch,
    ChannelNotFound,
}

/// Failures of the foreign-client lifecycle.
#[derive(Clone, Copy, Debug, PartialEq, Eq, Structural)]
pub enum ClientError {
    ClientCreationFailed,
    ClientExpired,
    UntrustedHeader,
}

/// Failures of the token-transfer application module.
#[derive(Clone, Copy, Debug, PartialEq, Eq, Structural)]
pub enum TransferError {
    BalanceOverflow,
}

/// An envelope for which no handler is registered is rejected,
/// never silently dropped.
#[derive(Clone, Copy, Debug, PartialEq, Eq, Structural)]
pub enum RoutingError {
    UnroutableMessage,
}

} // verus!
