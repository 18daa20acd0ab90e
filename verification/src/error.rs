//! The reasons for which the ledger rejects an operation.

use vstd::prelude::*;
use vstd::string::StringExecFns;

verus! {

/// Why an operation was rejected. A rejected operation leaves the ledger as it was.
#[derive(Clone, Copy, Debug, PartialEq, Eq, Structural)]
pub enum MarketError {
    /// The deadline of a request is not strictly in the future.
    InvalidDeadline,
    /// A request carries no input.
    EmptyInput,
    /// No registered prover supports the backend that a request names.
    NoEligibleProver,
    /// A response carries no proof.
    EmptyProof,
    /// A prover lists no backend.
    NoBackends,
    /// A bid estimates more than one hour.
    EstimateTooLong,
    /// The request, bid or proof is unknown.
    NotFound,
    /// The request no longer takes bids.
    RequestClosed,
    /// A proof was submitted for a request that is not in progress.
    RequestNotInProgress,
    /// The request can no longer be cancelled.
    InvalidState,
    /// Somebody other than the requester tried to cancel.
    Unauthorized,
    /// A prover with this id is registered already.
    AlreadyRegistered,
}

impl MarketError {
    /// The category of the error as text.
    pub open spec fn name(self) -> Seq<char> {
        match self {
            MarketError::InvalidDeadline => "InvalidDeadline"@,
            MarketError::EmptyInput => "EmptyInput"@,
            MarketError::NoEligibleProver => "NoEligibleProver"@,
            MarketError::EmptyProof => "EmptyProof"@,
            MarketError::NoBackends => "NoBackends"@,
            MarketError::EstimateTooLong => "EstimateTooLong"@,
            MarketError::NotFound => "NotFound"@,
            MarketError::RequestClosed => "RequestClosed"@,
            MarketError::RequestNotInProgress => "RequestNotInProgress"@,
            MarketError::InvalidState => "InvalidState"@,
            MarketError::Unauthorized => "Unauthorized"@,
            MarketError::AlreadyRegistered => "AlreadyRegistered"@,
        }
    }

    /// The category of the error, as the key under which callers report it.
    pub fn as_str(&self) -> (s: &'static str)
        ensures
            s@ == self.name(),
    {
        match self {
            MarketError::InvalidDeadline => "InvalidDeadline",
            MarketError::EmptyInput => "EmptyInput",
            MarketError::NoEligibleProver => "NoEligibleProver",
            MarketError::EmptyProof => "EmptyProof",
            MarketError::NoBackends => "NoBackends",
            MarketError::EstimateTooLong => "EstimateTooLong",
            MarketError::NotFound => "NotFound",
            MarketError::RequestClosed => "RequestClosed",
            MarketError::RequestNotInProgress => "RequestNotInProgress",
            MarketError::InvalidState => "InvalidState",
            MarketError::Unauthorized => "Unauthorized",
            MarketError::AlreadyRegistered => "AlreadyRegistered",
        }
    }

    /// The category of the error as an owned string.
    pub fn message(&self) -> (s: String)
        ensures
            s@ == self.name(),
    {
        String::from_str(self.as_str())
    }
}

} // verus!
