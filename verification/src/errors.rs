//! Error taxonomy and the per-interaction delivery outcome.
use vstd::prelude::*;

verus! {

/// Errors the generation client can report for one remote call.
#[derive(Debug)]
pub enum GenerationError {
    /// Connection, timeout or transport failure; carries the transport's
    /// own description of what went wrong.
    NetworkError(String),
    /// Malformed or structurally incomplete reply; carries which part of
    /// the structure was missing.
    ProtocolError(String),
    /// The request could not be encoded for the wire.
    SerializationError(String),
}

impl GenerationError {
    /// The user-visible string form of the error.
    pub open spec fn spec_message(self) -> Seq<char> {
        match self {
            GenerationError::NetworkError(d) => d@,
            GenerationError::ProtocolError(d) => d@,
            GenerationError::SerializationError(d) => d@,
        }
    }

    /// Returns the user-visible string form of the error.
    pub fn message(&self) -> (m: String)
        ensures
            m@ == self.spec_message(),
    {
        match self {
            GenerationError::NetworkError(d) => d.clone(),
            GenerationError::ProtocolError(d) => d.clone(),
            GenerationError::SerializationError(d) => d.clone(),
        }
    }
}

/// Why an interaction ends in the failed state.
#[derive(Debug)]
pub enum FailureReason {
    /// The generation client reported an error.
    Generation(GenerationError),
    /// The inbound command name is not one this bot handles.
    NotImplemented,
}

impl FailureReason {
    /// The text embedded in the user-visible failure message.
    pub open spec fn spec_text(self) -> Seq<char> {
        match self {
            FailureReason::Generation(e) => e.spec_message(),
            FailureReason::NotImplemented => "not implemented :("@,
        }
    }

    /// Returns the text embedded in the user-visible failure message.
    pub fn text(&self) -> (t: String)
        ensures
            t@ == self.spec_text(),
    {
        match self {
            FailureReason::Generation(e) => e.message(),
            FailureReason::NotImplemented => String::from_str("not implemented :("),
        }
    }
}

/// The single outcome of one interaction, produced once and consumed
/// exactly once by response delivery.
#[derive(Debug)]
pub enum DeliveryOutcome {
    /// The generated text to relay to the requester.
    Success(String),
    /// The failure to report to the requester.
    Failure(FailureReason),
}

} // verus!
