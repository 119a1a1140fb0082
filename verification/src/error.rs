//! The ways in which an edit can fail, and what a caller is told of each.

use vstd::prelude::*;
use vstd::string::StringExecFns;

verus! {

/// Why an edit did not produce a text.
#[derive(Debug, PartialEq, Eq)]
pub enum EditError {
    /// The command is none of the recognized ones.
    InvalidCommand,
    /// The completion service answered with success and no choice.
    EmptyCompletion,
    /// The completion service refused, and said why.
    UpstreamError(String),
    /// The completion service refused without a message.
    UnknownUpstreamFailure,
    /// No well-formed answer came back from the completion service.
    TransportError,
    /// The credential for the completion service is not configured.
    MissingConfiguration,
}

/// The mathematical value of an `EditError`.
pub ghost enum Failure {
    InvalidCommand,
    EmptyCompletion,
    UpstreamError(Seq<char>),
    UnknownUpstreamFailure,
    TransportError,
    MissingConfiguration,
}

impl View for EditError {
    type V = Failure;

    open spec fn view(&self) -> Failure {
        match self {
            EditError::InvalidCommand => Failure::InvalidCommand,
            EditError::EmptyCompletion => Failure::EmptyCompletion,
            EditError::UpstreamError(message) => Failure::UpstreamError(message@),
            EditError::UnknownUpstreamFailure => Failure::UnknownUpstreamFailure,
            EditError::TransportError => Failure::TransportError,
            EditError::MissingConfiguration => Failure::MissingConfiguration,
        }
    }
}

impl Clone for EditError {
    fn clone(&self) -> (r: Self)
        ensures
            r@ == self@,
    {
        match self {
            EditError::InvalidCommand => EditError::InvalidCommand,
            EditError::EmptyCompletion => EditError::EmptyCompletion,
            EditError::UpstreamError(message) => EditError::UpstreamError(message.clone()),
            EditError::UnknownUpstreamFailure => EditError::UnknownUpstreamFailure,
            EditError::TransportError => EditError::TransportError,
            EditError::MissingConfiguration => EditError::MissingConfiguration,
        }
    }
}

impl Failure {
    /// The HTTP status under which the failure is reported: 400 where the
    /// caller's request was at fault, 500 where this service is not set up,
    /// 502 where the completion service or the way to it failed.
    pub open spec fn status(self) -> u16 {
        match self {
            Failure::InvalidCommand => 400,
            Failure::MissingConfiguration => 500,
            Failure::EmptyCompletion => 502,
            Failure::UpstreamError(_) => 502,
            Failure::UnknownUpstreamFailure => 502,
            Failure::TransportError => 502,
        }
    }

    /// The sentence that describes the failure to a reader.
    pub open spec fn message(self) -> Seq<char> {
        match self {
            Failure::InvalidCommand => "Invalid action type"@,
            Failure::EmptyCompletion => "No choices found in the response"@,
            Failure::UpstreamError(message) => "API Error: "@ + message,
            Failure::UnknownUpstreamFailure => "Unknown error occurred"@,
            Failure::TransportError => "Upstream request failed"@,
            Failure::MissingConfiguration => "API_KEY is not set"@,
        }
    }
}

impl EditError {
    /// The HTTP status under which this error is reported.
    pub fn status_code(&self) -> (code: u16)
        ensures
            code == self@.status(),
    {
        match self {
            EditError::InvalidCommand => 400,
            EditError::MissingConfiguration => 500,
            EditError::EmptyCompletion => 502,
            EditError::UpstreamError(_) => 502,
            EditError::UnknownUpstreamFailure => 502,
            EditError::TransportError => 502,
        }
    }

    /// The sentence that describes this error to a reader.
    pub fn message(&self) -> (text: String)
        ensures
            text@ == self@.message(),
    {
        match self {
            EditError::InvalidCommand => "Invalid action type".to_owned(),
            EditError::EmptyCompletion => "No choices found in the response".to_owned(),
            EditError::UpstreamError(message) => "API Error: ".to_owned().concat(message.as_str()),
            EditError::UnknownUpstreamFailure => "Unknown error occurred".to_owned(),
            EditError::TransportError => "Upstream request failed".to_owned(),
            EditError::MissingConfiguration => "API_KEY is not set".to_owned(),
        }
    }
}

/// A reported failure never carries a status of the success class, and the
/// status tells the three sources of failure apart.
pub proof fn lemma_failure_status(failure: Failure)
    ensures
        failure.status() == 400 || failure.status() == 500 || failure.status() == 502,
        failure.status() == 400 <==> failure is InvalidCommand,
        failure.status() == 500 <==> failure is MissingConfiguration,
{
}

} // verus!
