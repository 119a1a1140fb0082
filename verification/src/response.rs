//! What the completion service's answer means for the caller.

use crate::error::EditError;
use crate::error::Failure;
use crate::request::PromptMessage;
use crate::request::Turn;
use crate::text::trim;
use crate::text::trimmed;
use vstd::prelude::*;

verus! {

/// One candidate completion.
#[derive(Debug, PartialEq, Eq)]
pub struct ChatChoice {
    pub message: PromptMessage,
}

impl Clone for ChatChoice {
    fn clone(&self) -> (r: Self)
        ensures
            r.message@ == self.message@,
    {
        ChatChoice { message: self.message.clone() }
    }
}

/// The reason that the completion service gives for a refusal.
#[derive(Debug, PartialEq, Eq)]
pub struct UpstreamMessage {
    pub message: String,
}

impl Clone for UpstreamMessage {
    fn clone(&self) -> (r: Self)
        ensures
            r.message@ == self.message@,
    {
        UpstreamMessage { message: self.message.clone() }
    }
}

/// The body of the completion service's answer: the choices, the reason of
/// a refusal, both or neither, as they were sent.
#[derive(Debug, PartialEq, Eq)]
pub struct CompletionResponse {
    pub choices: Option<Vec<ChatChoice>>,
    pub error: Option<UpstreamMessage>,
}

/// The mathematical value of a `CompletionResponse`: the turns of its
/// choices in their order, and the message of its error.
pub ghost struct Answer {
    pub choices: Option<Seq<Turn>>,
    pub error: Option<Seq<char>>,
}

impl View for CompletionResponse {
    type V = Answer;

    open spec fn view(&self) -> Answer {
        Answer {
            choices: match self.choices {
                Some(choices) => Some(choices@.map_values(|c: ChatChoice| c.message@)),
                None => None,
            },
            error: match self.error {
                Some(e) => Some(e.message@),
                None => None,
            },
        }
    }
}

impl Clone for CompletionResponse {
    fn clone(&self) -> (r: Self)
        ensures
            r@ == self@,
    {
        let choices = match &self.choices {
            Some(choices) => Some(choices.clone()),
            None => None,
        };
        let error = match &self.error {
            Some(e) => Some(e.clone()),
            None => None,
        };
        let r = CompletionResponse { choices, error };
        assert(r@.choices is Some ==> r@.choices->Some_0 =~= self@.choices->Some_0);
        r
    }
}

/// Whether an HTTP status lies in the success class, 200 to 299.
pub open spec fn is_success_status(status: u16) -> bool {
    200 <= status < 300
}

impl Answer {
    /// What an answer that came with `status` means. Under a status of the
    /// success class the first choice counts, trimmed, and an answer without
    /// one is empty; under any other status the error's message counts, and
    /// an answer without one is an unknown failure.
    pub open spec fn outcome(self, status: u16) -> Result<Seq<char>, Failure> {
        if is_success_status(status) {
            match self.choices {
                Some(choices) if choices.len() > 0 => Ok(trimmed(choices[0].content)),
                _ => Err(Failure::EmptyCompletion),
            }
        } else {
            match self.error {
                Some(message) => Err(Failure::UpstreamError(message)),
                None => Err(Failure::UnknownUpstreamFailure),
            }
        }
    }
}

/// The views of an edit's result.
pub open spec fn edit_result_view(r: Result<String, EditError>) -> Result<Seq<char>, Failure> {
    match r {
        Ok(text) => Ok(text@),
        Err(e) => Err(e@),
    }
}

/// Whether `status` is a number that an HTTP status can have, 100 to 999.
pub open spec fn is_status_number(status: u16) -> bool {
    100 <= status < 1000
}

/// Calls `reqwest::StatusCode::from_u16` and, on the status that it gives,
/// `is_success`. The first accepts the numbers from 100 to 999 and refuses
/// every other; the second holds of the numbers from 200 to 299.
#[verifier::external_body]
fn status_class(status: u16) -> (r: Option<bool>)
    ensures
        r == if is_status_number(status) {
            Some(is_success_status(status))
        } else {
            None::<bool>
        },
{
    match reqwest::StatusCode::from_u16(status) {
        Ok(code) => Some(code.is_success()),
        Err(_) => None,
    }
}

/// Whether `status` lies in the success class. A number that no HTTP status
/// can have does not.
pub fn succeeded(status: u16) -> (r: bool)
    ensures
        r == is_success_status(status),
{
    match status_class(status) {
        Some(success) => success,
        None => false,
    }
}

/// The edited text that an answer with `status` and `body` carries, or the
/// failure that it reports.
pub fn interpret_response(status: u16, body: &CompletionResponse) -> (r: Result<String, EditError>)
    ensures
        edit_result_view(r) == body@.outcome(status),
{
    if succeeded(status) {
        if let Some(choices) = &body.choices {
            if choices.len() > 0 {
                return Ok(trim(choices[0].message.content.as_str()).to_owned());
            }
        }
        Err(EditError::EmptyCompletion)
    } else if let Some(error) = &body.error {
        Err(EditError::UpstreamError(error.message.clone()))
    } else {
        Err(EditError::UnknownUpstreamFailure)
    }
}

/// How the call to the completion service ended.
#[derive(Debug, PartialEq, Eq)]
pub enum UpstreamOutcome {
    /// The service could not be reached in time, or what it sent was no
    /// well-formed answer.
    Failed,
    /// The service answered.
    Answered { status: u16, body: CompletionResponse },
}

impl Clone for UpstreamOutcome {
    fn clone(&self) -> (r: Self)
        ensures
            match (*self, r) {
                (UpstreamOutcome::Failed, UpstreamOutcome::Failed) => true,
                (
                    UpstreamOutcome::Answered { status: s1, body: b1 },
                    UpstreamOutcome::Answered { status: s2, body: b2 },
                ) => s1 == s2 && b1@ == b2@,
                _ => false,
            },
    {
        match self {
            UpstreamOutcome::Failed => UpstreamOutcome::Failed,
            UpstreamOutcome::Answered { status, body } => UpstreamOutcome::Answered {
                status: *status,
                body: body.clone(),
            },
        }
    }
}

impl UpstreamOutcome {
    /// What the outcome means for the caller.
    pub open spec fn result(self) -> Result<Seq<char>, Failure> {
        match self {
            UpstreamOutcome::Failed => Err(Failure::TransportError),
            UpstreamOutcome::Answered { status, body } => body@.outcome(status),
        }
    }
}

/// The edited text or the failure in which the call to the completion
/// service ended.
pub fn conclude(outcome: &UpstreamOutcome) -> (r: Result<String, EditError>)
    ensures
        edit_result_view(r) == outcome.result(),
{
    match outcome {
        UpstreamOutcome::Failed => Err(EditError::TransportError),
        UpstreamOutcome::Answered { status, body } => interpret_response(*status, body),
    }
}

} // verus!
