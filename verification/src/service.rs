//! The service's inbound side: where it listens, and the reply that a
//! caller gets for each way an edit can end.

use crate::command::Command;
use crate::error::EditError;
use crate::error::Failure;
use crate::request::planned_call;
use crate::request::Call;
use crate::response::edit_result_view;
use crate::response::is_success_status;
use crate::response::Answer;
use crate::text::trimmed;
use vstd::prelude::*;

verus! {

/// The path on which edits are asked for, by POST.
pub const ROUTE: &'static str = "/proc";

/// The host on which the service listens.
pub const LISTEN_HOST: &'static str = "127.0.0.1";

/// The port on which the service listens.
pub const LISTEN_PORT: u16 = 8080;

/// The environment variable that holds the credential.
pub const API_KEY_VARIABLE: &'static str = "API_KEY";

/// The status of a reply that carries an edited text.
pub const OK_STATUS: u16 = 200;

/// What the caller is sent.
#[derive(Debug, PartialEq, Eq)]
pub enum Reply {
    /// The edited text, which is the whole body: one JSON string.
    Edited(String),
    /// A failure, with the HTTP status and the message that report it.
    Failed { status: u16, message: String },
}

/// The mathematical value of a `Reply`.
pub ghost enum Response {
    Edited(Seq<char>),
    Failed { status: u16, message: Seq<char> },
}

impl View for Reply {
    type V = Response;

    open spec fn view(&self) -> Response {
        match self {
            Reply::Edited(text) => Response::Edited(text@),
            Reply::Failed { status, message } => Response::Failed {
                status: *status,
                message: message@,
            },
        }
    }
}

impl Clone for Reply {
    fn clone(&self) -> (r: Self)
        ensures
            r@ == self@,
    {
        match self {
            Reply::Edited(text) => Reply::Edited(text.clone()),
            Reply::Failed { status, message } => Reply::Failed {
                status: *status,
                message: message.clone(),
            },
        }
    }
}

impl Response {
    /// The reply to an edit that ended in `result`: the text as it is, or
    /// the failure under its status and with its message.
    pub open spec fn to(result: Result<Seq<char>, Failure>) -> Response {
        match result {
            Ok(text) => Response::Edited(text),
            Err(failure) => Response::Failed {
                status: failure.status(),
                message: failure.message(),
            },
        }
    }

    /// The HTTP status of the reply.
    pub open spec fn status(self) -> u16 {
        match self {
            Response::Edited(_) => OK_STATUS,
            Response::Failed { status, .. } => status,
        }
    }
}

impl Reply {
    /// The HTTP status under which the reply is sent.
    pub fn status(&self) -> (code: u16)
        ensures
            code == self@.status(),
    {
        match self {
            Reply::Edited(_) => OK_STATUS,
            Reply::Failed { status, .. } => *status,
        }
    }
}

/// The reply to an edit that ended in `result`. Every failure becomes a
/// reply: none is left to end the service.
pub fn respond(result: Result<String, EditError>) -> (reply: Reply)
    ensures
        reply@ == Response::to(edit_result_view(result)),
{
    match result {
        Ok(text) => Reply::Edited(text),
        Err(e) => Reply::Failed { status: e.status_code(), message: e.message() },
    }
}

/// A reply has a status of the success class exactly when it carries an
/// edited text.
pub proof fn lemma_reply_status(result: Result<Seq<char>, Failure>)
    ensures
        is_success_status(Response::to(result).status()) <==> result is Ok,
        result is Ok ==> Response::to(result) == Response::Edited(result->Ok_0),
{
}

/// A command that is not recognized ends in the status 400 before anything
/// is sent, whatever the text and whether or not a credential is there.
pub proof fn lemma_invalid_command_is_refused(
    command: Seq<char>,
    text: Seq<char>,
    api_key: Option<Seq<char>>,
)
    requires
        Command::recognized(command) is None,
    ensures
        planned_call(command, text, api_key) == Err::<Call, Failure>(Failure::InvalidCommand),
        Response::to(Err(Failure::InvalidCommand)).status() == 400,
{
}

/// Where the completion service answers with success and at least one
/// choice, the caller's reply is the first choice's content, trimmed, and
/// nothing else.
pub proof fn lemma_reply_is_trimmed_completion(status: u16, answer: Answer)
    requires
        is_success_status(status),
        answer.choices is Some,
        answer.choices->Some_0.len() > 0,
    ensures
        Response::to(answer.outcome(status)) == Response::Edited(
            trimmed(answer.choices->Some_0[0].content),
        ),
{
}

} // verus!
