//! What is sent to the completion service for an edit: one chat turn with
//! the rendered prompt, under fixed parameters.

use crate::command::Command;
use crate::error::EditError;
use crate::error::Failure;
use vstd::prelude::*;
use vstd::string::StringExecFns;

verus! {

/// The model that every completion is asked of.
pub const MODEL: &'static str = "gpt-3.5-turbo";

/// The role under which the prompt is sent.
pub const USER_ROLE: &'static str = "user";

/// The most tokens that a completion may have.
pub const MAX_TOKENS: usize = 100;

/// The sampling temperature, in tenths: 7 stands for 0.7.
pub const TEMPERATURE_TENTHS: u32 = 7;

/// Where completions are asked for, by POST.
pub const ENDPOINT: &'static str = "https://api.openai.com/v1/chat/completions";

/// The header that carries the credential.
pub const AUTHORIZATION_HEADER: &'static str = "Authorization";

/// What precedes the credential in the header's value.
pub const BEARER_PREFIX: &'static str = "Bearer ";

/// One turn of a chat.
#[derive(Debug, PartialEq, Eq)]
pub struct PromptMessage {
    pub role: String,
    pub content: String,
}

/// The mathematical value of a `PromptMessage`.
pub ghost struct Turn {
    pub role: Seq<char>,
    pub content: Seq<char>,
}

impl View for PromptMessage {
    type V = Turn;

    open spec fn view(&self) -> Turn {
        Turn { role: self.role@, content: self.content@ }
    }
}

impl Clone for PromptMessage {
    fn clone(&self) -> (r: Self)
        ensures
            r@ == self@,
    {
        PromptMessage { role: self.role.clone(), content: self.content.clone() }
    }
}

/// The body of a request for a completion.
#[derive(Debug, PartialEq, Eq)]
pub struct CompletionRequest {
    pub model: String,
    pub messages: Vec<PromptMessage>,
    pub max_tokens: usize,
    /// The sampling temperature in tenths.
    pub temperature_tenths: u32,
}

/// The mathematical value of a `CompletionRequest`.
pub ghost struct CompletionQuery {
    pub model: Seq<char>,
    pub messages: Seq<Turn>,
    pub max_tokens: nat,
    pub temperature_tenths: nat,
}

impl View for CompletionRequest {
    type V = CompletionQuery;

    open spec fn view(&self) -> CompletionQuery {
        CompletionQuery {
            model: self.model@,
            messages: self.messages@.map_values(|m: PromptMessage| m@),
            max_tokens: self.max_tokens as nat,
            temperature_tenths: self.temperature_tenths as nat,
        }
    }
}

impl Clone for CompletionRequest {
    fn clone(&self) -> (r: Self)
        ensures
            r@ == self@,
    {
        let r = CompletionRequest {
            model: self.model.clone(),
            messages: self.messages.clone(),
            max_tokens: self.max_tokens,
            temperature_tenths: self.temperature_tenths,
        };
        assert(r@.messages =~= self@.messages);
        r
    }
}

/// The query that carries `prompt`: the fixed model and parameters, and the
/// prompt as the only turn, under the user's role.
pub open spec fn query_for(prompt: Seq<char>) -> CompletionQuery {
    CompletionQuery {
        model: MODEL@,
        messages: seq![Turn { role: USER_ROLE@, content: prompt }],
        max_tokens: MAX_TOKENS as nat,
        temperature_tenths: TEMPERATURE_TENTHS as nat,
    }
}

/// A text and what is to be done with it.
#[derive(Debug, PartialEq, Eq)]
pub struct EditRequest {
    pub text: String,
    pub command: Command,
}

/// The mathematical value of an `EditRequest`.
pub ghost struct Edit {
    pub text: Seq<char>,
    pub command: Command,
}

impl View for EditRequest {
    type V = Edit;

    open spec fn view(&self) -> Edit {
        Edit { text: self.text@, command: self.command }
    }
}

impl Clone for EditRequest {
    fn clone(&self) -> (r: Self)
        ensures
            r@ == self@,
    {
        EditRequest { text: self.text.clone(), command: self.command }
    }
}

impl Edit {
    /// The edit that a caller asks for with the word `command` on `text`.
    pub open spec fn asked(command: Seq<char>, text: Seq<char>) -> Option<Edit> {
        match Command::recognized(command) {
            Some(c) => Some(Edit { text, command: c }),
            None => None,
        }
    }

    /// The prompt that asks for this edit.
    pub open spec fn prompt(self) -> Seq<char> {
        self.command.prompt(self.text)
    }

    /// The query that asks for this edit.
    pub open spec fn query(self) -> CompletionQuery {
        query_for(self.prompt())
    }
}

impl EditRequest {
    /// The request for the command that `command` names, on `text`.
    /// A word that names no command is refused.
    pub fn new(command: &str, text: &str) -> (r: Result<EditRequest, EditError>)
        ensures
            match Edit::asked(command@, text@) {
                Some(edit) => r is Ok && r->Ok_0@ == edit,
                None => r is Err && r->Err_0@ == Failure::InvalidCommand,
            },
    {
        match Command::parse(command) {
            Some(c) => Ok(EditRequest { text: text.to_owned(), command: c }),
            None => Err(EditError::InvalidCommand),
        }
    }

    /// The one chat turn that asks for this edit.
    pub fn prompt_message(&self) -> (m: PromptMessage)
        ensures
            m@ == (Turn { role: USER_ROLE@, content: self@.prompt() }),
    {
        PromptMessage {
            role: USER_ROLE.to_owned(),
            content: self.command.render(self.text.as_str()),
        }
    }

    /// The body of the request that asks for this edit.
    pub fn completion_request(&self) -> (r: CompletionRequest)
        ensures
            r@ == self@.query(),
    {
        let mut messages: Vec<PromptMessage> = Vec::new();
        messages.push(self.prompt_message());
        let r = CompletionRequest {
            model: MODEL.to_owned(),
            messages,
            max_tokens: MAX_TOKENS,
            temperature_tenths: TEMPERATURE_TENTHS,
        };
        assert(r@.messages =~= self@.query().messages);
        r
    }
}

/// One request to the completion service, ready to be sent by POST.
#[derive(Debug, PartialEq, Eq)]
pub struct OutboundCall {
    pub url: String,
    /// The value of the `Authorization` header.
    pub authorization: String,
    pub body: CompletionRequest,
}

/// The mathematical value of an `OutboundCall`.
pub ghost struct Call {
    pub url: Seq<char>,
    pub authorization: Seq<char>,
    pub body: CompletionQuery,
}

impl View for OutboundCall {
    type V = Call;

    open spec fn view(&self) -> Call {
        Call { url: self.url@, authorization: self.authorization@, body: self.body@ }
    }
}

impl Clone for OutboundCall {
    fn clone(&self) -> (r: Self)
        ensures
            r@ == self@,
    {
        OutboundCall {
            url: self.url.clone(),
            authorization: self.authorization.clone(),
            body: self.body.clone(),
        }
    }
}

/// What is to happen for a caller's `command` and `text`, with the
/// credential `api_key` where one is configured: a word that names no
/// command is refused whatever else holds, then a missing credential is
/// reported, and otherwise one call goes out.
pub open spec fn planned_call(
    command: Seq<char>,
    text: Seq<char>,
    api_key: Option<Seq<char>>,
) -> Result<Call, Failure> {
    match Edit::asked(command, text) {
        None => Err(Failure::InvalidCommand),
        Some(edit) => match api_key {
            None => Err(Failure::MissingConfiguration),
            Some(key) => Ok(
                Call { url: ENDPOINT@, authorization: BEARER_PREFIX@ + key, body: edit.query() },
            ),
        },
    }
}

/// The views of a result of `prepare_call`.
pub open spec fn call_result_view(r: Result<OutboundCall, EditError>) -> Result<Call, Failure> {
    match r {
        Ok(call) => Ok(call@),
        Err(e) => Err(e@),
    }
}

/// The views of an optional credential.
pub open spec fn key_view(api_key: Option<&str>) -> Option<Seq<char>> {
    match api_key {
        Some(key) => Some(key@),
        None => None,
    }
}

/// The value of the `Authorization` header for the credential `api_key`.
pub fn authorization(api_key: &str) -> (r: String)
    ensures
        r@ == BEARER_PREFIX@ + api_key@,
{
    BEARER_PREFIX.to_owned().concat(api_key)
}

/// Decides what is sent for a caller's `command` and `text`. The call is
/// there to be sent only where the result is `Ok`.
pub fn prepare_call(command: &str, text: &str, api_key: Option<&str>) -> (r: Result<
    OutboundCall,
    EditError,
>)
    ensures
        call_result_view(r) == planned_call(command@, text@, key_view(api_key)),
{
    let request = match EditRequest::new(command, text) {
        Ok(request) => request,
        Err(e) => {
            return Err(e);
        },
    };
    match api_key {
        None => Err(EditError::MissingConfiguration),
        Some(key) => Ok(
            OutboundCall {
                url: ENDPOINT.to_owned(),
                authorization: authorization(key),
                body: request.completion_request(),
            },
        ),
    }
}

} // verus!
