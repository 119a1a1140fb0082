use edit_proxy::command::Command;
use edit_proxy::error::EditError;
use edit_proxy::request::authorization;
use edit_proxy::request::prepare_call;
use edit_proxy::request::EditRequest;
use edit_proxy::request::PromptMessage;
use edit_proxy::request::ENDPOINT;
use edit_proxy::request::MAX_TOKENS;
use edit_proxy::request::MODEL;
use edit_proxy::request::TEMPERATURE_TENTHS;

#[test]
fn request_keeps_text_and_command() {
    let r = EditRequest::new("expand", "some text").unwrap();
    assert_eq!(r.command, Command::Expand);
    assert_eq!(r.text, "some text");
}

#[test]
fn request_refuses_unknown_command() {
    assert_eq!(EditRequest::new("shrink", "some text"), Err(EditError::InvalidCommand));
    assert_eq!(EditRequest::new("", ""), Err(EditError::InvalidCommand));
}

#[test]
fn prompt_message_is_one_user_turn() {
    let r = EditRequest::new("summarize", "Hello world").unwrap();
    assert_eq!(
        r.prompt_message(),
        PromptMessage {
            role: "user".to_string(),
            content: "Summarize this text: Hello world".to_string(),
        }
    );
}

#[test]
fn completion_request_has_fixed_parameters() {
    let r = EditRequest::new("translate", "Hello world").unwrap().completion_request();
    assert_eq!(r.model, "gpt-3.5-turbo");
    assert_eq!(r.max_tokens, 100);
    assert_eq!(r.temperature_tenths, 7);
    assert_eq!(r.messages.len(), 1);
    assert_eq!(r.messages[0].role, "user");
    assert_eq!(r.messages[0].content, "Translate this text into French: Hello world");
}

#[test]
fn fixed_parameters_have_their_values() {
    assert_eq!(MODEL, "gpt-3.5-turbo");
    assert_eq!(MAX_TOKENS, 100);
    assert_eq!(TEMPERATURE_TENTHS as f32 / 10.0, 0.7f32);
    assert_eq!(ENDPOINT, "https://api.openai.com/v1/chat/completions");
}

#[test]
fn authorization_is_bearer_and_key() {
    assert_eq!(authorization("sk-test"), "Bearer sk-test");
    assert_eq!(authorization(""), "Bearer ");
}

#[test]
fn prepared_call_goes_to_the_endpoint_with_the_key() {
    let call = prepare_call("paraphrase", "Hello world", Some("sk-test")).unwrap();
    assert_eq!(call.url, "https://api.openai.com/v1/chat/completions");
    assert_eq!(call.authorization, "Bearer sk-test");
    assert_eq!(call.body, EditRequest::new("paraphrase", "Hello world").unwrap().completion_request());
    assert_eq!(call.body.messages[0].content, "Paraphrase this text: Hello world");
}

#[test]
fn invalid_command_prepares_no_call() {
    assert_eq!(prepare_call("delete", "Hello world", Some("sk-test")), Err(EditError::InvalidCommand));
    assert_eq!(prepare_call("delete", "Hello world", None), Err(EditError::InvalidCommand));
    assert_eq!(prepare_call("", "", Some("")), Err(EditError::InvalidCommand));
}

#[test]
fn missing_key_prepares_no_call() {
    assert_eq!(prepare_call("expand", "Hello world", None), Err(EditError::MissingConfiguration));
}

#[test]
fn empty_text_is_accepted() {
    let call = prepare_call("summarize", "", Some("k")).unwrap();
    assert_eq!(call.body.messages[0].content, "Summarize this text: ");
}
