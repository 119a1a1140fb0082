use edit_proxy::error::EditError;
use edit_proxy::request::prepare_call;
use edit_proxy::request::PromptMessage;
use edit_proxy::response::conclude;
use edit_proxy::response::ChatChoice;
use edit_proxy::response::CompletionResponse;
use edit_proxy::response::UpstreamOutcome;
use edit_proxy::service::respond;
use edit_proxy::service::Reply;
use edit_proxy::service::API_KEY_VARIABLE;
use edit_proxy::service::LISTEN_HOST;
use edit_proxy::service::LISTEN_PORT;
use edit_proxy::service::OK_STATUS;
use edit_proxy::service::ROUTE;

#[test]
fn successful_reply_is_the_trimmed_completion() {
    let body = CompletionResponse {
        choices: Some(vec![ChatChoice {
            message: PromptMessage {
                role: "assistant".to_string(),
                content: "  Bonjour le monde  ".to_string(),
            },
        }]),
        error: None,
    };
    assert!(prepare_call("translate", "Hello world", Some("sk-test")).is_ok());
    let reply = respond(conclude(&UpstreamOutcome::Answered { status: 200, body }));
    assert_eq!(reply, Reply::Edited("Bonjour le monde".to_string()));
    assert_eq!(reply.status(), 200);
}

#[test]
fn each_error_has_its_status() {
    assert_eq!(EditError::InvalidCommand.status_code(), 400);
    assert_eq!(EditError::MissingConfiguration.status_code(), 500);
    assert_eq!(EditError::EmptyCompletion.status_code(), 502);
    assert_eq!(EditError::UpstreamError("x".to_string()).status_code(), 502);
    assert_eq!(EditError::UnknownUpstreamFailure.status_code(), 502);
    assert_eq!(EditError::TransportError.status_code(), 502);
}

#[test]
fn each_error_has_its_message() {
    assert_eq!(EditError::InvalidCommand.message(), "Invalid action type");
    assert_eq!(EditError::EmptyCompletion.message(), "No choices found in the response");
    assert_eq!(
        EditError::UpstreamError("rate limited".to_string()).message(),
        "API Error: rate limited"
    );
    assert_eq!(EditError::UnknownUpstreamFailure.message(), "Unknown error occurred");
    assert_eq!(EditError::TransportError.message(), "Upstream request failed");
    assert_eq!(EditError::MissingConfiguration.message(), "API_KEY is not set");
}

#[test]
fn failure_becomes_a_reply() {
    assert_eq!(
        respond(Err(EditError::InvalidCommand)),
        Reply::Failed { status: 400, message: "Invalid action type".to_string() }
    );
    assert_eq!(
        respond(Err(EditError::UpstreamError("rate limited".to_string()))),
        Reply::Failed { status: 502, message: "API Error: rate limited".to_string() }
    );
    assert_eq!(
        respond(conclude(&UpstreamOutcome::Failed)),
        Reply::Failed { status: 502, message: "Upstream request failed".to_string() }
    );
    assert_eq!(
        respond(prepare_call("expand", "x", None).map(|_| String::new())),
        Reply::Failed { status: 500, message: "API_KEY is not set".to_string() }
    );
}

#[test]
fn reply_status_is_that_of_its_kind() {
    assert_eq!(Reply::Edited(String::new()).status(), OK_STATUS);
    assert_eq!(Reply::Failed { status: 502, message: String::new() }.status(), 502);
}

#[test]
fn service_constants() {
    assert_eq!(ROUTE, "/proc");
    assert_eq!(LISTEN_HOST, "127.0.0.1");
    assert_eq!(LISTEN_PORT, 8080);
    assert_eq!(API_KEY_VARIABLE, "API_KEY");
    assert_eq!(OK_STATUS, 200);
}

#[test]
fn clones_equal_what_they_were_made_from() {
    let call = prepare_call("expand", "Hello world", Some("sk-test")).unwrap();
    assert_eq!(call.clone(), call);
    let body = CompletionResponse {
        choices: Some(vec![ChatChoice {
            message: PromptMessage { role: "assistant".to_string(), content: "text".to_string() },
        }]),
        error: None,
    };
    let outcome = UpstreamOutcome::Answered { status: 200, body };
    assert_eq!(outcome.clone(), outcome);
    assert_eq!(UpstreamOutcome::Failed.clone(), UpstreamOutcome::Failed);
    let error = EditError::UpstreamError("rate limited".to_string());
    assert_eq!(error.clone(), error);
    let reply = respond(Err(error));
    assert_eq!(reply.clone(), reply);
}
