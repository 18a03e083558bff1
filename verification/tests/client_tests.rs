use code_assistant::client::{
    conclude_completion, prepare_completion, ClientError, Completion, Config, ErrorKind, Header,
    HttpRequest, PendingCompletion, Reply,
};
use code_assistant::history::History;
use code_assistant::payload::{Choice, Message, RequestPayload, ResponsePayload, Usage};

fn response_with(contents: &[&str]) -> ResponsePayload {
    let mut choices = Vec::new();
    for (i, content) in contents.iter().enumerate() {
        choices.push(Choice {
            message: Message { role: "assistant".to_string(), content: content.to_string() },
            finish_reason: "stop".to_string(),
            index: i as u32,
        });
    }
    ResponsePayload {
        id: "chatcmpl-1".to_string(),
        object: "chat.completion".to_string(),
        created: 1_700_000_000,
        model: "gpt".to_string(),
        choices,
        usage: Usage { prompt_tokens: 7, completion_tokens: 5, total_tokens: 3 },
    }
}

#[test]
fn request_has_one_user_message_and_fixed_parameters() {
    let request = RequestPayload::for_prompt("hello".to_string());
    assert_eq!(
        request,
        RequestPayload {
            messages: vec![Message { role: "user".to_string(), content: "hello".to_string() }],
            temperature_hundredths: 70,
            top_p_hundredths: 95,
            max_tokens: 800,
        }
    );
}

#[test]
fn user_message_keeps_its_content() {
    let message = Message::from_user("x y".to_string());
    assert_eq!(message.role, "user");
    assert_eq!(message.content, "x y");
}

#[test]
fn config_needs_both_settings() {
    let config = Config::resolve(Ok("https://h/x".to_string()), Ok("k".to_string()));
    assert_eq!(
        config,
        Ok(Config { api_endpoint: "https://h/x".to_string(), api_key: "k".to_string() })
    );
}

#[test]
fn missing_endpoint_is_reported_first() {
    let config = Config::resolve(
        Err("environment variable not found".to_string()),
        Err("other".to_string()),
    );
    assert_eq!(
        config,
        Err(ClientError {
            kind: ErrorKind::Config,
            message: "Failed to get API_ENDPOINT: environment variable not found".to_string(),
        })
    );
}

#[test]
fn missing_key_is_a_configuration_error() {
    let config =
        Config::resolve(Ok("https://h/x".to_string()), Err("environment variable not found".to_string()));
    assert_eq!(
        config,
        Err(ClientError {
            kind: ErrorKind::Config,
            message: "Failed to get API_KEY: environment variable not found".to_string(),
        })
    );
}

#[test]
fn missing_key_builds_no_request() {
    let pending = prepare_completion(
        Ok("https://h/x".to_string()),
        Err("environment variable not found".to_string()),
        "code",
        "Rust",
        "1",
    );
    let error = pending.unwrap_err();
    assert_eq!(error.kind, ErrorKind::Config);
    assert_eq!(error.describe(), "Failed to get API_KEY: environment variable not found");
}

#[test]
fn prepared_request_carries_prompt_key_and_endpoint() {
    let pending = prepare_completion(
        Ok("https://host/chat".to_string()),
        Ok("key-123".to_string()),
        "fn main() {",
        "Rust",
        "1",
    )
    .unwrap();
    let prompt = "Look into the user question: fn main() {. Try to help as much as possible to complete the code. The preferred language is Rust.";
    assert_eq!(pending.prompt, prompt);
    assert_eq!(
        pending.request,
        HttpRequest {
            url: "https://host/chat".to_string(),
            headers: vec![
                Header { name: "Content-Type".to_string(), value: "application/json".to_string() },
                Header { name: "api-key".to_string(), value: "key-123".to_string() },
            ],
            body: RequestPayload {
                messages: vec![Message { role: "user".to_string(), content: prompt.to_string() }],
                temperature_hundredths: 70,
                top_p_hundredths: 95,
                max_tokens: 800,
            },
        }
    );
}

#[test]
fn prepared_request_for_unknown_option_sends_the_fixed_text() {
    let pending =
        prepare_completion(Ok("u".to_string()), Ok("k".to_string()), "code", "Rust", "8").unwrap();
    assert_eq!(pending.prompt, "Invalid option provided.");
    assert_eq!(pending.request.body.messages.len(), 1);
    assert_eq!(pending.request.body.messages[0].content, "Invalid option provided.");
}

#[test]
fn key_is_sent_verbatim() {
    let config = Config { api_endpoint: "u".to_string(), api_key: "Bearer abc".to_string() };
    let request = HttpRequest::completion(&config, "p".to_string());
    assert_eq!(request.headers[1].name, "api-key");
    assert_eq!(request.headers[1].value, "Bearer abc");
    assert_eq!(request.headers.len(), 2);
}

#[test]
fn first_choice_is_the_answer_and_is_recorded_once() {
    let mut history = History::from_contents("earlier\n".to_string());
    let reply = Reply::Parsed(response_with(&["fn main() {}", "second"]));
    let exchange = conclude_completion(&mut history, "the prompt", reply).unwrap();
    assert_eq!(exchange.completion, Completion::Text("fn main() {}".to_string()));
    assert_eq!(exchange.completion.shown(), "fn main() {}");
    assert_eq!(exchange.record, "Prompt: the prompt\n\nResponse: fn main() {}\n\n");
    assert_eq!(history.contents(), "earlier\nPrompt: the prompt\n\nResponse: fn main() {}\n\n");
}

#[test]
fn no_choice_is_an_answer_not_an_error() {
    let mut history = History::new();
    let exchange =
        conclude_completion(&mut history, "p", Reply::Parsed(response_with(&[]))).unwrap();
    assert_eq!(exchange.completion, Completion::NoResponse);
    assert_eq!(exchange.completion.shown(), "No response generated.");
    assert_eq!(exchange.record, "Prompt: p\n\nResponse: No response generated.\n\n");
    assert_eq!(history.contents(), exchange.record);
}

#[test]
fn malformed_body_is_a_parse_error_and_records_nothing() {
    let mut history = History::from_contents("kept".to_string());
    let outcome = conclude_completion(
        &mut history,
        "p",
        Reply::Malformed("missing field `usage`".to_string()),
    );
    assert_eq!(
        outcome,
        Err(ClientError { kind: ErrorKind::Parse, message: "missing field `usage`".to_string() })
    );
    assert_eq!(history.contents(), "kept");
}

#[test]
fn failed_transport_is_a_request_error_and_records_nothing() {
    let mut history = History::new();
    let outcome =
        conclude_completion(&mut history, "p", Reply::Failed("connection refused".to_string()));
    let error = outcome.unwrap_err();
    assert_eq!(error.kind, ErrorKind::Request);
    assert_eq!(error.describe(), "connection refused");
    assert!(history.is_empty());
}

#[test]
fn usage_counts_are_not_checked() {
    let response = response_with(&["ok"]);
    assert_eq!(response.usage.total_tokens, 3);
    assert_eq!(Completion::of_response(&response), Completion::Text("ok".to_string()));
}

#[test]
fn empty_first_content_is_still_a_text() {
    let response = response_with(&[""]);
    assert_eq!(Completion::of_response(&response), Completion::Text(String::new()));
    assert_eq!(Completion::of_response(&response).shown(), "");
}

#[test]
fn pending_completion_from_a_configuration() {
    let config = Config { api_endpoint: "https://e".to_string(), api_key: "k".to_string() };
    let pending = PendingCompletion::new(&config, "x = 1", "Python", "2");
    assert_eq!(
        pending.prompt,
        "Look into the user question: x = 1. The code is written in Python. Try to help as much as possible by explaining the code in simple words."
    );
    assert_eq!(pending.request, HttpRequest::completion(&config, pending.prompt.clone()));
    assert_eq!(pending.request.url, "https://e");
}
