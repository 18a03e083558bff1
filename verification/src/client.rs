//! The completion client, without its transport: what is sent to the
//! endpoint, and what is made of the reply.
//!
//! A completion runs in two steps around the one network call that the
//! caller performs. `prepare_completion` checks the configuration and builds
//! the request; `conclude_completion` turns the reply into the text to show
//! and records the exchange in the transcript.

use vstd::prelude::*;
use crate::history::{record_text, History};
use crate::payload::{user_request, RequestPayload, RequestView, ResponsePayload};
use crate::prompt::{generate_prompt, prompt_for_option};

verus! {

/// Why a completion did not come about.
#[derive(Clone, Copy, Debug, PartialEq, Eq, Structural)]
pub enum ErrorKind {
    /// A required setting is missing. Nothing was sent.
    Config,
    /// The request did not reach the endpoint, or no reply came back.
    Request,
    /// The reply is not a completion response.
    Parse,
}

/// A failed completion: its kind and the text to report.
#[derive(Clone, Debug, PartialEq, Eq)]
pub struct ClientError {
    pub kind: ErrorKind,
    pub message: String,
}

impl ClientError {
    /// The text to report for this error.
    pub fn describe(&self) -> (text: String)
        ensures
            text@ == self.message@,
    {
        self.message.clone()
    }
}

/// Where to send requests, and the key that authenticates them.
#[derive(Clone, Debug, PartialEq, Eq)]
pub struct Config {
    pub api_endpoint: String,
    pub api_key: String,
}

/// The report of a setting that could not be read.
pub open spec fn missing_setting_text(name: Seq<char>, reason: Seq<char>) -> Seq<char> {
    "Failed to get "@ + name + ": "@ + reason
}

/// The configuration made of two settings, each either its value or the
/// reason why it could not be read. The endpoint is looked at first.
pub open spec fn resolved(
    api_endpoint: Result<Seq<char>, Seq<char>>,
    api_key: Result<Seq<char>, Seq<char>>,
) -> Result<(Seq<char>, Seq<char>), Seq<char>> {
    match api_endpoint {
        Err(reason) => Err(missing_setting_text("API_ENDPOINT"@, reason)),
        Ok(endpoint) => match api_key {
            Err(reason) => Err(missing_setting_text("API_KEY"@, reason)),
            Ok(key) => Ok((endpoint, key)),
        },
    }
}

/// A setting as read from the environment, by its characters.
pub open spec fn setting_view(setting: Result<String, String>) -> Result<Seq<char>, Seq<char>> {
    match setting {
        Ok(value) => Ok(value@),
        Err(reason) => Err(reason@),
    }
}

fn missing_setting(name: &str, reason: &str) -> (error: ClientError)
    ensures
        error.kind == ErrorKind::Config,
        error.message@ == missing_setting_text(name@, reason@),
{
    let mut message = String::from_str("Failed to get ");
    message.append(name);
    message.append(": ");
    message.append(reason);
    ClientError { kind: ErrorKind::Config, message }
}

impl Config {
    /// Builds the configuration from the two required settings. Both are
    /// needed: a missing endpoint is reported first, then a missing key.
    pub fn resolve(api_endpoint: Result<String, String>, api_key: Result<String, String>) -> (config: Result<Config, ClientError>)
        ensures
            match resolved(setting_view(api_endpoint), setting_view(api_key)) {
                Ok((endpoint, key)) => {
                    &&& config matches Ok(c)
                    &&& c.api_endpoint@ == endpoint
                    &&& c.api_key@ == key
                },
                Err(text) => {
                    &&& config matches Err(e)
                    &&& e.kind == ErrorKind::Config
                    &&& e.message@ == text
                },
            },
    {
        match api_endpoint {
            Err(reason) => Err(missing_setting("API_ENDPOINT", reason.as_str())),
            Ok(endpoint) => match api_key {
                Err(reason) => Err(missing_setting("API_KEY", reason.as_str())),
                Ok(key) => Ok(Config { api_endpoint: endpoint, api_key: key }),
            },
        }
    }
}

/// One header of a request.
#[derive(Clone, Debug, PartialEq, Eq)]
pub struct Header {
    pub name: String,
    pub value: String,
}

/// A POST request, ready to be sent.
#[derive(Clone, Debug, PartialEq, Eq)]
pub struct HttpRequest {
    pub url: String,
    pub headers: Vec<Header>,
    pub body: RequestPayload,
}

/// A POST request as plain mathematical values.
pub struct HttpRequestView {
    pub url: Seq<char>,
    pub headers: Seq<(Seq<char>, Seq<char>)>,
    pub body: RequestView,
}

impl View for HttpRequest {
    type V = HttpRequestView;

    open spec fn view(&self) -> HttpRequestView {
        HttpRequestView {
            url: self.url@,
            headers: self.headers@.map_values(|h: Header| (h.name@, h.value@)),
            body: self.body@,
        }
    }
}

/// The request that asks the endpoint to answer `prompt`: the body is
/// announced as JSON and the key is sent as it is, in a header of its own.
pub open spec fn completion_post(endpoint: Seq<char>, key: Seq<char>, prompt: Seq<char>) -> HttpRequestView {
    HttpRequestView {
        url: endpoint,
        headers: seq![("Content-Type"@, "application/json"@), ("api-key"@, key)],
        body: user_request(prompt),
    }
}

impl HttpRequest {
    /// Builds the request that carries `prompt` to the configured endpoint.
    pub fn completion(config: &Config, prompt: String) -> (request: HttpRequest)
        ensures
            request@ == completion_post(config.api_endpoint@, config.api_key@, prompt@),
    {
        let mut headers: Vec<Header> = Vec::new();
        headers.push(
            Header {
                name: String::from_str("Content-Type"),
                value: String::from_str("application/json"),
            },
        );
        headers.push(Header { name: String::from_str("api-key"), value: config.api_key.clone() });
        let request = HttpRequest {
            url: config.api_endpoint.clone(),
            headers,
            body: RequestPayload::for_prompt(prompt),
        };
        assert(request@.headers =~= completion_post(
            config.api_endpoint@,
            config.api_key@,
            prompt@,
        ).headers);
        request
    }
}

/// A completion that is ready to be sent: the rendered prompt, and the
/// request that carries it.
#[derive(Clone, Debug, PartialEq, Eq)]
pub struct PendingCompletion {
    pub prompt: String,
    pub request: HttpRequest,
}

impl PendingCompletion {
    /// Renders the prompt for the menu option and builds the one request
    /// that carries it to the configured endpoint.
    pub fn new(config: &Config, prompt_input: &str, language: &str, option: &str) -> (pending: PendingCompletion)
        ensures
            pending.prompt@ == prompt_for_option(option@, prompt_input@, language@),
            pending.request@ == completion_post(
                config.api_endpoint@,
                config.api_key@,
                pending.prompt@,
            ),
    {
        let prompt = generate_prompt(prompt_input, language, option);
        let request = HttpRequest::completion(config, prompt.clone());
        PendingCompletion { prompt, request }
    }
}

/// First step of a completion, from the settings as they were read. Fails
/// with a configuration error, and builds no request, when a setting is
/// missing; otherwise renders the prompt for the menu option and builds the
/// one request to send.
pub fn prepare_completion(
    api_endpoint: Result<String, String>,
    api_key: Result<String, String>,
    prompt_input: &str,
    language: &str,
    option: &str,
) -> (pending: Result<PendingCompletion, ClientError>)
    ensures
        match resolved(setting_view(api_endpoint), setting_view(api_key)) {
            Ok((endpoint, key)) => {
                &&& pending matches Ok(p)
                &&& p.prompt@ == prompt_for_option(option@, prompt_input@, language@)
                &&& p.request@ == completion_post(endpoint, key, p.prompt@)
            },
            Err(text) => {
                &&& pending matches Err(e)
                &&& e.kind == ErrorKind::Config
                &&& e.message@ == text
            },
        },
{
    match Config::resolve(api_endpoint, api_key) {
        Err(error) => Err(error),
        Ok(config) => Ok(PendingCompletion::new(&config, prompt_input, language, option)),
    }
}

/// What came back from the endpoint.
#[derive(Clone, Debug, PartialEq, Eq)]
pub enum Reply {
    /// The transport failed; the text says how.
    Failed(String),
    /// A body came back that is not a completion response; the text says why.
    Malformed(String),
    /// A completion response.
    Parsed(ResponsePayload),
}

/// The answer to a prompt.
#[derive(Clone, Debug, PartialEq, Eq)]
pub enum Completion {
    /// The text of the first choice.
    Text(String),
    /// The response held no choice. This is an answer, not an error.
    NoResponse,
}

impl View for Completion {
    type V = Option<Seq<char>>;

    open spec fn view(&self) -> Option<Seq<char>> {
        match self {
            Completion::Text(text) => Some(text@),
            Completion::NoResponse => None,
        }
    }
}

/// The text shown for an answer.
pub open spec fn shown_completion(completion: Option<Seq<char>>) -> Seq<char> {
    match completion {
        Some(text) => text,
        None => "No response generated."@,
    }
}

impl Completion {
    /// The answer that a response holds: the content of its first choice.
    pub fn of_response(response: &ResponsePayload) -> (completion: Completion)
        ensures
            completion@ == response.first_content(),
    {
        if response.choices.len() > 0 {
            Completion::Text(response.choices[0].message.content.clone())
        } else {
            Completion::NoResponse
        }
    }

    /// The text to show for this answer.
    pub fn shown(&self) -> (text: String)
        ensures
            text@ == shown_completion(self@),
    {
        match self {
            Completion::Text(text) => text.clone(),
            Completion::NoResponse => String::from_str("No response generated."),
        }
    }
}

/// A concluded exchange: the answer, and the entry that was added to the
/// transcript for it.
#[derive(Clone, Debug, PartialEq, Eq)]
pub struct Exchange {
    pub completion: Completion,
    pub record: String,
}

/// Second step of a completion. A failed transport gives a request error and
/// a malformed body a parse error, and neither touches the transcript. A
/// parsed response gives its answer, and exactly one entry, made of the
/// prompt and the text shown for the answer, is appended to the transcript.
pub fn conclude_completion(history: &mut History, prompt: &str, reply: Reply) -> (outcome: Result<Exchange, ClientError>)
    ensures
        match reply {
            Reply::Failed(reason) => {
                &&& outcome matches Err(e)
                &&& e.kind == ErrorKind::Request
                &&& e.message@ == reason@
                &&& final(history)@ == old(history)@
            },
            Reply::Malformed(reason) => {
                &&& outcome matches Err(e)
                &&& e.kind == ErrorKind::Parse
                &&& e.message@ == reason@
                &&& final(history)@ == old(history)@
            },
            Reply::Parsed(response) => {
                &&& outcome matches Ok(x)
                &&& x.completion@ == response.first_content()
                &&& x.record@ == record_text(prompt@, shown_completion(response.first_content()))
                &&& final(history)@ == old(history)@ + x.record@
            },
        },
{
    match reply {
        Reply::Failed(reason) => Err(ClientError { kind: ErrorKind::Request, message: reason }),
        Reply::Malformed(reason) => Err(ClientError { kind: ErrorKind::Parse, message: reason }),
        Reply::Parsed(response) => {
            let completion = Completion::of_response(&response);
            let shown = completion.shown();
            let record = history.append_record(prompt, shown.as_str());
            Ok(Exchange { completion, record })
        },
    }
}

} // verus!
