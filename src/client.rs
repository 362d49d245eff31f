use vstd::prelude::*;
use vstd::string::*;
use crate::error::CommitError;
use crate::models::{ChatRequest, ChatResponse, Message};

verus! {

/// The provider's production endpoint.
pub const DEFAULT_BASE_URL: &'static str = "https://api.groq.com";

/// Path of the chat-completion endpoint under the base URL.
pub const COMPLETIONS_PATH: &'static str = "/openai/v1/chat/completions";

/// Path of the model-listing endpoint under the base URL.
pub const MODELS_PATH: &'static str = "/openai/v1/models";

/// Scheme of the authorization header, followed by the API key.
pub const BEARER_PREFIX: &'static str = "Bearer ";

/// Media type sent and accepted by the client.
pub const JSON_MEDIA_TYPE: &'static str = "application/json";

/// Member of a response body that marks an error payload of the provider.
pub const ERROR_MEMBER: &'static str = "error";

/// Whether a character may stand in an HTTP header value: a tab, or any
/// character from the space on, except DEL.
pub open spec fn is_header_char(c: char) -> bool {
    (c as u32 >= 32 && c as u32 != 127) || c == '\t'
}

/// Relies on `reqwest::header::HeaderValue::from_str`, which accepts a text
/// exactly when each of its bytes is a tab, or at least 32 and not 127.
#[verifier::external_body]
fn is_valid_header_value(s: &str) -> (r: bool)
    ensures
        r == (forall|i: int| 0 <= i < s@.len() ==> is_header_char(#[trigger] s@[i])),
{
    reqwest::header::HeaderValue::from_str(s).is_ok()
}

/// Whether the JSON text `body` is an object with a member named `key`
/// (false for a text that is no JSON object).
pub uninterp spec fn json_has_member(body: Seq<char>, key: Seq<char>) -> bool;

/// Relies on `serde_json::from_str` into a `serde_json::Value` and on
/// `Value::get`; the answer depends on the two texts alone.
#[verifier::external_body]
fn has_json_member(body: &str, key: &str) -> (r: bool)
    ensures
        r == json_has_member(body@, key@),
{
    match serde_json::from_str::<serde_json::Value>(body) {
        Ok(v) => v.get(key).is_some(),
        Err(_) => false,
    }
}

/// Client of the chat-completion API: an API key and an optional base URL
/// that overrides the production endpoint.
#[derive(Debug, Clone)]
pub struct GroqClient {
    pub api_key: String,
    pub base_url: Option<String>,
}

impl GroqClient {
    /// The base URL that requests go to.
    pub open spec fn base_url_spec(&self) -> Seq<char> {
        match self.base_url {
            Some(u) => u@,
            None => DEFAULT_BASE_URL@,
        }
    }

    /// A client of the production endpoint.
    pub fn new(api_key: &str) -> (c: GroqClient)
        ensures
            c.api_key@ == api_key@,
            c.base_url is None,
            c.base_url_spec() == DEFAULT_BASE_URL@,
    {
        GroqClient { api_key: api_key.to_owned(), base_url: None }
    }

    /// The same client, sending its requests to `base_url` instead.
    pub fn with_base_url(self, base_url: &str) -> (c: GroqClient)
        ensures
            c.api_key == self.api_key,
            c.base_url_spec() == base_url@,
    {
        GroqClient { api_key: self.api_key, base_url: Some(base_url.to_owned()) }
    }

    /// The base URL that requests go to.
    pub fn get_base_url(&self) -> (r: String)
        ensures
            r@ == self.base_url_spec(),
    {
        match &self.base_url {
            Some(u) => u.clone(),
            None => DEFAULT_BASE_URL.to_owned(),
        }
    }

    /// The URL of the chat-completion endpoint.
    pub fn completions_url(&self) -> (r: String)
        ensures
            r@ == self.base_url_spec() + COMPLETIONS_PATH@,
    {
        let mut url = self.get_base_url();
        url.append(COMPLETIONS_PATH);
        url
    }

    /// The URL of the model-listing endpoint.
    pub fn models_url(&self) -> (r: String)
        ensures
            r@ == self.base_url_spec() + MODELS_PATH@,
    {
        let mut url = self.get_base_url();
        url.append(MODELS_PATH);
        url
    }

    /// The headers of every request, as name and value: the bearer token,
    /// and JSON as content type and accepted type. An API key that cannot
    /// stand in a header value is a configuration error.
    pub fn default_headers(&self) -> (r: Result<Vec<(String, String)>, CommitError>)
        ensures
            r is Ok <==> (forall|i: int| 0 <= i < self.api_key@.len() ==> is_header_char(
                #[trigger] self.api_key@[i],
            )),
            r matches Err(e) ==> e == CommitError::Configuration,
            r matches Ok(hs) ==> {
                &&& hs@.len() == 3
                &&& hs@[0].0@ == seq!['a', 'u', 't', 'h', 'o', 'r', 'i', 'z', 'a', 't', 'i', 'o', 'n']
                &&& hs@[0].1@ == BEARER_PREFIX@ + self.api_key@
                &&& hs@[1].0@ == seq!['c', 'o', 'n', 't', 'e', 'n', 't', '-', 't', 'y', 'p', 'e']
                &&& hs@[1].1@ == JSON_MEDIA_TYPE@
                &&& hs@[2].0@ == seq!['a', 'c', 'c', 'e', 'p', 't']
                &&& hs@[2].1@ == JSON_MEDIA_TYPE@
            },
    {
        let mut authorization = BEARER_PREFIX.to_owned();
        authorization.append(self.api_key.as_str());
        if !is_valid_header_value(authorization.as_str()) {
            proof {
                reveal_strlit("Bearer ");
                let k = self.api_key@;
                let a = authorization@;
                if forall|i: int| 0 <= i < k.len() ==> is_header_char(#[trigger] k[i]) {
                    assert forall|i: int| 0 <= i < a.len() implies is_header_char(#[trigger] a[i]) by {
                        if i >= 7 {
                            assert(a[i] == k[i - 7]);
                        }
                    }
                }
            }
            return Err(CommitError::Configuration);
        }
        proof {
            reveal_strlit("Bearer ");
            reveal_strlit("authorization");
            reveal_strlit("content-type");
            reveal_strlit("accept");
            let k = self.api_key@;
            let a = authorization@;
            assert forall|i: int| 0 <= i < k.len() implies is_header_char(#[trigger] k[i]) by {
                assert(a[i + 7] == k[i]);
            }
        }
        Ok(vec![
            ("authorization".to_owned(), authorization),
            ("content-type".to_owned(), JSON_MEDIA_TYPE.to_owned()),
            ("accept".to_owned(), JSON_MEDIA_TYPE.to_owned()),
        ])
    }

    /// The body of a chat-completion request for `model` and `messages`.
    pub fn chat_request(&self, model: String, messages: Vec<Message>) -> (r: ChatRequest)
        ensures
            r.model == model,
            r.messages == messages,
    {
        ChatRequest { model, messages }
    }
}

/// The outcome of a chat-completion call, given whether its body holds an
/// error member and what decoding it as a response gave.
pub fn classify_response(
    has_error_member: bool,
    decoded: Option<ChatResponse>,
) -> (r: Result<ChatResponse, CommitError>)
    ensures
        has_error_member ==> r == Err::<ChatResponse, CommitError>(CommitError::ProviderError),
        !has_error_member && decoded is None ==> r == Err::<ChatResponse, CommitError>(
            CommitError::MalformedResponse,
        ),
        !has_error_member && decoded is Some ==> r == Ok::<ChatResponse, CommitError>(
            decoded->0,
        ),
{
    if has_error_member {
        return Err(CommitError::ProviderError);
    }
    match decoded {
        Some(resp) => Ok(resp),
        None => Err(CommitError::MalformedResponse),
    }
}

/// The outcome of a chat-completion call from its raw body and what decoding
/// the body as a response gave: an error payload of the provider is told
/// apart from a body of the wrong shape.
pub fn check_response_body(
    body: &str,
    decoded: Option<ChatResponse>,
) -> (r: Result<ChatResponse, CommitError>)
    ensures
        json_has_member(body@, ERROR_MEMBER@) ==> r == Err::<ChatResponse, CommitError>(
            CommitError::ProviderError,
        ),
        !json_has_member(body@, ERROR_MEMBER@) && decoded is None ==> r == Err::<
            ChatResponse,
            CommitError,
        >(CommitError::MalformedResponse),
        !json_has_member(body@, ERROR_MEMBER@) && decoded is Some ==> r == Ok::<
            ChatResponse,
            CommitError,
        >(decoded->0),
{
    classify_response(has_json_member(body, ERROR_MEMBER), decoded)
}

/// The text of the first completion of a response; a response without any
/// choice is malformed.
pub fn first_completion(resp: &ChatResponse) -> (r: Result<String, CommitError>)
    ensures
        resp.choices@.len() == 0 <==> r == Err::<String, CommitError>(
            CommitError::MalformedResponse,
        ),
        resp.choices@.len() > 0 ==> r is Ok,
        r matches Ok(t) ==> resp.choices@.len() > 0 && t@ == resp.choices@[0].message.content@,
{
    if resp.choices.len() == 0 {
        Err(CommitError::MalformedResponse)
    } else {
        Ok(resp.choices[0].message.content.clone())
    }
}

} // verus!
