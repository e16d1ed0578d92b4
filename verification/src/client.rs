//! The transport: how a call travels.
//!
//! Sending bytes is left to the caller. This module decides what is sent
//! ([`ClientConfig::prepare`]) and what the outcome of sending it means
//! ([`conclude`]); a transport performs the step between the two.

use vstd::prelude::*;
use vstd::string::StringExecFns;
use crate::endpoint::is_known_method;
use crate::endpoint::ParamsView;
use crate::error::JenkinsError;
use crate::error::JenkinsErrorView;

verus! {

/// `http::Method`, a parsed HTTP method.
#[verifier::external_type_specification]
#[verifier::external_body]
pub struct ExMethod(http::Method);

/// The client identifier that every request carries in its `User-Agent` header.
pub open spec fn user_agent_spec() -> Seq<char> {
    "jenkins-sdk-rust"@
}

/// Whether a transport accepts server certificates that it cannot validate.
/// It does: the servers this library talks to are internal ones.
pub const ACCEPT_INVALID_CERTS: bool = true;

/// Whether a transport looks for a proxy in its environment. It does not.
pub const DETECT_PROXY: bool = false;

/// The characters of an HTTP token (RFC 9110, `tchar`).
pub open spec fn is_token_char(c: char) -> bool {
    ||| 'a' <= c <= 'z'
    ||| 'A' <= c <= 'Z'
    ||| '0' <= c <= '9'
    ||| c == '!'
    ||| c == '#'
    ||| c == '$'
    ||| c == '%'
    ||| c == '&'
    ||| c == '\''
    ||| c == '*'
    ||| c == '+'
    ||| c == '-'
    ||| c == '.'
    ||| c == '^'
    ||| c == '_'
    ||| c == '`'
    ||| c == '|'
    ||| c == '~'
}

/// Whether a text is a valid HTTP method: a token of at least one character.
pub open spec fn is_method_token(method: Seq<char>) -> bool {
    &&& method.len() > 0
    &&& forall|i: int| 0 <= i < method.len() ==> is_token_char(#[trigger] method[i])
}

/// The view of form pairs handed to a transport.
pub open spec fn slice_params_view(params: Option<&[(&str, &str)]>) -> ParamsView {
    match params {
        Some(pairs) => Some(pairs@.map_values(|p: (&str, &str)| (p.0@, p.1@))),
        None => None,
    }
}

/// The view of owned form pairs.
pub open spec fn form_view(form: Option<Vec<(String, String)>>) -> ParamsView {
    match form {
        Some(pairs) => Some(pairs@.map_values(|p: (String, String)| (p.0@, p.1@))),
        None => None,
    }
}

/// Parses a method with `http::Method`'s `FromStr`. It accepts exactly the
/// non-empty texts made of token characters, the standard methods among them.
#[verifier::external_body]
pub(crate) fn parse_method(method: &str) -> (r: Result<http::Method, http::method::InvalidMethod>)
    ensures
        r is Ok <==> is_method_token(method@),
{
    method.parse::<http::Method>()
}

/// A blocking transport: performs one HTTP request and returns the response
/// body as text, or fails. What comes back is the server's to decide.
pub trait SyncClient {
    /// Whether this transport may give `result` for the given request. A
    /// transport that talks to a server may give any result, which is what
    /// this says unless a transport says otherwise.
    open spec fn responds(
        &self,
        method: Seq<char>,
        endpoint: Seq<char>,
        params: ParamsView,
        result: Result<String, JenkinsError>,
    ) -> bool {
        true
    }

    /// Sends the request and waits for its outcome.
    fn request(&self, method: &str, endpoint: &str, params: Option<&[(&str, &str)]>) -> (result:
        Result<String, JenkinsError>)
        ensures
            self.responds(method@, endpoint@, slice_params_view(params), result),
    ;
}

/// What a transport is made from: the server's base URL and the credentials
/// that go with every request.
#[derive(Debug, Clone, PartialEq, Eq)]
pub struct ClientConfig {
    /// Base URL of the Jenkins server.
    pub url: String,
    /// Name of the user.
    pub username: String,
    /// API token of the user.
    pub api_token: String,
}

/// One HTTP request, ready to be sent.
#[derive(Debug, Clone, PartialEq, Eq)]
pub struct HttpRequest {
    /// The HTTP method, a valid method token.
    pub method: String,
    /// The full URL: base URL, a slash, and the endpoint's path.
    pub url: String,
    /// User name for HTTP Basic authentication.
    pub username: String,
    /// Password for HTTP Basic authentication: the API token.
    pub password: String,
    /// Value of the `User-Agent` header.
    pub user_agent: String,
    /// The pairs of a URL-encoded form body; without them the request has no body.
    pub form: Option<Vec<(String, String)>>,
}

/// A request as a mathematical value.
pub struct HttpRequestView {
    pub method: Seq<char>,
    pub url: Seq<char>,
    pub username: Seq<char>,
    pub password: Seq<char>,
    pub user_agent: Seq<char>,
    pub form: ParamsView,
}

impl View for HttpRequest {
    type V = HttpRequestView;

    open spec fn view(&self) -> HttpRequestView {
        HttpRequestView {
            method: self.method@,
            url: self.url@,
            username: self.username@,
            password: self.password@,
            user_agent: self.user_agent@,
            form: form_view(self.form),
        }
    }
}

impl HttpRequest {
    /// Whether the request can be sent: its method is a valid method token.
    pub open spec fn well_formed(&self) -> bool {
        is_method_token(self.method@)
    }
}

/// What came of sending a request.
#[derive(Debug, Clone, PartialEq, Eq)]
pub enum HttpOutcome {
    /// The server answered.
    Response { status: u16, body: String },
    /// No answer came (no connection, a TLS failure, ...); the message says why.
    Failure(String),
}

/// Whether a status code reports success.
pub open spec fn is_success(status: u16) -> bool {
    200 <= status <= 299
}

impl ClientConfig {
    /// The request that this configuration sends for a call.
    pub open spec fn request_spec(
        &self,
        method: Seq<char>,
        endpoint: Seq<char>,
        params: ParamsView,
    ) -> HttpRequestView {
        HttpRequestView {
            method: method,
            url: self.url@ + "/"@ + endpoint,
            username: self.username@,
            password: self.api_token@,
            user_agent: user_agent_spec(),
            form: params,
        }
    }

    /// Keeps the base URL and the credentials for later requests.
    pub fn new(url: &str, username: &str, api_token: &str) -> (config: ClientConfig)
        ensures
            config.url@ == url@,
            config.username@ == username@,
            config.api_token@ == api_token@,
    {
        ClientConfig {
            url: url.to_owned(),
            username: username.to_owned(),
            api_token: api_token.to_owned(),
        }
    }

    /// Plans the request for a call: the method as given, the path joined to
    /// the base URL by a slash, Basic authentication with the user's token,
    /// the fixed client identifier, and the parameters as form body if there
    /// are any. Refuses a method that is no token, and nothing else.
    pub fn prepare(&self, method: &str, endpoint: &str, params: Option<&[(&str, &str)]>) -> (r:
        Result<HttpRequest, JenkinsError>)
        ensures
            match r {
                Ok(request) => {
                    &&& is_method_token(method@)
                    &&& request.well_formed()
                    &&& request@ == self.request_spec(
                        method@,
                        endpoint@,
                        slice_params_view(params),
                    )
                },
                Err(e) => !is_method_token(method@) && e is InvalidMethod,
            },
    {
        match parse_method(method) {
            Err(e) => Err(JenkinsError::from(e)),
            Ok(_) => {
                let url = self.url.clone().concat("/").concat(endpoint);
                let form = match params {
                    Some(pairs) => Some(owned_pairs(pairs)),
                    None => None,
                };
                Ok(
                    HttpRequest {
                        method: method.to_owned(),
                        url,
                        username: self.username.clone(),
                        password: self.api_token.clone(),
                        user_agent: String::from_str("jenkins-sdk-rust"),
                        form,
                    },
                )
            },
        }
    }
}

/// Copies form pairs into owned strings, in their order.
fn owned_pairs(pairs: &[(&str, &str)]) -> (owned: Vec<(String, String)>)
    ensures
        owned@.map_values(|p: (String, String)| (p.0@, p.1@)) == pairs@.map_values(
            |p: (&str, &str)| (p.0@, p.1@),
        ),
{
    let mut owned: Vec<(String, String)> = Vec::new();
    let mut i: usize = 0;
    while i < pairs.len()
        invariant
            i <= pairs.len(),
            owned.len() == i,
            forall|j: int|
                0 <= j < i ==> (#[trigger] owned[j]).0@ == pairs[j].0@ && owned[j].1@
                    == pairs[j].1@,
        decreases pairs.len() - i,
    {
        let pair = &pairs[i];
        owned.push((pair.0.to_owned(), pair.1.to_owned()));
        i += 1;
    }
    assert(owned@.map_values(|p: (String, String)| (p.0@, p.1@)) =~= pairs@.map_values(
        |p: (&str, &str)| (p.0@, p.1@),
    ));
    owned
}

/// What the outcome of sending a request means for the caller: the body
/// of a response with a status in 200..=299, unchanged; for any other status
/// an error that keeps the status and the body as they came; for no answer
/// an error with the transport's message.
pub open spec fn conclude_spec(outcome: HttpOutcome) -> Result<String, JenkinsError> {
    match outcome {
        HttpOutcome::Response { status, body } => if is_success(status) {
            Ok(body)
        } else {
            Err(JenkinsError::HttpStatus { status, body })
        },
        HttpOutcome::Failure(message) => Err(JenkinsError::RequestError(message)),
    }
}

/// Turns the outcome of sending a request into the result of the call.
pub fn conclude(outcome: HttpOutcome) -> (r: Result<String, JenkinsError>)
    ensures
        r == conclude_spec(outcome),
{
    match outcome {
        HttpOutcome::Response { status, body } => {
            if 200 <= status && status <= 299 {
                Ok(body)
            } else {
                Err(JenkinsError::HttpStatus { status, body })
            }
        },
        HttpOutcome::Failure(message) => Err(JenkinsError::RequestError(message)),
    }
}

/// A response is turned into an error only for its status, and the error
/// is then a transport failure that carries that status and the body.
pub proof fn lemma_failure_carries_status(status: u16, body: String)
    requires
        !is_success(status),
    ensures
        conclude_spec((HttpOutcome::Response { status, body })) matches Err(e)
            && e.is_transport_failure() && e@ == (JenkinsErrorView::HttpStatus {
            status,
            body: body@,
        }),
{
}

/// A method that an endpoint may name is a method token: no call that an
/// endpoint describes is refused for its method.
pub proof fn lemma_known_method_is_token(method: Seq<char>)
    requires
        is_known_method(method),
    ensures
        is_method_token(method),
{
    reveal_strlit("GET");
    reveal_strlit("POST");
}

} // verus!
