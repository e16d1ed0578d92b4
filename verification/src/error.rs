//! The errors of a call.

use vstd::prelude::*;

verus! {

/// `http::method::InvalidMethod`, the error of a rejected method token.
#[verifier::external_type_specification]
#[verifier::external_body]
pub struct ExInvalidMethod(http::method::InvalidMethod);

/// Why a response text could not be decoded into the shape asked for.
#[derive(Debug)]
pub enum DecodeError {
    /// The text is not a JSON document; `serde_json`'s own error says where.
    Syntax(serde_json::Error),
    /// The document lacks the required field of this name.
    MissingField(String),
    /// The value at this place has another type than the shape asks for. The
    /// place is a field's name, or empty for the document itself.
    TypeMismatch(String),
}

/// A decode error as a mathematical value; of a syntax error only the kind.
pub enum DecodeErrorView {
    Syntax,
    MissingField(Seq<char>),
    TypeMismatch(Seq<char>),
}

impl View for DecodeError {
    type V = DecodeErrorView;

    open spec fn view(&self) -> DecodeErrorView {
        match self {
            DecodeError::Syntax(_) => DecodeErrorView::Syntax,
            DecodeError::MissingField(name) => DecodeErrorView::MissingField(name@),
            DecodeError::TypeMismatch(place) => DecodeErrorView::TypeMismatch(place@),
        }
    }
}

/// The errors of a call to the Jenkins API.
#[derive(Debug)]
pub enum JenkinsError {
    /// The transport failed before any response came: the message says how.
    RequestError(String),
    /// The server answered with a status outside 200..=299; the status and
    /// the response body are kept as they came.
    HttpStatus { status: u16, body: String },
    /// The response text could not be decoded.
    Json(DecodeError),
    /// The parameters of a call are malformed.
    InvalidParams(String),
    /// The HTTP method of a call is no valid method token.
    InvalidMethod(http::method::InvalidMethod),
}

/// An error as a mathematical value.
pub enum JenkinsErrorView {
    RequestError(Seq<char>),
    HttpStatus { status: u16, body: Seq<char> },
    Json(DecodeErrorView),
    InvalidParams(Seq<char>),
    InvalidMethod,
}

impl View for JenkinsError {
    type V = JenkinsErrorView;

    open spec fn view(&self) -> JenkinsErrorView {
        match self {
            JenkinsError::RequestError(message) => JenkinsErrorView::RequestError(message@),
            JenkinsError::HttpStatus { status, body } => JenkinsErrorView::HttpStatus {
                status: *status,
                body: body@,
            },
            JenkinsError::Json(e) => JenkinsErrorView::Json(e@),
            JenkinsError::InvalidParams(message) => JenkinsErrorView::InvalidParams(message@),
            JenkinsError::InvalidMethod(_) => JenkinsErrorView::InvalidMethod,
        }
    }
}

impl JenkinsError {
    /// Whether the error is a failure of the transport: no response, or a
    /// response with a status outside 200..=299.
    pub open spec fn is_transport_failure(&self) -> bool {
        self is RequestError || self is HttpStatus
    }

    /// Whether the error is a failure to decode a response text.
    pub open spec fn is_decode_failure(&self) -> bool {
        self is Json
    }
}

/// A failed parse is a decode error.
impl From<serde_json::Error> for JenkinsError {
    fn from(error: serde_json::Error) -> (e: JenkinsError) {
        JenkinsError::Json(DecodeError::Syntax(error))
    }
}

impl vstd::std_specs::convert::FromSpecImpl<serde_json::Error> for JenkinsError {
    open spec fn obeys_from_spec() -> bool {
        true
    }

    open spec fn from_spec(error: serde_json::Error) -> JenkinsError {
        JenkinsError::Json(DecodeError::Syntax(error))
    }
}

/// A decode error is an error of the call.
impl From<DecodeError> for JenkinsError {
    fn from(error: DecodeError) -> (e: JenkinsError) {
        JenkinsError::Json(error)
    }
}

impl vstd::std_specs::convert::FromSpecImpl<DecodeError> for JenkinsError {
    open spec fn obeys_from_spec() -> bool {
        true
    }

    open spec fn from_spec(error: DecodeError) -> JenkinsError {
        JenkinsError::Json(error)
    }
}

/// A rejected method token is an error of the call.
impl From<http::method::InvalidMethod> for JenkinsError {
    fn from(error: http::method::InvalidMethod) -> (e: JenkinsError) {
        JenkinsError::InvalidMethod(error)
    }
}

impl vstd::std_specs::convert::FromSpecImpl<http::method::InvalidMethod> for JenkinsError {
    open spec fn obeys_from_spec() -> bool {
        true
    }

    open spec fn from_spec(error: http::method::InvalidMethod) -> JenkinsError {
        JenkinsError::InvalidMethod(error)
    }
}

} // verus!
