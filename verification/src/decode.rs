//! Decoding a response text into the shape that the caller asks for.

use vstd::prelude::*;
use vstd::string::StringExecFns;
use crate::error::DecodeError;
use crate::error::DecodeErrorView;
use crate::error::JenkinsError;
use crate::error::JenkinsErrorView;
use crate::json::find_member;
use crate::json::json_parse;
use crate::json::json_view;
use crate::json::member;
use crate::json::members_view;
use crate::json::parse_value;
use crate::json::value_as_str;
use crate::json::value_as_u64;
use crate::json::JsonNumber;
use crate::json::JsonTree;
use crate::json::Members;

verus! {

/// A shape that a JSON document can be decoded into.
pub trait FromJson: Sized {
    /// Why a document is not of this shape; `None` if it is.
    spec fn mismatch(tree: JsonTree) -> Option<DecodeErrorView>;

    /// Whether `decoded` is what a document of this shape decodes to.
    spec fn decodes(tree: JsonTree, decoded: Self) -> bool;

    /// Decodes a document: succeeds exactly on the documents of this shape.
    fn from_json(value: serde_json::Value) -> (r: Result<Self, DecodeError>)
        ensures
            match r {
                Ok(decoded) => Self::mismatch(json_view(value)) is None && Self::decodes(
                    json_view(value),
                    decoded,
                ),
                Err(e) => Self::mismatch(json_view(value)) == Some(e@),
            },
    ;
}

/// Any document is a JSON tree: it decodes to itself.
impl FromJson for serde_json::Value {
    open spec fn mismatch(tree: JsonTree) -> Option<DecodeErrorView> {
        None
    }

    open spec fn decodes(tree: JsonTree, decoded: Self) -> bool {
        json_view(decoded) == tree
    }

    fn from_json(value: serde_json::Value) -> (r: Result<Self, DecodeError>) {
        Ok(value)
    }
}

/// What a required member that holds a number from 0 to `u32::MAX` reads as.
pub open spec fn u32_field(members: Members, name: Seq<char>) -> Result<u32, DecodeErrorView> {
    match member(members, name) {
        None => Err(DecodeErrorView::MissingField(name)),
        Some(JsonTree::Number(JsonNumber::Integer(n))) => if 0 <= n <= u32::MAX {
            Ok(n as u32)
        } else {
            Err(DecodeErrorView::TypeMismatch(name))
        },
        Some(_) => Err(DecodeErrorView::TypeMismatch(name)),
    }
}

/// What a required member that holds a string reads as.
pub open spec fn text_field(members: Members, name: Seq<char>) -> Result<
    Seq<char>,
    DecodeErrorView,
> {
    match member(members, name) {
        None => Err(DecodeErrorView::MissingField(name)),
        Some(JsonTree::String(text)) => Ok(text),
        Some(_) => Err(DecodeErrorView::TypeMismatch(name)),
    }
}

/// Reads a required member that must hold a number from 0 to `u32::MAX`.
pub(crate) fn read_u32(members: &Vec<(&str, &serde_json::Value)>, name: &str) -> (r: Result<
    u32,
    DecodeError,
>)
    ensures
        match r {
            Ok(n) => u32_field(members_view(members@), name@) == Ok::<u32, DecodeErrorView>(n),
            Err(e) => u32_field(members_view(members@), name@) == Err::<u32, DecodeErrorView>(e@),
        },
{
    match find_member(members, name) {
        None => Err(DecodeError::MissingField(String::from_str(name))),
        Some(value) => match value_as_u64(value) {
            Some(n) => if n <= 0xffff_ffff {
                Ok(n as u32)
            } else {
                Err(DecodeError::TypeMismatch(String::from_str(name)))
            },
            None => Err(DecodeError::TypeMismatch(String::from_str(name))),
        },
    }
}

/// Reads a required member that must hold a string.
pub(crate) fn read_text(members: &Vec<(&str, &serde_json::Value)>, name: &str) -> (r: Result<
    String,
    DecodeError,
>)
    ensures
        match r {
            Ok(text) => text_field(members_view(members@), name@) == Ok::<
                Seq<char>,
                DecodeErrorView,
            >(text@),
            Err(e) => text_field(members_view(members@), name@) == Err::<
                Seq<char>,
                DecodeErrorView,
            >(e@),
        },
{
    match find_member(members, name) {
        None => Err(DecodeError::MissingField(String::from_str(name))),
        Some(value) => match value_as_str(value) {
            Some(text) => Ok(String::from_str(text)),
            None => Err(DecodeError::TypeMismatch(String::from_str(name))),
        },
    }
}

/// Whether `r` is the structured reading of a transport's answer: a failure
/// of the transport is passed on as it is; a text that is no JSON document,
/// or a document of another shape, is a decode error that says which; any
/// other text gives the decoded value.
pub open spec fn is_structured_result<T: FromJson>(
    response: Result<String, JenkinsError>,
    r: Result<T, JenkinsError>,
) -> bool {
    match response {
        Err(e) => r == Err::<T, JenkinsError>(e),
        Ok(text) => match json_parse(text@) {
            None => r matches Err(e) && e@ == JenkinsErrorView::Json(DecodeErrorView::Syntax),
            Some(tree) => match T::mismatch(tree) {
                Some(why) => r matches Err(e) && e@ == JenkinsErrorView::Json(why),
                None => r matches Ok(decoded) && T::decodes(tree, decoded),
            },
        },
    }
}

/// Decodes the outcome of a request into the shape `T`.
pub fn decode_response<T: FromJson>(response: Result<String, JenkinsError>) -> (r: Result<
    T,
    JenkinsError,
>)
    ensures
        is_structured_result(response, r),
{
    match response {
        Err(e) => Err(e),
        Ok(text) => match parse_value(text.as_str()) {
            Err(e) => Err(JenkinsError::from(e)),
            Ok(value) => match T::from_json(value) {
                Err(e) => Err(JenkinsError::from(e)),
                Ok(decoded) => Ok(decoded),
            },
        },
    }
}

} // verus!
