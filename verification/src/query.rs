//! Queries: an endpoint description bound to a transport, read as raw text or
//! decoded into a shape.

use vstd::prelude::*;
use crate::client::conclude_spec;
use crate::client::is_success;
use crate::client::slice_params_view;
use crate::client::HttpOutcome;
use crate::client::SyncClient;
use crate::decode::decode_response;
use crate::decode::is_structured_result;
use crate::decode::FromJson;
use crate::endpoint::params_view;
use crate::endpoint::Endpoint;
use crate::error::DecodeErrorView;
use crate::error::JenkinsError;
use crate::error::JenkinsErrorView;
use crate::json::json_parse;

verus! {

/// Borrows the form pairs of an endpoint as a transport takes them.
fn borrowed<'a, 'b>(params: &'a Option<Vec<(&'b str, &'b str)>>) -> (r: Option<
    &'a [(&'b str, &'b str)],
>)
    ensures
        slice_params_view(r) == params_view(*params),
{
    match params {
        Some(pairs) => Some(pairs.as_slice()),
        None => None,
    }
}

/// Queries that return the response as raw text.
pub trait RawQuery: Endpoint {
    /// Performs the call over the given transport and returns what the
    /// transport gave for it, unread: no content of a response makes the
    /// query fail.
    fn raw_query(&self, client: &impl SyncClient) -> (r: Result<String, JenkinsError>)
        ensures
            client.responds(self.method_spec(), self.path_spec(), self.params_spec(), r),
    ;
}

/// Every endpoint can be queried for raw text.
impl<E: Endpoint> RawQuery for E {
    fn raw_query(&self, client: &impl SyncClient) -> (r: Result<String, JenkinsError>) {
        let path = self.endpoint();
        let params = self.params();
        client.request(self.method(), path.as_str(), borrowed(&params))
    }
}

/// Queries that decode the response into the shape `T`.
pub trait Query<T: FromJson>: Endpoint {
    /// Performs the call over the given transport and decodes as JSON into
    /// `T` what the transport gave for it.
    fn query(&self, client: &impl SyncClient) -> (r: Result<T, JenkinsError>)
        ensures
            exists|response: Result<String, JenkinsError>|
                client.responds(
                    self.method_spec(),
                    self.path_spec(),
                    self.params_spec(),
                    response,
                ) && #[trigger] is_structured_result(response, r),
    ;
}

/// Every endpoint can be queried for every shape.
impl<E: Endpoint, T: FromJson> Query<T> for E {
    fn query(&self, client: &impl SyncClient) -> (r: Result<T, JenkinsError>) {
        let response = self.raw_query(client);
        let r = decode_response(response);
        assert(is_structured_result(response, r));
        r
    }
}

/// A transport's answer `Ok(text)` is what a raw query returns, whatever the
/// text holds. If the text is no JSON document, a structured query turns the
/// same answer into a decode error, whatever the shape asked for.
pub proof fn lemma_raw_accepts_what_decoding_refuses<T: FromJson>(
    text: String,
    decoded: Result<T, JenkinsError>,
)
    requires
        json_parse(text@) is None,
        is_structured_result(Ok::<String, JenkinsError>(text), decoded),
    ensures
        decoded matches Err(e) && e.is_decode_failure() && e@ == JenkinsErrorView::Json(
            DecodeErrorView::Syntax,
        ),
{
}

/// Whether a response is a success is decided by its status alone: with a
/// status in 200..=299 the body comes back unchanged, whatever it holds.
pub proof fn lemma_raw_ignores_content(status: u16, body: String)
    requires
        is_success(status),
    ensures
        conclude_spec((HttpOutcome::Response { status, body })) == Ok::<String, JenkinsError>(
            body,
        ),
{
}

} // verus!
