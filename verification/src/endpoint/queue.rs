//! The build queue.

use vstd::prelude::*;
use vstd::string::StringExecFns;
use super::lemma_slash_before_colon;
use super::Endpoint;
use super::ParamsView;

verus! {

/// Endpoint that reports the build queue: `{"items": [...]}`.
pub struct QueueLength;

impl Endpoint for QueueLength {
    open spec fn method_spec(&self) -> Seq<char> {
        "GET"@
    }

    open spec fn path_spec(&self) -> Seq<char> {
        "queue/api/json"@
    }

    open spec fn params_spec(&self) -> ParamsView {
        None
    }

    fn method(&self) -> (m: &str) {
        "GET"
    }

    fn endpoint(&self) -> (path: String) {
        let path = String::from_str("queue/api/json");
        proof {
            reveal_strlit("queue/api/json");
            lemma_slash_before_colon(path@, 5);
        }
        path
    }

    fn params(&self) -> (params: Option<Vec<(&str, &str)>>) {
        None
    }
}

} // verus!
