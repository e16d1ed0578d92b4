//! The executor pool.

use vstd::prelude::*;
use vstd::string::StringExecFns;
use super::lemma_slash_before_colon;
use super::Endpoint;
use super::ParamsView;

verus! {

/// Endpoint that reports the executor pool:
/// `{"totalExecutors": N, "busyExecutors": N}`.
pub struct ExecutorsInfoEndpoint;

impl Endpoint for ExecutorsInfoEndpoint {
    open spec fn method_spec(&self) -> Seq<char> {
        "GET"@
    }

    open spec fn path_spec(&self) -> Seq<char> {
        "computer/api/json"@
    }

    open spec fn params_spec(&self) -> ParamsView {
        None
    }

    fn method(&self) -> (m: &str) {
        "GET"
    }

    fn endpoint(&self) -> (path: String) {
        let path = String::from_str("computer/api/json");
        proof {
            reveal_strlit("computer/api/json");
            lemma_slash_before_colon(path@, 8);
        }
        path
    }

    fn params(&self) -> (params: Option<Vec<(&str, &str)>>) {
        None
    }
}

} // verus!
