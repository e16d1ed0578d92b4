//! The jobs listing.

use vstd::prelude::*;
use vstd::string::StringExecFns;
use super::lemma_slash_before_colon;
use super::Endpoint;
use super::ParamsView;

verus! {

/// Endpoint that lists the jobs with their name, URL and colour:
/// `{"jobs": [{"name", "url", "color"}, ...]}`.
pub struct JobsInfo;

impl Endpoint for JobsInfo {
    open spec fn method_spec(&self) -> Seq<char> {
        "GET"@
    }

    open spec fn path_spec(&self) -> Seq<char> {
        "api/json?tree=jobs[name,url,color]"@
    }

    open spec fn params_spec(&self) -> ParamsView {
        None
    }

    fn method(&self) -> (m: &str) {
        "GET"
    }

    fn endpoint(&self) -> (path: String) {
        let path = String::from_str("api/json?tree=jobs[name,url,color]");
        proof {
            reveal_strlit("api/json?tree=jobs[name,url,color]");
            lemma_slash_before_colon(path@, 3);
        }
        path
    }

    fn params(&self) -> (params: Option<Vec<(&str, &str)>>) {
        None
    }
}

} // verus!
