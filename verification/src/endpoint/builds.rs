//! Builds of a job: their console output, stopping one, triggering one.

use vstd::prelude::*;
use vstd::string::StringExecFns;
use super::lemma_slash_before_colon;
use super::Endpoint;
use super::ParamsView;
use crate::json::json_view;
use crate::json::members_view;
use crate::json::object_members;
use crate::json::value_as_str;
use crate::json::JsonTree;

verus! {

/// Endpoint that fetches the console output of a build: the job's name, then
/// the build's number.
pub struct ConsoleText<'a>(pub &'a str, pub &'a str);

impl<'a> Endpoint for ConsoleText<'a> {
    open spec fn method_spec(&self) -> Seq<char> {
        "GET"@
    }

    open spec fn path_spec(&self) -> Seq<char> {
        "job/"@ + self.0@ + "/"@ + self.1@ + "/consoleText"@
    }

    open spec fn params_spec(&self) -> ParamsView {
        None
    }

    fn method(&self) -> (m: &str) {
        "GET"
    }

    fn endpoint(&self) -> (path: String) {
        let path = String::from_str("job/").concat(self.0).concat("/").concat(self.1).concat(
            "/consoleText",
        );
        proof {
            reveal_strlit("job/");
            lemma_slash_before_colon(path@, 3);
        }
        path
    }

    fn params(&self) -> (params: Option<Vec<(&str, &str)>>) {
        None
    }
}

/// Endpoint that stops a running build: the job's name, then the build's
/// number.
pub struct StopBuild<'a>(pub &'a str, pub &'a str);

impl<'a> Endpoint for StopBuild<'a> {
    open spec fn method_spec(&self) -> Seq<char> {
        "POST"@
    }

    open spec fn path_spec(&self) -> Seq<char> {
        "job/"@ + self.0@ + "/"@ + self.1@ + "/stop"@
    }

    open spec fn params_spec(&self) -> ParamsView {
        None
    }

    fn method(&self) -> (m: &str) {
        "POST"
    }

    fn endpoint(&self) -> (path: String) {
        let path = String::from_str("job/").concat(self.0).concat("/").concat(self.1).concat(
            "/stop",
        );
        proof {
            reveal_strlit("job/");
            lemma_slash_before_colon(path@, 3);
        }
        path
    }

    fn params(&self) -> (params: Option<Vec<(&str, &str)>>) {
        None
    }
}

/// Endpoint that triggers a build of a job with parameters.
pub struct TriggerBuild<'a> {
    /// Name of the job.
    pub job_name: &'a str,
    /// Parameters of the build: a JSON object from names to values.
    pub params: &'a serde_json::Value,
}

/// The text that a parameter's value is sent as: a string as it is, any
/// other value as the empty text.
pub open spec fn form_text_spec(value: JsonTree) -> Seq<char> {
    match value {
        JsonTree::String(text) => text,
        _ => Seq::empty(),
    }
}

/// The form pairs of a build's parameters: one pair for each member of the
/// object, in the object's order; none at all if the document is no object.
pub open spec fn trigger_params(tree: JsonTree) -> ParamsView {
    match tree {
        JsonTree::Object(members) => Some(
            members.map_values(|m: (Seq<char>, JsonTree)| (m.0, form_text_spec(m.1))),
        ),
        _ => None,
    }
}

/// The text that a parameter's value is sent as, given the value's text if
/// the value is a string: that text, or else the empty text.
pub fn form_text<'a>(text: Option<&'a str>) -> (sent: &'a str)
    ensures
        sent@ == match text {
            Some(t) => t@,
            None => Seq::<char>::empty(),
        },
{
    match text {
        Some(t) => t,
        None => {
            proof {
                reveal_strlit("");
            }
            ""
        },
    }
}

/// Turns the members of a parameter object into form pairs.
fn form_pairs<'a>(members: &Vec<(&'a str, &'a serde_json::Value)>) -> (pairs: Vec<
    (&'a str, &'a str),
>)
    ensures
        Some(pairs@.map_values(|p: (&str, &str)| (p.0@, p.1@))) == trigger_params(
            JsonTree::Object(members_view(members@)),
        ),
{
    let mut pairs: Vec<(&'a str, &'a str)> = Vec::new();
    let mut i: usize = 0;
    while i < members.len()
        invariant
            i <= members.len(),
            pairs.len() == i,
            forall|j: int|
                0 <= j < i ==> (#[trigger] pairs[j]).0@ == members[j].0@ && pairs[j].1@
                    == form_text_spec(json_view(*members[j].1)),
        decreases members.len() - i,
    {
        let member = &members[i];
        pairs.push((member.0, form_text(value_as_str(member.1))));
        i += 1;
    }
    assert(pairs@.map_values(|p: (&str, &str)| (p.0@, p.1@)) =~= members_view(
        members@,
    ).map_values(|m: (Seq<char>, JsonTree)| (m.0, form_text_spec(m.1))));
    pairs
}

impl<'a> Endpoint for TriggerBuild<'a> {
    open spec fn method_spec(&self) -> Seq<char> {
        "POST"@
    }

    open spec fn path_spec(&self) -> Seq<char> {
        "job/"@ + self.job_name@ + "/buildWithParameters"@
    }

    open spec fn params_spec(&self) -> ParamsView {
        trigger_params(json_view(*self.params))
    }

    fn method(&self) -> (m: &str) {
        "POST"
    }

    fn endpoint(&self) -> (path: String) {
        let path = String::from_str("job/").concat(self.job_name).concat("/buildWithParameters");
        proof {
            reveal_strlit("job/");
            lemma_slash_before_colon(path@, 3);
        }
        path
    }

    fn params(&self) -> (params: Option<Vec<(&str, &str)>>) {
        match object_members(self.params) {
            Some(members) => Some(form_pairs(&members)),
            None => None,
        }
    }
}

} // verus!
