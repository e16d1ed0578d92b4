//! The records that structured responses decode into.

use vstd::prelude::*;
use vstd::string::StringExecFns;
use crate::decode::read_text;
use crate::decode::read_u32;
use crate::decode::text_field;
use crate::decode::u32_field;
use crate::decode::FromJson;
use crate::error::DecodeError;
use crate::error::DecodeErrorView;
use crate::json::elements_view;
use crate::json::find_member;
use crate::json::json_view;
use crate::json::member;
use crate::json::object_members;
use crate::json::value_as_array;
use crate::json::JsonTree;

verus! {

/// A Jenkins job as the jobs listing reports it.
#[derive(Debug, Clone, PartialEq, Eq)]
pub struct Job {
    /// Name of the job.
    pub name: String,
    /// URL under which the job is reached.
    pub url: String,
    /// Status colour of the job (blue, red, yellow, ...).
    pub color: String,
}

/// A job as a mathematical value.
pub struct JobView {
    pub name: Seq<char>,
    pub url: Seq<char>,
    pub color: Seq<char>,
}

impl View for Job {
    type V = JobView;

    open spec fn view(&self) -> JobView {
        JobView { name: self.name@, url: self.url@, color: self.color@ }
    }
}

/// What a document decodes to as a job: it must be an object whose members
/// `name`, `url` and `color` are strings. Other members are ignored.
pub open spec fn job_shape(tree: JsonTree) -> Result<JobView, DecodeErrorView> {
    match tree {
        JsonTree::Object(members) => match text_field(members, "name"@) {
            Err(e) => Err(e),
            Ok(name) => match text_field(members, "url"@) {
                Err(e) => Err(e),
                Ok(url) => match text_field(members, "color"@) {
                    Err(e) => Err(e),
                    Ok(color) => Ok(JobView { name, url, color }),
                },
            },
        },
        _ => Err(DecodeErrorView::TypeMismatch(Seq::empty())),
    }
}

impl Job {
    /// Decodes one job of a jobs listing.
    pub fn from_value(value: &serde_json::Value) -> (r: Result<Job, DecodeError>)
        ensures
            match r {
                Ok(job) => job_shape(json_view(*value)) == Ok::<JobView, DecodeErrorView>(job@),
                Err(e) => job_shape(json_view(*value)) == Err::<JobView, DecodeErrorView>(e@),
            },
    {
        let members = match object_members(value) {
            Some(members) => members,
            None => {
                return Err(DecodeError::TypeMismatch(String::new()));
            },
        };
        let name = match read_text(&members, "name") {
            Ok(name) => name,
            Err(e) => {
                return Err(e);
            },
        };
        let url = match read_text(&members, "url") {
            Ok(url) => url,
            Err(e) => {
                return Err(e);
            },
        };
        let color = match read_text(&members, "color") {
            Ok(color) => color,
            Err(e) => {
                return Err(e);
            },
        };
        Ok(Job { name, url, color })
    }
}

impl FromJson for Job {
    open spec fn mismatch(tree: JsonTree) -> Option<DecodeErrorView> {
        match job_shape(tree) {
            Ok(_) => None,
            Err(e) => Some(e),
        }
    }

    open spec fn decodes(tree: JsonTree, decoded: Self) -> bool {
        job_shape(tree) == Ok::<JobView, DecodeErrorView>(decoded@)
    }

    fn from_json(value: serde_json::Value) -> (r: Result<Self, DecodeError>) {
        Job::from_value(&value)
    }
}

/// The mismatch of the first element at or after an index that does not
/// decode as a job; `None` if all of them do.
pub open spec fn first_job_mismatch(elements: Seq<JsonTree>, from: int) -> Option<
    DecodeErrorView,
>
    decreases elements.len() - from,
{
    if from < 0 || from >= elements.len() {
        None
    } else {
        match job_shape(elements[from]) {
            Err(e) => Some(e),
            Ok(_) => first_job_mismatch(elements, from + 1),
        }
    }
}

/// Why a document is no jobs listing; `None` if it is one. A jobs listing is
/// an object whose member `jobs` is an array of jobs.
pub open spec fn jobs_mismatch(tree: JsonTree) -> Option<DecodeErrorView> {
    match tree {
        JsonTree::Object(members) => match member(members, "jobs"@) {
            None => Some(DecodeErrorView::MissingField("jobs"@)),
            Some(JsonTree::Array(elements)) => first_job_mismatch(elements, 0),
            Some(_) => Some(DecodeErrorView::TypeMismatch("jobs"@)),
        },
        _ => Some(DecodeErrorView::TypeMismatch(Seq::empty())),
    }
}

/// Whether `jobs` are the jobs of a jobs listing, in the listing's order.
pub open spec fn is_jobs_of(tree: JsonTree, jobs: Seq<Job>) -> bool {
    &&& tree matches JsonTree::Object(members)
    &&& member(members, "jobs"@) matches Some(JsonTree::Array(elements))
    &&& jobs.len() == elements.len()
    &&& forall|i: int|
        0 <= i < jobs.len() ==> job_shape(#[trigger] elements[i]) == Ok::<
            JobView,
            DecodeErrorView,
        >(jobs[i]@)
}

/// Decodes the jobs of a jobs listing, `{"jobs": [{"name", "url", "color"}, ...]}`.
pub fn jobs_from_value(value: &serde_json::Value) -> (r: Result<Vec<Job>, DecodeError>)
    ensures
        match r {
            Ok(jobs) => jobs_mismatch(json_view(*value)) is None && is_jobs_of(
                json_view(*value),
                jobs@,
            ),
            Err(e) => jobs_mismatch(json_view(*value)) == Some(e@),
        },
{
    let members = match object_members(value) {
        Some(members) => members,
        None => {
            return Err(DecodeError::TypeMismatch(String::new()));
        },
    };
    let listed = match find_member(&members, "jobs") {
        Some(listed) => listed,
        None => {
            return Err(DecodeError::MissingField(String::from_str("jobs")));
        },
    };
    let elements = match value_as_array(listed) {
        Some(elements) => elements,
        None => {
            return Err(DecodeError::TypeMismatch(String::from_str("jobs")));
        },
    };
    let ghost trees = elements_view(elements@);
    let mut jobs: Vec<Job> = Vec::new();
    let mut i: usize = 0;
    while i < elements.len()
        invariant
            i <= elements.len(),
            jobs.len() == i,
            trees == elements_view(elements@),
            json_view(*value) matches JsonTree::Object(all) && member(all, "jobs"@) == Some(
                JsonTree::Array(trees),
            ),
            first_job_mismatch(trees, 0) == first_job_mismatch(trees, i as int),
            forall|j: int|
                0 <= j < i ==> job_shape(#[trigger] trees[j]) == Ok::<JobView, DecodeErrorView>(
                    jobs[j]@,
                ),
        decreases elements.len() - i,
    {
        match Job::from_value(&elements[i]) {
            Ok(job) => {
                jobs.push(job);
            },
            Err(e) => {
                return Err(e);
            },
        }
        i += 1;
    }
    Ok(jobs)
}

/// A jobs listing decodes into its jobs.
impl FromJson for Vec<Job> {
    open spec fn mismatch(tree: JsonTree) -> Option<DecodeErrorView> {
        jobs_mismatch(tree)
    }

    open spec fn decodes(tree: JsonTree, decoded: Self) -> bool {
        is_jobs_of(tree, decoded@)
    }

    fn from_json(value: serde_json::Value) -> (r: Result<Self, DecodeError>) {
        jobs_from_value(&value)
    }
}

/// Statistics of the executor pool.
///
/// `idle_executors` is not part of the wire format: it is zero after a decode
/// and holds `total_executors - busy_executors` only once
/// [`ExecutorsInfo::calculate_idle`] has run.
#[derive(Debug, Clone, Copy, PartialEq, Eq)]
pub struct ExecutorsInfo {
    /// Total number of executors.
    pub total_executors: u32,
    /// Number of executors that run a build.
    pub busy_executors: u32,
    /// Number of idle executors, once computed.
    pub idle_executors: u32,
}

/// What a document decodes to as executor statistics: it must be an object
/// whose members `totalExecutors` and `busyExecutors` are numbers from 0 to
/// `u32::MAX`. Other members are ignored, and the number of idle executors
/// starts at zero.
pub open spec fn executors_shape(tree: JsonTree) -> Result<ExecutorsInfo, DecodeErrorView> {
    match tree {
        JsonTree::Object(members) => match u32_field(members, "totalExecutors"@) {
            Err(e) => Err(e),
            Ok(total) => match u32_field(members, "busyExecutors"@) {
                Err(e) => Err(e),
                Ok(busy) => Ok(
                    ExecutorsInfo {
                        total_executors: total,
                        busy_executors: busy,
                        idle_executors: 0,
                    },
                ),
            },
        },
        _ => Err(DecodeErrorView::TypeMismatch(Seq::empty())),
    }
}

impl ExecutorsInfo {
    /// Decodes the executor statistics of a document. The number of idle
    /// executors is zero in the result, whatever the two counts are.
    pub fn from_value(value: &serde_json::Value) -> (r: Result<ExecutorsInfo, DecodeError>)
        ensures
            match r {
                Ok(info) => executors_shape(json_view(*value)) == Ok::<
                    ExecutorsInfo,
                    DecodeErrorView,
                >(info) && info.idle_executors == 0,
                Err(e) => executors_shape(json_view(*value)) == Err::<
                    ExecutorsInfo,
                    DecodeErrorView,
                >(e@),
            },
    {
        let members = match object_members(value) {
            Some(members) => members,
            None => {
                return Err(DecodeError::TypeMismatch(String::new()));
            },
        };
        let total = match read_u32(&members, "totalExecutors") {
            Ok(total) => total,
            Err(e) => {
                return Err(e);
            },
        };
        let busy = match read_u32(&members, "busyExecutors") {
            Ok(busy) => busy,
            Err(e) => {
                return Err(e);
            },
        };
        Ok(ExecutorsInfo { total_executors: total, busy_executors: busy, idle_executors: 0 })
    }

    /// Whether the derived field agrees with the two transmitted ones.
    pub open spec fn idle_is_current(&self) -> bool {
        self.idle_executors == self.total_executors - self.busy_executors
    }

    /// Recomputes the number of idle executors from the two transmitted counts.
    pub fn calculate_idle(&mut self)
        requires
            old(self).busy_executors <= old(self).total_executors,
        ensures
            final(self).total_executors == old(self).total_executors,
            final(self).busy_executors == old(self).busy_executors,
            final(self).idle_executors == old(self).total_executors - old(self).busy_executors,
            final(self).idle_is_current(),
    {
        self.idle_executors = self.total_executors - self.busy_executors;
    }
}

impl FromJson for ExecutorsInfo {
    open spec fn mismatch(tree: JsonTree) -> Option<DecodeErrorView> {
        match executors_shape(tree) {
            Ok(_) => None,
            Err(e) => Some(e),
        }
    }

    open spec fn decodes(tree: JsonTree, decoded: Self) -> bool {
        executors_shape(tree) == Ok::<ExecutorsInfo, DecodeErrorView>(decoded)
    }

    fn from_json(value: serde_json::Value) -> (r: Result<Self, DecodeError>) {
        ExecutorsInfo::from_value(&value)
    }
}

} // verus!
