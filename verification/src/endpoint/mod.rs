//! Endpoint descriptions: which call to make, apart from how it travels.

use vstd::prelude::*;

pub mod builds;
pub mod executors;
pub mod jobs;
pub mod queue;

verus! {

/// The form pairs of a request as mathematical values.
pub type ParamsView = Option<Seq<(Seq<char>, Seq<char>)>>;

/// The view of the form pairs that an endpoint hands out.
pub open spec fn params_view(params: Option<Vec<(&str, &str)>>) -> ParamsView {
    match params {
        Some(pairs) => Some(pairs@.map_values(|p: (&str, &str)| (p.0@, p.1@))),
        None => None,
    }
}

/// Whether a text is one of the HTTP methods that endpoints use.
pub open spec fn is_known_method(method: Seq<char>) -> bool {
    method == "GET"@ || method == "POST"@
}

/// The characters of a URL scheme's name.
pub open spec fn is_scheme_char(c: char) -> bool {
    ||| 'a' <= c <= 'z'
    ||| 'A' <= c <= 'Z'
    ||| '0' <= c <= '9'
    ||| c == '+'
    ||| c == '-'
    ||| c == '.'
}

/// Whether a text begins with a URL scheme: a scheme's name, then a colon.
pub open spec fn begins_with_scheme(text: Seq<char>) -> bool {
    exists|i: int|
        0 < i < text.len() && #[trigger] text[i] == ':' && forall|j: int|
            0 <= j < i ==> is_scheme_char(#[trigger] text[j])
}

/// Whether a text is a path below a base URL: it is not empty and begins
/// neither with a slash, as a path from the root or a host would, nor with a
/// scheme.
pub open spec fn is_relative_path(path: Seq<char>) -> bool {
    &&& path.len() > 0
    &&& path[0] != '/'
    &&& !begins_with_scheme(path)
}

/// A text with a slash before its first colon begins with no scheme.
pub proof fn lemma_slash_before_colon(text: Seq<char>, slash: int)
    requires
        0 <= slash < text.len(),
        text[slash] == '/',
        forall|i: int| 0 <= i < slash ==> text[i] != ':',
    ensures
        !begins_with_scheme(text),
{
    if begins_with_scheme(text) {
        let i = choose|i: int|
            0 < i < text.len() && #[trigger] text[i] == ':' && forall|j: int|
                0 <= j < i ==> is_scheme_char(#[trigger] text[j]);
        if i > slash {
            assert(is_scheme_char(text[slash]));
        }
    }
}

/// One call of the Jenkins API: its HTTP method, its path below the base URL
/// and the form parameters that go with it, if any.
///
/// Every endpoint names a known method, and a path that is relative: the
/// transport joins it to the base URL.
pub trait Endpoint {
    /// The HTTP method of the call.
    spec fn method_spec(&self) -> Seq<char>;

    /// The path of the call, relative to the base URL.
    spec fn path_spec(&self) -> Seq<char>;

    /// The form parameters of the call.
    spec fn params_spec(&self) -> ParamsView;

    /// Returns the HTTP method (GET, POST) of this endpoint.
    fn method(&self) -> (m: &str)
        ensures
            m@ == self.method_spec(),
            is_known_method(m@),
    ;

    /// Returns the path of this endpoint below the base URL.
    fn endpoint(&self) -> (path: String)
        ensures
            path@ == self.path_spec(),
            is_relative_path(path@),
    ;

    /// Returns the form parameters of this endpoint, if it has any.
    fn params(&self) -> (params: Option<Vec<(&str, &str)>>)
        ensures
            params_view(params) == self.params_spec(),
    ;
}

} // verus!
