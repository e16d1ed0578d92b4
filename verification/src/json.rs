//! JSON documents as `serde_json` holds them, and what this library reads of them.
//!
//! A document stays a `serde_json::Value`. Verus cannot look into one, so
//! [`json_view`] names the mathematical tree that it holds, and each accessor
//! of `serde_json` that the library calls says over that tree what it returns.
//! These contracts are believed, not proved.

use vstd::prelude::*;
use vstd::utf8::encode_utf8;
use vstd::utf8::encode_utf8_decode_utf8;

verus! {

/// `serde_json::Value`, a parsed JSON document.
#[verifier::external_type_specification]
#[verifier::external_body]
pub struct ExValue(serde_json::Value);

/// `serde_json::Error`, the error of a failed parse.
#[verifier::external_type_specification]
#[verifier::external_body]
pub struct ExJsonError(serde_json::Error);

/// A JSON number, as far as this library tells numbers apart.
pub enum JsonNumber {
    /// A number that is held as an integer: one from `i64::MIN` to
    /// `u64::MAX` that was written without fraction or exponent.
    Integer(int),
    /// Any other number.
    Real,
}

/// The mathematical model of a JSON document.
pub enum JsonTree {
    Null,
    Bool(bool),
    Number(JsonNumber),
    String(Seq<char>),
    Array(Seq<JsonTree>),
    /// The members in the order in which the document yields them.
    Object(Seq<(Seq<char>, JsonTree)>),
}

/// The members of a JSON object as mathematical values.
pub type Members = Seq<(Seq<char>, JsonTree)>;

/// What a `serde_json::Value` holds: the document as a tree.
pub uninterp spec fn json_view(value: serde_json::Value) -> JsonTree;

/// What `serde_json::from_str` makes of a text: the document that the text
/// is, or `None` where the parser refuses the text.
pub uninterp spec fn json_parse(text: Seq<char>) -> Option<JsonTree>;

/// The views of the members that [`object_members`] hands out.
pub open spec fn members_view(members: Seq<(&str, &serde_json::Value)>) -> Members {
    members.map_values(|m: (&str, &serde_json::Value)| (m.0@, json_view(*m.1)))
}

/// The views of the elements of an array.
pub open spec fn elements_view(elements: Seq<serde_json::Value>) -> Seq<JsonTree> {
    elements.map_values(|e: serde_json::Value| json_view(e))
}

/// The value of the first member of the given name at or after an index.
pub open spec fn member_from(members: Members, name: Seq<char>, from: int) -> Option<JsonTree>
    decreases members.len() - from,
{
    if from < 0 || from >= members.len() {
        None
    } else if members[from].0 == name {
        Some(members[from].1)
    } else {
        member_from(members, name, from + 1)
    }
}

/// The value of the member of the given name, if the object has one.
pub open spec fn member(members: Members, name: Seq<char>) -> Option<JsonTree> {
    member_from(members, name, 0)
}

/// Parses a text with `serde_json::from_str`. What comes back depends on the
/// text alone: [`json_parse`] names it, an error standing for `None`.
#[verifier::external_body]
pub(crate) fn parse_value(text: &str) -> (r: Result<serde_json::Value, serde_json::Error>)
    ensures
        match r {
            Ok(value) => json_parse(text@) == Some(json_view(value)),
            Err(_) => json_parse(text@) is None,
        },
{
    serde_json::from_str::<serde_json::Value>(text)
}

/// `Value::as_object` and `Map::iter`: the members of a JSON object, each with
/// its name, in the order in which the map yields them; `None` for any other
/// value.
#[verifier::external_body]
pub(crate) fn object_members<'a>(value: &'a serde_json::Value) -> (r: Option<
    Vec<(&'a str, &'a serde_json::Value)>,
>)
    ensures
        match r {
            Some(members) => json_view(*value) == JsonTree::Object(members_view(members@)),
            None => !(json_view(*value) is Object),
        },
{
    value.as_object().map(|object| object.iter().map(|(name, v)| (name.as_str(), v)).collect())
}

/// `Value::as_array`: the elements of a JSON array, `None` for any other value.
#[verifier::external_body]
pub(crate) fn value_as_array<'a>(value: &'a serde_json::Value) -> (r: Option<
    &'a Vec<serde_json::Value>,
>)
    ensures
        match r {
            Some(elements) => json_view(*value) == JsonTree::Array(elements_view(elements@)),
            None => !(json_view(*value) is Array),
        },
{
    value.as_array()
}

/// `Value::as_str`: the text of a JSON string, `None` for any other value.
#[verifier::external_body]
pub(crate) fn value_as_str<'a>(value: &'a serde_json::Value) -> (r: Option<&'a str>)
    ensures
        match r {
            Some(text) => json_view(*value) == JsonTree::String(text@),
            None => !(json_view(*value) is String),
        },
{
    value.as_str()
}

/// `Value::as_u64`: the number, if the value is an integer from 0 to
/// `u64::MAX`; `None` for any other value.
#[verifier::external_body]
pub(crate) fn value_as_u64(value: &serde_json::Value) -> (r: Option<u64>)
    ensures
        match r {
            Some(n) => json_view(*value) == JsonTree::Number(JsonNumber::Integer(n as int)),
            None => !(json_view(*value) matches JsonTree::Number(JsonNumber::Integer(n)) && n
                >= 0),
        },
{
    value.as_u64()
}

/// Whether two texts are the same, character by character. (`==` on `str`
/// has no specification in vstd; this compares the UTF-8 bytes.)
pub fn same_text(a: &str, b: &str) -> (same: bool)
    ensures
        same == (a@ == b@),
{
    let x = a.as_bytes();
    let y = b.as_bytes();
    proof {
        encode_utf8_decode_utf8(a@);
        encode_utf8_decode_utf8(b@);
    }
    if x.len() != y.len() {
        return false;
    }
    let mut i: usize = 0;
    while i < x.len()
        invariant
            i <= x.len(),
            x.len() == y.len(),
            forall|j: int| 0 <= j < i ==> x[j] == y[j],
            x@ == encode_utf8(a@),
            y@ == encode_utf8(b@),
        decreases x.len() - i,
    {
        if x[i] != y[i] {
            return false;
        }
        i += 1;
    }
    assert(x@ =~= y@);
    true
}

/// Looks a member up by its name: the value of the first member so named.
pub(crate) fn find_member<'a>(
    members: &Vec<(&'a str, &'a serde_json::Value)>,
    name: &str,
) -> (found: Option<&'a serde_json::Value>)
    ensures
        match found {
            Some(value) => member(members_view(members@), name@) == Some(json_view(*value)),
            None => member(members_view(members@), name@) is None,
        },
{
    let ghost view = members_view(members@);
    let mut i: usize = 0;
    while i < members.len()
        invariant
            i <= members.len(),
            view == members_view(members@),
            member(view, name@) == member_from(view, name@, i as int),
        decreases members.len() - i,
    {
        let entry = &members[i];
        if same_text(entry.0, name) {
            return Some(entry.1);
        }
        i += 1;
    }
    None
}

} // verus!
