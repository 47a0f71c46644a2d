//! The JSON primitives this library takes from serde_json.
use vstd::prelude::*;

verus! {

#[verifier::external_type_specification]
#[verifier::external_body]
pub struct ExJsonError(serde_json::Error);

/// The members of the JSON object written in `text`, in key order, each with
/// the exact JSON text of its value; `None` where `text` is not one JSON object.
pub uninterp spec fn object_members_of(text: Seq<char>) -> Option<Seq<(Seq<char>, Seq<char>)>>;

/// The string that the JSON text `raw` denotes; `None` where `raw` is not a
/// JSON string literal.
pub uninterp spec fn json_string_of(raw: Seq<char>) -> Option<Seq<char>>;

/// The JSON string literal, quoted and escaped, that denotes `s`.
pub uninterp spec fn json_quoted(s: Seq<char>) -> Seq<char>;

/// Object members as key text and value text.
pub open spec fn members_view(ms: Seq<(String, String)>) -> Seq<(Seq<char>, Seq<char>)> {
    ms.map_values(|p: (String, String)| (p.0@, p.1@))
}

/// Relies on serde_json::from_str into a `BTreeMap` of `RawValue`s: it accepts
/// exactly one JSON object, and each `RawValue` keeps the member's text verbatim.
#[verifier::external_body]
pub(crate) fn parse_object(text: &str) -> (r: Result<Vec<(String, String)>, serde_json::Error>)
    ensures
        match r {
            Ok(ms) => object_members_of(text@) == Some(members_view(ms@)),
            Err(_) => object_members_of(text@) is None,
        },
{
    serde_json::from_str::<std::collections::BTreeMap<String, Box<serde_json::value::RawValue>>>(
        text,
    ).map(|m| m.into_iter().map(|(k, v)| (k, v.get().to_string())).collect())
}

/// Relies on serde_json::from_str into a `String`: it succeeds exactly on a
/// JSON string literal and yields the string it denotes.
#[verifier::external_body]
pub(crate) fn parse_string(raw: &str) -> (r: Result<String, serde_json::Error>)
    ensures
        match r {
            Ok(s) => json_string_of(raw@) == Some(s@),
            Err(_) => json_string_of(raw@) is None,
        },
{
    serde_json::from_str::<String>(raw)
}

/// Relies on serde_json::to_string on a `str`: it writes the quoted, escaped
/// literal; its only failures come from a failing `Serialize` impl or from
/// non-string map keys, neither of which a `str` has.
#[verifier::external_body]
pub(crate) fn quote(s: &str) -> (r: String)
    ensures
        r@ == json_quoted(s@),
{
    serde_json::to_string(s).unwrap_or_default()
}

} // verus!
