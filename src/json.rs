//! JSON through serde_json: quoting a string, reading text and integer
//! members of a document.
use vstd::prelude::*;

verus! {

#[verifier::external_type_specification]
#[verifier::external_body]
pub struct ExJsonError(serde_json::Error);

/// A character that serde_json writes as it is inside a string literal: not
/// `"`, not `\`, not a control character below U+0020.
pub open spec fn is_plain_json_char(c: char) -> bool {
    c != '"' && c != '\\' && c >= ' '
}

/// Every character is written as it is.
pub open spec fn all_plain_json(s: Seq<char>) -> bool {
    forall|i: int| 0 <= i < s.len() ==> is_plain_json_char(#[trigger] s[i])
}

/// What `serde_json::to_string` gives for a string: the string as a JSON
/// string literal, quoted and escaped.
pub uninterp spec fn json_string_of(s: Seq<char>) -> Seq<char>;

/// Relies on `serde_json::to_string` on a `str`: it writes into memory and
/// does not fail; the literal depends on the characters alone, and a string
/// with nothing to escape is only put in quotes.
#[verifier::external_body]
pub(crate) fn json_string(s: &str) -> (r: Result<String, serde_json::Error>)
    ensures
        r is Ok,
        r matches Ok(t) ==> t@ == json_string_of(s@),
        r matches Ok(t) ==> (all_plain_json(s@) ==> t@ == seq!['"'] + s@ + seq!['"']),
{
    serde_json::to_string(s)
}

/// The text of member `key` of the JSON object `doc`: `None` when `doc` is
/// not a JSON object or the member is absent or not a string.
pub uninterp spec fn json_text_member_of(doc: Seq<char>, key: Seq<char>) -> Option<Seq<char>>;

/// The integer of member `key` of the JSON object `doc`: `None` when `doc`
/// is not a JSON object or the member is absent or not an integer that fits
/// in `i64`.
pub uninterp spec fn json_int_member_of(doc: Seq<char>, key: Seq<char>) -> Option<i64>;

/// Relies on `serde_json::from_str` into a `serde_json::Value`, then its
/// `get` and `as_str`: the text member `key` of the document.
#[verifier::external_body]
pub(crate) fn json_text_member(doc: &str, key: &str) -> (r: Option<String>)
    ensures
        r is Some <==> json_text_member_of(doc@, key@) is Some,
        r matches Some(t) ==> t@ == json_text_member_of(doc@, key@)->Some_0,
{
    let v: serde_json::Value = serde_json::from_str(doc).ok()?;
    v.get(key)?.as_str().map(String::from)
}

/// Relies on `serde_json::from_str` into a `serde_json::Value`, then its
/// `get` and `as_i64`: the integer member `key` of the document.
#[verifier::external_body]
pub(crate) fn json_int_member(doc: &str, key: &str) -> (r: Option<i64>)
    ensures
        r == json_int_member_of(doc@, key@),
{
    let v: serde_json::Value = serde_json::from_str(doc).ok()?;
    v.get(key)?.as_i64()
}

} // verus!
