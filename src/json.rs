use vstd::prelude::*;

verus! {

#[verifier::external_type_specification]
#[verifier::external_body]
pub struct ExValue(serde_json::Value);

/// The text of the string member `key` of the JSON object written in `body`;
/// `None` where `body` is no JSON object, or the member is missing or no string.
pub uninterp spec fn json_text_member(body: Seq<char>, key: Seq<char>) -> Option<Seq<char>>;

/// The member `key` of the JSON object written in `body`, when it is an integer
/// that fits in 64 unsigned bits.
pub uninterp spec fn json_u64_member(body: Seq<char>, key: Seq<char>) -> Option<u64>;

/// The member `key`, of any kind, of the JSON object written in `body`.
pub uninterp spec fn json_member(body: Seq<char>, key: Seq<char>) -> Option<serde_json::Value>;

/// Relies on serde_json::from_str, Value::get and Value::as_str: parses `body` and
/// reads the string member `key`.
#[verifier::external_body]
pub(crate) fn text_member(body: &str, key: &str) -> (r: Option<String>)
    ensures
        match r {
            Some(s) => json_text_member(body@, key@) == Some(s@),
            None => json_text_member(body@, key@) is None,
        },
{
    let doc: serde_json::Value = serde_json::from_str(body).ok()?;
    let s = doc.get(key)?.as_str()?;
    Some(s.to_string())
}

/// Relies on serde_json::from_str, Value::get and Value::as_u64: parses `body` and
/// reads the unsigned integer member `key`.
#[verifier::external_body]
pub(crate) fn u64_member(body: &str, key: &str) -> (r: Option<u64>)
    ensures
        r == json_u64_member(body@, key@),
{
    let doc: serde_json::Value = serde_json::from_str(body).ok()?;
    doc.get(key)?.as_u64()
}

/// Relies on serde_json::from_str and Value::get: parses `body` and hands on the
/// member `key` as it stands in the document.
#[verifier::external_body]
pub(crate) fn any_member(body: &str, key: &str) -> (r: Option<serde_json::Value>)
    ensures
        r == json_member(body@, key@),
{
    let doc: serde_json::Value = serde_json::from_str(body).ok()?;
    doc.get(key).cloned()
}

} // verus!
