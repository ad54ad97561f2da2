//! The JSON boundary: the few serde_json calls the client logic relies on,
//! each behind a contract, with names for the values they compute.

use vstd::prelude::*;

verus! {

/// The error type serde_json reports when a body is not valid JSON.
#[verifier::external_type_specification]
#[verifier::external_body]
pub struct ExSerdeJsonError(serde_json::Error);

/// The JSON string literal (surrounding quotes and escapes included) that
/// encodes a given text. It depends on the characters of the text alone.
pub uninterp spec fn json_string_of(s: Seq<char>) -> Seq<char>;

/// Whether a body parses as JSON. It depends on the body text alone.
pub uninterp spec fn body_is_json(body: Seq<char>) -> bool;

/// What the `html_url` member of a JSON body holds: `Some` of the member's
/// text when it is present and a string, `None` otherwise. Meaningful only
/// for bodies that parse as JSON; it depends on the body text alone.
pub uninterp spec fn json_html_url(body: Seq<char>) -> Option<Seq<char>>;

/// Relies on serde_json::to_string on a string slice: it returns the JSON
/// string literal for the text, and serializing a string slice cannot fail.
#[verifier::external_body]
pub fn encode_json_string(s: &str) -> (r: String)
    ensures
        r@ == json_string_of(s@),
{
    serde_json::to_string(s).expect("serializing a string slice cannot fail")
}

/// Relies on serde_json::from_str to decide whether the body is valid JSON,
/// and on serde_json's Value indexing and Value::as_str to read the
/// `html_url` member as a string; both are functions of the body text alone.
#[verifier::external_body]
pub fn decode_html_url(body: &str) -> (r: Result<Option<String>, serde_json::Error>)
    ensures
        r is Ok <==> body_is_json(body@),
        r matches Ok(u) ==> (match json_html_url(body@) {
            Some(v) => u matches Some(s) && s@ == v,
            None => u is None,
        }),
{
    let value: serde_json::Value = serde_json::from_str(body)?;
    Ok(value["html_url"].as_str().map(|s| s.to_string()))
}

} // verus!
