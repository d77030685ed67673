//! Decoding bytes into text, and checking text as JSON.
use vstd::prelude::*;
use vstd::utf8::{decode_utf8, valid_utf8};

verus! {

/// The text `String::from_utf8_lossy` makes of `bytes`: invalid sequences
/// become U+FFFD.
pub uninterp spec fn utf8_lossy(bytes: Seq<u8>) -> Seq<char>;

/// `text` is one complete JSON document, as `serde_json` reads it.
pub uninterp spec fn is_json(text: Seq<char>) -> bool;

/// The string held by member `key` of the JSON object that `text` holds;
/// `None` where `text` holds no object, the member is missing, or it holds no
/// string.
pub uninterp spec fn json_string_member(text: Seq<char>, key: Seq<char>) -> Option<Seq<char>>;

/// Relies on `String::from_utf8`: it succeeds exactly on valid UTF-8 and then
/// holds the decoded characters; the error's message otherwise.
#[verifier::external_body]
pub(crate) fn utf8_text(bytes: Vec<u8>) -> (r: Result<String, String>)
    ensures
        r is Ok <==> valid_utf8(bytes@),
        r matches Ok(s) ==> s@ == decode_utf8(bytes@),
{
    String::from_utf8(bytes).map_err(|e| e.to_string())
}

/// Relies on `String::from_utf8_lossy`: valid UTF-8 is decoded as it stands.
#[verifier::external_body]
pub(crate) fn utf8_text_lossy(bytes: &Vec<u8>) -> (r: String)
    ensures
        r@ == utf8_lossy(bytes@),
        valid_utf8(bytes@) ==> r@ == decode_utf8(bytes@),
{
    String::from_utf8_lossy(bytes).into_owned()
}

/// Relies on `serde_json::from_str::<serde_json::Value>`: it succeeds exactly
/// when `text` is one JSON document; the error's message otherwise.
#[verifier::external_body]
pub(crate) fn check_json(text: &str) -> (r: Result<(), String>)
    ensures
        r is Ok <==> is_json(text@),
{
    serde_json::from_str::<serde_json::Value>(text).map(|_| ()).map_err(|e| e.to_string())
}

/// Relies on `serde_json::from_str::<serde_json::Value>` to read `text`, then
/// on `Value::get` and `Value::as_str` to read its member `key` as a string.
#[verifier::external_body]
pub(crate) fn string_member(text: &str, key: &str) -> (r: Result<Option<String>, String>)
    ensures
        r is Ok <==> is_json(text@),
        r matches Ok(m) ==> (m is Some <==> json_string_member(text@, key@) is Some),
        r matches Ok(Some(v)) ==> v@ == json_string_member(text@, key@)->0,
{
    let doc = serde_json::from_str::<serde_json::Value>(text).map_err(|e| e.to_string())?;
    Ok(doc.get(key).and_then(|m| m.as_str()).map(|s| s.to_string()))
}

} // verus!
