//! The calls this library makes into outside crates, each behind a trusted
//! item whose contract says what the crate's source and documentation show.

use axum::http::{HeaderMap, HeaderValue};
use base64::Engine;
use vstd::prelude::*;

verus! {

/// What `base64::engine::general_purpose::STANDARD.decode` gives for a text:
/// the decoded bytes, or the text of the `DecodeError` it reports.
pub uninterp spec fn base64_standard_decode(text: Seq<char>) -> Result<Seq<u8>, Seq<char>>;

/// Calls `base64::engine::general_purpose::STANDARD.decode` (RFC 4648 alphabet,
/// padding required) on the characters of `text`. Trusted: the result, bytes or
/// the error's display text, is what `base64_standard_decode` names for `text`.
#[verifier::external_body]
pub(crate) fn decode_base64(text: &str) -> (r: Result<Vec<u8>, String>)
    ensures
        match r {
            Ok(bytes) => base64_standard_decode(text@) == Ok::<Seq<u8>, Seq<char>>(bytes@),
            Err(msg) => base64_standard_decode(text@) == Err::<Seq<u8>, Seq<char>>(msg@),
        },
{
    base64::engine::general_purpose::STANDARD.decode(text).map_err(|e| e.to_string())
}


/// `axum::http::HeaderMap`, the multimap of an HTTP message's headers.
#[verifier::external_type_specification]
#[verifier::external_body]
#[verifier::reject_recursive_types(T)]
pub struct ExHeaderMap<T>(HeaderMap<T>);

/// `axum::http::HeaderValue`, the bytes of one header field value.
#[verifier::external_type_specification]
#[verifier::external_body]
pub struct ExHeaderValue(HeaderValue);

/// What a header map holds: for each header name present (in its canonical
/// lower-case form), the bytes of the first value stored under it, the one
/// `HeaderMap::get` returns.
pub uninterp spec fn header_first_values(headers: HeaderMap<HeaderValue>) -> Map<Seq<char>, Seq<u8>>;

/// What a header value holds: its bytes.
pub uninterp spec fn header_value_bytes(value: HeaderValue) -> Seq<u8>;

/// A canonical header name: non-empty, made of lower-case letters, digits and `-`.
pub open spec fn is_canonical_header_name(name: Seq<char>) -> bool {
    &&& name.len() > 0
    &&& forall|i: int| 0 <= i < name.len() ==> {
        let c = #[trigger] name[i];
        ('a' <= c && c <= 'z') || ('0' <= c && c <= '9') || c == '-'
    }
}

/// Calls `HeaderMap::get` with a canonical header name. Trusted: it returns the
/// first value stored under that name, or nothing when the name is absent.
#[verifier::external_body]
pub(crate) fn header_get<'a>(headers: &'a HeaderMap<HeaderValue>, name: &str) -> (r: Option<&'a HeaderValue>)
    requires
        is_canonical_header_name(name@),
    ensures
        r is Some <==> header_first_values(*headers).contains_key(name@),
        r matches Some(v) ==> header_value_bytes(*v) == header_first_values(*headers)[name@],
{
    headers.get(name)
}

/// The bytes `HeaderValue::to_str` accepts: tab and the visible ASCII range 32..=126.
pub open spec fn is_visible_ascii(b: u8) -> bool {
    (32 <= b && b < 127) || b == 9
}

/// The characters of an ASCII byte sequence.
pub open spec fn ascii_chars(bytes: Seq<u8>) -> Seq<char> {
    Seq::new(bytes.len(), |i: int| (bytes[i] as u32) as char)
}

/// Calls `HeaderValue::to_str` and copies the text. Trusted: the value is text
/// exactly when each of its bytes is a tab or visible ASCII, and the text is
/// those bytes read as characters.
#[verifier::external_body]
pub(crate) fn header_value_text(value: &HeaderValue) -> (r: Option<String>)
    ensures
        r is Some <==> (forall|i: int| 0 <= i < header_value_bytes(*value).len() ==> is_visible_ascii(#[trigger] header_value_bytes(*value)[i])),
        r matches Some(s) ==> s@ == ascii_chars(header_value_bytes(*value)),
{
    value.to_str().ok().map(|s| s.to_string())
}


/// A session id as `uuid::Uuid::new_v4().to_string()` writes one: 36
/// characters, hyphens at 8, 13, 18 and 23, lower-case hex digits elsewhere,
/// version digit `4` at 14 and an RFC 9562 variant digit (`8`, `9`, `a`, `b`) at 19.
pub open spec fn is_uuid_v4_text(s: Seq<char>) -> bool {
    &&& s.len() == 36
    &&& forall|i: int| 0 <= i < 36 ==> {
        let c = #[trigger] s[i];
        if i == 8 || i == 13 || i == 18 || i == 23 {
            c == '-'
        } else {
            ('0' <= c && c <= '9') || ('a' <= c && c <= 'f')
        }
    }
    &&& s[14] == '4'
    &&& (s[19] == '8' || s[19] == '9' || s[19] == 'a' || s[19] == 'b')
}

/// Calls `uuid::Uuid::new_v4` and formats the id with `to_string`. Trusted:
/// the id is random (two calls may give anything), but always a version-4
/// UUID in lower-case hyphenated form.
#[verifier::external_body]
pub(crate) fn new_session_id() -> (id: String)
    ensures
        is_uuid_v4_text(id@),
{
    uuid::Uuid::new_v4().to_string()
}

/// The `method` member of a JSON text: the member's string when the text
/// parses (with `serde_json`) as a JSON value whose `method` member is a string.
pub uninterp spec fn json_method_member(text: Seq<char>) -> Option<Seq<char>>;

/// Calls `serde_json::from_str::<serde_json::Value>` and reads the parsed
/// value's `method` member as a string (`Value::get`, `Value::as_str`).
/// Trusted: the outcome is what `json_method_member` names for the text.
#[verifier::external_body]
pub(crate) fn json_method(text: &str) -> (r: Option<String>)
    ensures
        match r {
            Some(m) => json_method_member(text@) == Some(m@),
            None => json_method_member(text@) is None,
        },
{
    serde_json::from_str::<serde_json::Value>(text)
        .ok()
        .and_then(|v| v.get("method").and_then(|m| m.as_str()).map(|m| m.to_string()))
}

} // verus!
