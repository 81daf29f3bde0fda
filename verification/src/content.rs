//! The content decoder: a payload that arrives base64-encoded inside a JSON
//! object is unpacked into readable text; any other content is left as it is.

use vstd::prelude::*;
use vstd::string::StringExecFns;
use vstd::utf8::{decode_utf8, encode_utf8, encode_utf8_decode_utf8, encode_utf8_valid_utf8, valid_utf8};

verus! {

/// Whether `c` is a printable ASCII character: a code point from 0x20 to
/// 0x7E, both included.
pub open spec fn is_printable(c: char) -> bool {
    0x20 <= c as u32 <= 0x7E
}

/// Whether every character of `text` is printable ASCII.
pub open spec fn all_printable(text: Seq<char>) -> bool {
    forall|i: int| 0 <= i < text.len() ==> is_printable(#[trigger] text[i])
}

/// The name of the member that carries an encoded payload.
pub open spec fn payload_key() -> Seq<char> {
    "payload"@
}

/// The JSON object `{"value":"<text>"}`, with `text` put in as it is.
pub open spec fn value_object(text: Seq<char>) -> Seq<char> {
    "{\"value\":\""@ + text + "\"}"@
}

/// The string held by the member `key` of the JSON object that `text`
/// spells: `None` where `text` is not one JSON object, where the object has
/// no such member, and where the member is not a string.
pub uninterp spec fn json_string_member(text: Seq<char>, key: Seq<char>) -> Option<Seq<char>>;

/// The bytes that `text` encodes in base64 with the standard alphabet:
/// `None` where `text` is not such an encoding.
pub uninterp spec fn base64_decoded(text: Seq<char>) -> Option<Seq<u8>>;

/// What becomes of `content` once its payload has been decoded to `bytes`:
/// the value object around the text that the bytes spell, where they are
/// valid UTF-8 and spell printable ASCII only; `content` itself otherwise.
pub open spec fn rendered_payload(content: Seq<char>, bytes: Seq<u8>) -> Seq<char> {
    if valid_utf8(bytes) && all_printable(decode_utf8(bytes)) {
        value_object(decode_utf8(bytes))
    } else {
        content
    }
}

/// What becomes of `content` once its payload member, if it has one, has
/// been read as `payload`.
pub open spec fn decoded_payload(content: Seq<char>, payload: Option<Seq<char>>) -> Seq<char> {
    match payload {
        Some(encoded) => match base64_decoded(encoded) {
            Some(bytes) => rendered_payload(content, bytes),
            None => content,
        },
        None => content,
    }
}

/// The normalized form of `content`.
pub open spec fn decoded_content(content: Seq<char>) -> Seq<char> {
    decoded_payload(content, json_string_member(content, payload_key()))
}

/// Parses `text` with `serde_json::from_str` into a `serde_json::Value` and
/// hands out a copy of the string found under `key` by `Value::get`. The
/// contract gives that outcome a name and claims nothing else about it.
#[verifier::external_body]
fn string_member(text: &str, key: &str) -> (member: Option<String>)
    ensures
        match member {
            Some(found) => json_string_member(text@, key@) == Some(found@),
            None => json_string_member(text@, key@) is None,
        },
{
    let parsed: Result<serde_json::Value, serde_json::Error> = serde_json::from_str(text);
    match parsed {
        Ok(value) => match value.get(key) {
            Some(serde_json::Value::String(found)) => Some(found.clone()),
            _ => None,
        },
        Err(_) => None,
    }
}

/// Calls `base64::decode`, which reads base64 with the standard alphabet.
/// The contract gives the decoded bytes a name and claims nothing else
/// about them; a decoding error becomes `None`.
#[verifier::external_body]
fn base64_decode(text: &str) -> (bytes: Option<Vec<u8>>)
    ensures
        match bytes {
            Some(decoded) => base64_decoded(text@) == Some(decoded@),
            None => base64_decoded(text@) is None,
        },
{
    match base64::decode(text) {
        Ok(decoded) => Some(decoded),
        Err(_) => None,
    }
}

/// Calls `String::from_utf8` of the standard library: the bytes become a
/// string exactly when they are valid UTF-8, and the string then holds the
/// characters that they encode.
#[verifier::external_body]
fn utf8_text(bytes: Vec<u8>) -> (text: Option<String>)
    ensures
        text is Some <==> valid_utf8(bytes@),
        text matches Some(decoded) ==> decoded@ == decode_utf8(bytes@),
{
    match String::from_utf8(bytes) {
        Ok(decoded) => Some(decoded),
        Err(_) => None,
    }
}

/// Tells whether every character of `text` is printable ASCII.
pub fn is_printable_text(text: &str) -> (printable: bool)
    ensures
        printable == all_printable(text@),
{
    for c in it: text.chars()
        invariant
            it.seq() == text@,
            forall|i: int| 0 <= i < it.index() ==> is_printable(#[trigger] text@[i]),
    {
        let code: u32 = c as u32;
        if !(0x20 <= code && code <= 0x7E) {
            assert(text@[it.index() as int] == c);
            assert(!is_printable(text@[it.index() as int]));
            return false;
        }
    }
    true
}

/// Turns the decoded payload of `content` into the normalized content: the
/// value object around the decoded text, or `content` unchanged where the
/// bytes are not valid UTF-8 or spell anything but printable ASCII.
pub fn render_payload(content: String, bytes: Vec<u8>) -> (rendered: String)
    ensures
        rendered@ == rendered_payload(content@, bytes@),
{
    match utf8_text(bytes) {
        Some(text) => {
            if is_printable_text(text.as_str()) {
                let mut rendered = String::from_str("{\"value\":\"");
                rendered.append(text.as_str());
                rendered.append("\"}");
                rendered
            } else {
                content
            }
        },
        None => content,
    }
}

/// Normalizes `content` given the string of its payload member, if it has
/// one: the payload is decoded from base64 and rendered; where there is no
/// payload, or it is not base64, `content` comes back unchanged.
pub fn decode_payload(content: String, payload: Option<String>) -> (decoded: String)
    ensures
        decoded@ == decoded_payload(
            content@,
            match payload {
                Some(encoded) => Some(encoded@),
                None => None,
            },
        ),
{
    match payload {
        Some(encoded) => match base64_decode(encoded.as_str()) {
            Some(bytes) => render_payload(content, bytes),
            None => content,
        },
        None => content,
    }
}

/// Normalizes a raw content: where it is a JSON object whose `payload`
/// member is a base64 string that decodes to printable ASCII text, the
/// result is `{"value":"<text>"}`; in every other case it is `content`.
pub fn decode(content: String) -> (decoded: String)
    ensures
        decoded@ == decoded_content(content@),
{
    let payload = string_member(content.as_str(), "payload");
    decode_payload(content, payload)
}

/// A content whose payload is the base64 of printable ASCII text decodes to
/// the value object around that text.
pub proof fn law_decode_round_trip(content: Seq<char>, payload: Seq<char>, text: Seq<char>)
    requires
        all_printable(text),
        json_string_member(content, payload_key()) == Some(payload),
        base64_decoded(payload) == Some(encode_utf8(text)),
    ensures
        decoded_content(content) == value_object(text),
{
    encode_utf8_valid_utf8(text);
    encode_utf8_decode_utf8(text);
}

/// Printable ASCII bytes always render as the value object around the text
/// that they spell, whatever the content was.
pub proof fn law_render_round_trip(content: Seq<char>, text: Seq<char>)
    requires
        all_printable(text),
    ensures
        rendered_payload(content, encode_utf8(text)) == value_object(text),
{
    encode_utf8_valid_utf8(text);
    encode_utf8_decode_utf8(text);
}

/// Content passes through unchanged where it has no payload string, where
/// the payload is not base64, where the decoded bytes are not UTF-8, and
/// where the decoded text holds a character that is not printable ASCII.
pub proof fn law_decode_passthrough(content: Seq<char>)
    ensures
        json_string_member(content, payload_key()) is None ==> decoded_content(content) == content,
        forall|payload: Seq<char>|
            json_string_member(content, payload_key()) == Some(payload) && base64_decoded(
                payload,
            ) is None ==> decoded_content(content) == content,
        forall|payload: Seq<char>, bytes: Seq<u8>|
            json_string_member(content, payload_key()) == Some(payload) && base64_decoded(payload)
                == Some(bytes) && !valid_utf8(bytes) ==> decoded_content(content) == content,
        forall|payload: Seq<char>, bytes: Seq<u8>|
            json_string_member(content, payload_key()) == Some(payload) && base64_decoded(payload)
                == Some(bytes) && !all_printable(decode_utf8(bytes)) ==> decoded_content(content)
                == content,
{
}

} // verus!
