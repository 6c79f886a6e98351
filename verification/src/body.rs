//! Reading a payload as text or as JSON.
//!
//! Whether bytes are JSON, and how a JSON value is written out, is the
//! `serde_json` crate's business; whether bytes are UTF-8 is the standard
//! library's. What is decided here is which failure the caller sees.

use vstd::prelude::*;
use vstd::utf8::{decode_utf8, encode_utf8, valid_utf8};
use crate::error::{described, ErrorInfo, ErrorKind, VaneError};
use crate::model::VaneResponse;
use crate::target::{text_or_error, text_outcome};

verus! {

/// The result of `serde_json::from_slice` to a `serde_json::Value` on
/// `bytes`: nothing where they are one JSON document, the text of the parse
/// error otherwise.
pub uninterp spec fn json_error(bytes: Seq<u8>) -> Option<Seq<char>>;

/// The result of parsing `bytes` to a `serde_json::Value` and writing the
/// value out with `serde_json::to_string_pretty`: the indented document, or
/// the text of the error.
pub uninterp spec fn json_pretty(bytes: Seq<u8>) -> Result<Seq<char>, Seq<char>>;

/// The text in which the standard library says why `bytes` are not UTF-8.
pub uninterp spec fn utf8_error(bytes: Seq<u8>) -> Seq<char>;

/// The content of an optional text.
pub open spec fn text_if_any(o: Option<String>) -> Option<Seq<char>> {
    match o {
        Some(s) => Some(s@),
        None => None,
    }
}

/// What a validation reports: the input itself where no syntax error was
/// found, an error of class `Json` otherwise.
pub open spec fn validation_outcome(input: Seq<char>, syntax_error: Option<Seq<char>>) -> Result<
    Seq<char>,
    ErrorInfo,
> {
    match syntax_error {
        None => Ok(input),
        Some(t) => Err(described(ErrorKind::Json, "Parse JSON failed: "@, t)),
    }
}

/// What re-serialization reports: the indented document, or an error of
/// class `Json`.
pub open spec fn pretty_outcome(pretty: Result<Seq<char>, Seq<char>>) -> Result<
    Seq<char>,
    ErrorInfo,
> {
    match pretty {
        Ok(s) => Ok(s),
        Err(t) => Err(described(ErrorKind::Json, "Serialize JSON failed: "@, t)),
    }
}

/// The indented rendering of a payload that is JSON, or the error that the
/// caller sees.
pub open spec fn pretty_json(bytes: Seq<u8>) -> Result<Seq<char>, ErrorInfo> {
    match json_error(bytes) {
        Some(t) => Err(described(ErrorKind::Json, "Parse JSON failed: "@, t)),
        None => pretty_outcome(json_pretty(bytes)),
    }
}

/// What decoding reports: the text, or an error of class `Decode`.
pub open spec fn utf8_outcome(decoded: Result<Seq<char>, Seq<char>>) -> Result<
    Seq<char>,
    ErrorInfo,
> {
    match decoded {
        Ok(s) => Ok(s),
        Err(t) => Err(described(ErrorKind::Decode, "Invalid UTF-8 in response body: "@, t)),
    }
}

/// The text that a payload encodes, or the error that the caller sees.
pub open spec fn utf8_text(bytes: Seq<u8>) -> Result<Seq<char>, ErrorInfo> {
    if valid_utf8(bytes) {
        Ok(decode_utf8(bytes))
    } else {
        Err(described(ErrorKind::Decode, "Invalid UTF-8 in response body: "@, utf8_error(bytes)))
    }
}

/// JSON helper idempotence. A validation that succeeds hands back its input,
/// so validating what it handed back succeeds again with the same text; a
/// validation that fails, fails with class `Json`.
pub proof fn lemma_validation_is_idempotent(input: Seq<char>)
    ensures
        match validation_outcome(input, json_error(encode_utf8(input))) {
            Ok(s) => s == input && validation_outcome(s, json_error(encode_utf8(s))) == Ok::<
                Seq<char>,
                ErrorInfo,
            >(input),
            Err(e) => e.kind == ErrorKind::Json,
        },
{
}

/// `serde_json::from_slice::<serde_json::Value>`. The result is nothing
/// where the bytes parse, the `Display` text of the `serde_json::Error`
/// where they do not.
#[verifier::external_body]
fn json_syntax_error(bytes: &[u8]) -> (r: Option<String>)
    ensures
        text_if_any(r) == json_error(bytes@),
{
    match serde_json::from_slice::<serde_json::Value>(bytes) {
        Ok(_) => None,
        Err(e) => Some(format!("{e}")),
    }
}

/// `serde_json::to_string_pretty`, on the `serde_json::Value` that `bytes`
/// parse to. The result is the indented document, or the `Display` text of
/// the `serde_json::Error` of whichever of the two steps failed. Writing a
/// `Value` into memory has nothing to fail on, so the result is an error
/// exactly where the bytes do not parse, and then it is that parse error.
#[verifier::external_body]
fn json_pretty_text(bytes: &[u8]) -> (r: Result<String, String>)
    ensures
        text_outcome(r) == json_pretty(bytes@),
        r is Ok <==> json_error(bytes@) is None,
        r matches Err(t) ==> json_error(bytes@) == Some(t@),
{
    match serde_json::from_slice::<serde_json::Value>(bytes) {
        Ok(value) => match serde_json::to_string_pretty(&value) {
            Ok(s) => Ok(s),
            Err(e) => Err(format!("{e}")),
        },
        Err(e) => Err(format!("{e}")),
    }
}

/// `String::from_utf8`, on a copy of `bytes`. It succeeds exactly on valid
/// UTF-8 and then yields the text that the bytes encode; otherwise the
/// result is the `Display` text of the `FromUtf8Error`.
#[verifier::external_body]
pub(crate) fn decode_text(bytes: &[u8]) -> (r: Result<String, String>)
    ensures
        match r {
            Ok(s) => valid_utf8(bytes@) && s@ == decode_utf8(bytes@),
            Err(t) => !valid_utf8(bytes@) && t@ == utf8_error(bytes@),
        },
{
    match String::from_utf8(bytes.to_vec()) {
        Ok(s) => Ok(s),
        Err(e) => Err(format!("{e}")),
    }
}

/// Reports a validation to the caller.
pub fn report_validation(input: String, syntax_error: Option<String>) -> (r: Result<
    String,
    VaneError,
>)
    ensures
        text_or_error(r) == validation_outcome(input@, text_if_any(syntax_error)),
{
    match syntax_error {
        None => Ok(input),
        Some(t) => Err(VaneError::describe(ErrorKind::Json, "Parse JSON failed: ", t.as_str())),
    }
}

/// Reports a re-serialization to the caller.
pub fn report_pretty(pretty: Result<String, String>) -> (r: Result<String, VaneError>)
    ensures
        text_or_error(r) == pretty_outcome(text_outcome(pretty)),
{
    match pretty {
        Ok(s) => Ok(s),
        Err(t) => Err(VaneError::describe(ErrorKind::Json, "Serialize JSON failed: ", t.as_str())),
    }
}

/// Reports a decoding to the caller.
pub fn report_utf8(decoded: Result<String, String>) -> (r: Result<String, VaneError>)
    ensures
        text_or_error(r) == utf8_outcome(text_outcome(decoded)),
{
    match decoded {
        Ok(s) => Ok(s),
        Err(t) => Err(
            VaneError::describe(ErrorKind::Decode, "Invalid UTF-8 in response body: ", t.as_str()),
        ),
    }
}

/// Confirms that `input` is one JSON document and hands it back unchanged.
pub fn validate_json_body(input: String) -> (r: Result<String, VaneError>)
    ensures
        text_or_error(r) == validation_outcome(input@, json_error(encode_utf8(input@))),
{
    let syntax_error = json_syntax_error(input.as_str().as_bytes());
    report_validation(input, syntax_error)
}

/// Parses the body of `resp` as JSON and writes it out again, indented. It
/// succeeds exactly where the body is one JSON document.
pub fn parse_json_response(resp: &VaneResponse) -> (r: Result<String, VaneError>)
    ensures
        text_or_error(r) == pretty_json(resp.body@),
        r is Ok <==> json_error(resp.body@) is None,
        r matches Ok(s) ==> json_pretty(resp.body@) == Ok::<Seq<char>, Seq<char>>(s@),
        r matches Err(e) ==> e@.kind == ErrorKind::Json && e@.status_code is None,
{
    match json_syntax_error(resp.body.as_slice()) {
        Some(t) => Err(VaneError::describe(ErrorKind::Json, "Parse JSON failed: ", t.as_str())),
        None => report_pretty(json_pretty_text(resp.body.as_slice())),
    }
}

/// Decodes the body of `resp` as UTF-8 text.
pub fn response_body_utf8(resp: &VaneResponse) -> (r: Result<String, VaneError>)
    ensures
        text_or_error(r) == utf8_text(resp.body@),
{
    report_utf8(decode_text(resp.body.as_slice()))
}

} // verus!
