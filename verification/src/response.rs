//! From what the HTTP engine received to the response that the caller gets.

use vstd::prelude::*;
use vstd::utf8::{decode_utf8, encode_utf8, is_ascii_chars, valid_utf8};
use crate::body::decode_text;
use crate::error::{ErrorInfo, ErrorKind, VaneError};
use crate::headers::{distinct_headers, header_value, is_last_named, last_wins, put_header};
use crate::model::{is_success_status, ResponseView, VaneResponse};
use crate::string_map::{distinct_names, to_map, StringMap};
use crate::text::joined;

verus! {

/// The payload of a response as the HTTP engine read it: all of it, or the
/// engine's description of why it could not be read to its end.
#[derive(Clone, Debug)]
pub enum RawBody {
    Complete(Vec<u8>),
    Unreadable(String),
}

/// A response as the HTTP engine received it: the status code, the URL that
/// finally answered, the header lines in the order of their arrival with
/// their values as raw bytes, and the payload.
#[derive(Clone, Debug)]
pub struct RawResponse {
    pub status_code: u16,
    pub url: String,
    pub headers: Vec<(String, Vec<u8>)>,
    pub body: RawBody,
}

/// A byte that a header value may show as text: printable ASCII or a tab.
pub open spec fn is_visible_byte(b: u8) -> bool {
    (32 <= b && b < 127) || b == 9
}

/// Every byte of `bytes` may be shown as text.
pub open spec fn is_visible(bytes: Seq<u8>) -> bool {
    forall|i: int| 0 <= i < bytes.len() ==> is_visible_byte(#[trigger] bytes[i])
}

/// The text whose characters are the bytes of `bytes`, one for one.
pub open spec fn ascii_text(bytes: Seq<u8>) -> Seq<char> {
    Seq::new(bytes.len(), |i: int| bytes[i] as char)
}

/// The text of a header value: the value itself where all of it may be
/// shown, the empty text otherwise.
pub open spec fn header_text(bytes: Seq<u8>) -> Seq<char> {
    if is_visible(bytes) {
        ascii_text(bytes)
    } else {
        Seq::empty()
    }
}

/// The header lines of a raw response with their values as text.
pub open spec fn header_lines(raw: Seq<(String, Vec<u8>)>) -> Seq<(Seq<char>, Seq<char>)> {
    Seq::new(raw.len(), |i: int| (raw[i].0@, header_text(raw[i].1@)))
}

/// The response that a raw response becomes, or the error where its payload
/// could not be read: the status code and the final URL as they are,
/// success for the codes from 200 up to 300, each header once with the last
/// value that arrived under its name, and the payload byte for byte. The
/// error carries the status code that had arrived.
pub open spec fn converted(raw: RawResponse) -> Result<ResponseView, ErrorInfo> {
    match raw.body {
        RawBody::Complete(body) => Ok(
            ResponseView {
                status_code: raw.status_code,
                headers: last_wins(header_lines(raw.headers@)),
                body: body@,
                is_success: is_success_status(raw.status_code),
                url: raw.url@,
            },
        ),
        RawBody::Unreadable(t) => Err(
            ErrorInfo {
                kind: ErrorKind::Generic,
                message: "Read body failed: "@ + t@,
                status_code: Some(raw.status_code),
            },
        ),
    }
}

/// The content of a result that holds a response or an error.
pub open spec fn response_or_error(r: Result<VaneResponse, VaneError>) -> Result<
    ResponseView,
    ErrorInfo,
> {
    match r {
        Ok(resp) => Ok(resp@),
        Err(e) => Err(e@),
    }
}

/// Bytes that may all be shown as text are the UTF-8 encoding of the text
/// that they spell.
pub proof fn lemma_visible_is_utf8(bytes: Seq<u8>)
    requires
        is_visible(bytes),
    ensures
        valid_utf8(bytes),
        decode_utf8(bytes) == ascii_text(bytes),
{
    let chars = ascii_text(bytes);
    assert forall|i: int| 0 <= i < chars.len() implies '\0' <= #[trigger] chars[i] <= '\u{7f}' by {
        assert(is_visible_byte(bytes[i]));
    }
    assert(is_ascii_chars(chars));
    vstd::utf8::is_ascii_chars_encode_utf8(chars);
    assert forall|i: int| 0 <= i < bytes.len() implies encode_utf8(chars)[i] == bytes[i] by {
        assert(is_visible_byte(bytes[i]));
        assert(chars[i] as u8 == encode_utf8(chars)[i]);
    }
    assert(encode_utf8(chars) =~= bytes);
    vstd::utf8::encode_utf8_valid_utf8(chars);
    vstd::utf8::encode_utf8_decode_utf8(chars);
}

/// Whether every byte of `bytes` may be shown as text.
pub fn all_visible(bytes: &[u8]) -> (r: bool)
    ensures
        r == is_visible(bytes@),
{
    let n = bytes.len();
    let mut i: usize = 0;
    while i < n
        invariant
            n == bytes@.len(),
            i <= n,
            forall|j: int| 0 <= j < i ==> is_visible_byte(#[trigger] bytes@[j]),
        decreases n - i,
    {
        let b = bytes[i];
        if !((32 <= b && b < 127) || b == 9) {
            return false;
        }
        i = i + 1;
    }
    true
}

/// The text of a header value.
pub fn header_value_text(bytes: &[u8]) -> (text: String)
    ensures
        text@ == header_text(bytes@),
{
    if all_visible(bytes) {
        proof {
            lemma_visible_is_utf8(bytes@);
        }
        match decode_text(bytes) {
            Ok(text) => text,
            Err(_) => String::new(),
        }
    } else {
        String::new()
    }
}

/// Reads the header lines of a raw response into a mapping with one entry
/// per header. Where a header arrived more than once, in whatever case its
/// name was spelled, its last value is the one kept.
pub fn collect_headers(raw: &Vec<(String, Vec<u8>)>) -> (headers: StringMap)
    ensures
        headers.pairs() == last_wins(header_lines(raw@)),
        headers@ == to_map(last_wins(header_lines(raw@))),
        distinct_headers(headers.pairs()),
        distinct_names(headers.pairs()),
{
    let ghost lines = header_lines(raw@);
    let mut kept: Vec<(String, String)> = Vec::new();
    let n = raw.len();
    let mut i: usize = 0;
    assert(lines.take(0) =~= Seq::empty());
    assert(kept.deep_view() =~= last_wins(lines.take(0)));
    while i < n
        invariant
            lines == header_lines(raw@),
            n == raw@.len(),
            i <= n,
            kept.deep_view() == last_wins(lines.take(i as int)),
            distinct_headers(kept.deep_view()),
        decreases n - i,
    {
        let name = raw[i].0.clone();
        let value = header_value_text(raw[i].1.as_slice());
        proof {
            let upto = lines.take(i as int + 1);
            assert(upto.drop_last() =~= lines.take(i as int));
            assert(upto.last() == (name@, value@));
        }
        put_header(&mut kept, name, value);
        i = i + 1;
    }
    proof {
        assert(lines.take(n as int) =~= lines);
        let found = kept.deep_view();
        assert forall|a: int, b: int| 0 <= a < b < found.len() implies (#[trigger] found[a]).0
            != (#[trigger] found[b]).0 by {
            crate::text::lemma_names_match_reflexive(found[a].0);
        }
        crate::string_map::lemma_collected_of_distinct(found);
    }
    StringMap::from_pairs(&kept)
}

/// Converts what the HTTP engine received into the caller's response.
///
/// In the response no header is named twice, and the header of each line
/// that no later line renames holds that line's value.
pub fn convert_raw(raw: RawResponse) -> (r: Result<VaneResponse, VaneError>)
    ensures
        response_or_error(r) == converted(raw),
        r matches Ok(resp) ==> {
            &&& distinct_headers(resp@.headers)
            &&& forall|i: int| #[trigger]
                is_last_named(header_lines(raw.headers@), i) ==> {
                    &&& header_value(resp@.headers, header_lines(raw.headers@)[i].0) == Some(
                        header_lines(raw.headers@)[i].1,
                    )
                    &&& resp.headers@.contains_key(header_lines(raw.headers@)[i].0)
                    &&& resp.headers@[header_lines(raw.headers@)[i].0] == header_lines(
                        raw.headers@,
                    )[i].1
                }
        },
{
    let headers = collect_headers(&raw.headers);
    let status_code = raw.status_code;
    proof {
        let lines = header_lines(raw.headers@);
        let kept = last_wins(lines);
        assert forall|i: int| #[trigger] is_last_named(lines, i) implies {
            &&& header_value(kept, lines[i].0) == Some(lines[i].1)
            &&& to_map(kept).contains_key(lines[i].0)
            &&& to_map(kept)[lines[i].0] == lines[i].1
        } by {
            crate::headers::lemma_last_line_wins(lines, i);
            crate::headers::lemma_last_line_is_kept(lines, i);
            let k = choose|k: int| 0 <= k < kept.len() && kept[k] == lines[i];
            crate::string_map::lemma_to_map_value(kept, k);
        }
    }
    match raw.body {
        RawBody::Complete(body) => Ok(
            VaneResponse {
                status_code,
                headers,
                body,
                is_success: 200 <= status_code && status_code < 300,
                url: raw.url,
            },
        ),
        RawBody::Unreadable(t) => Err(
            VaneError::new(
                ErrorKind::Generic,
                joined("Read body failed: ", t.as_str()),
                Some(status_code),
            ),
        ),
    }
}

} // verus!
