//! The URL that a request goes to: resolution against the client's base
//! URL, and the query parameters appended to the result.
//!
//! Parsing, joining and query encoding are the `url` crate's; what is
//! decided here is which of them is asked, in which order, and what each
//! failure is reported as.

use vstd::prelude::*;
use vstd::utf8::encode_utf8;
use crate::error::{described, ErrorInfo, ErrorKind, VaneError};
use crate::string_map::StringMap;

verus! {

/// The most bytes that the text of a URL may hold. The URL engine
/// addresses its text with 32-bit offsets and aborts beyond them.
pub const MAX_URL_BYTES: u64 = 4_294_967_295;

/// The result of `url::Url::parse` on `input`: the serialization of the
/// parsed URL, or the text of the parse error.
pub uninterp spec fn url_parse(input: Seq<char>) -> Result<Seq<char>, Seq<char>>;

/// The result of parsing `base` and joining `reference` onto it with
/// `url::Url::join`: the serialization of the joined URL, or the text of
/// the parse error.
pub uninterp spec fn url_join(base: Seq<char>, reference: Seq<char>) -> Result<
    Seq<char>,
    Seq<char>,
>;

/// The result of parsing `url` and appending one name/value pair to its
/// query with `url::form_urlencoded::Serializer::append_pair`: the
/// serialization of the extended URL, or the text of the parse error.
pub uninterp spec fn url_with_pair(url: Seq<char>, name: Seq<char>, value: Seq<char>) -> Result<
    Seq<char>,
    Seq<char>,
>;

/// The content of a result that holds a text either way.
pub open spec fn text_outcome(r: Result<String, String>) -> Result<Seq<char>, Seq<char>> {
    match r {
        Ok(s) => Ok(s@),
        Err(e) => Err(e@),
    }
}

/// The content of a result that holds a text or an error.
pub open spec fn text_or_error(r: Result<String, VaneError>) -> Result<Seq<char>, ErrorInfo> {
    match r {
        Ok(s) => Ok(s@),
        Err(e) => Err(e@),
    }
}

/// The number of bytes of the UTF-8 encoding of `s`.
pub open spec fn byte_len(s: Seq<char>) -> usize {
    encode_utf8(s).len() as usize
}

/// A URL of `url_bytes` bytes stays within the engine's reach when a query
/// parameter of `name_bytes` and `value_bytes` bytes is appended to it. The
/// query encoding writes at most three bytes for one, and two separators.
pub open spec fn pair_fits_in(url_bytes: int, name_bytes: int, value_bytes: int) -> bool {
    url_bytes + 3 * name_bytes + 3 * value_bytes + 2 <= MAX_URL_BYTES
}

/// A parsed URL and a query parameter are short enough for the parameter to
/// be appended.
pub open spec fn fits_query(parsed: Seq<char>, name: Seq<char>, value: Seq<char>) -> bool {
    pair_fits_in(byte_len(parsed) as int, byte_len(name) as int, byte_len(value) as int)
}

/// A step of the resolution reported to the caller: the URL where the step
/// succeeded, an error of class `Url` that opens with `prefix` otherwise.
pub open spec fn url_step(prefix: Seq<char>, outcome: Result<Seq<char>, Seq<char>>) -> Result<
    Seq<char>,
    ErrorInfo,
> {
    match outcome {
        Ok(u) => Ok(u),
        Err(t) => Err(described(ErrorKind::Url, prefix, t)),
    }
}

/// The URL that `reference` denotes for a client with the given base URL.
///
/// With a base, the base must parse, and the reference is joined onto it:
/// an absolute reference replaces the base, a relative one is merged with
/// the base's path. Without a base, the reference must itself be an
/// absolute URL.
pub open spec fn resolved(base: Option<Seq<char>>, reference: Seq<char>) -> Result<
    Seq<char>,
    ErrorInfo,
> {
    match base {
        Some(b) => match url_parse(b) {
            Err(t) => Err(described(ErrorKind::Url, "Invalid base URL: "@, t)),
            Ok(_) => url_step("Failed to join URL: "@, url_join(b, reference)),
        },
        None => url_step("Invalid URL: "@, url_parse(reference)),
    }
}

/// `url` with one more query parameter. The URL must parse, and what it
/// parses to must leave room for the parameter.
pub open spec fn with_pair(url: Seq<char>, name: Seq<char>, value: Seq<char>) -> Result<
    Seq<char>,
    ErrorInfo,
> {
    match url_parse(url) {
        Err(t) => Err(described(ErrorKind::Url, "Invalid URL: "@, t)),
        Ok(parsed) => if fits_query(parsed, name, value) {
            url_step("Invalid URL: "@, url_with_pair(url, name, value))
        } else {
            Err(described(ErrorKind::Url, "URL too long to take the query parameter: "@, name))
        },
    }
}

/// `url` with the parameters `pairs` appended to its query, one after the
/// other in their order. Nothing already in the query is replaced.
pub open spec fn with_query(url: Seq<char>, pairs: Seq<(Seq<char>, Seq<char>)>) -> Result<
    Seq<char>,
    ErrorInfo,
>
    decreases pairs.len(),
{
    if pairs.len() == 0 {
        Ok(url)
    } else {
        match with_query(url, pairs.drop_last()) {
            Ok(u) => with_pair(u, pairs.last().0, pairs.last().1),
            Err(e) => Err(e),
        }
    }
}

/// `url::Url::parse`. The result is the URL's serialization, or the
/// `Display` text of the `url::ParseError`.
#[verifier::external_body]
fn parse_url(input: &str) -> (r: Result<String, String>)
    ensures
        text_outcome(r) == url_parse(input@),
{
    match url::Url::parse(input) {
        Ok(parsed) => Ok(String::from(parsed)),
        Err(e) => Err(format!("{e}")),
    }
}

/// `url::Url::join`, on the URL that `base` parses to. The result is the
/// joined URL's serialization, or the `Display` text of the
/// `url::ParseError` of whichever of the two steps failed.
#[verifier::external_body]
fn join_url(base: &str, reference: &str) -> (r: Result<String, String>)
    ensures
        text_outcome(r) == url_join(base@, reference@),
{
    match url::Url::parse(base) {
        Ok(parsed) => match parsed.join(reference) {
            Ok(joined) => Ok(String::from(joined)),
            Err(e) => Err(format!("{e}")),
        },
        Err(e) => Err(format!("{e}")),
    }
}

/// `append_pair` of the serializer that `url::Url::query_pairs_mut` hands
/// out, on the URL that `url` parses to. The result is the extended URL's
/// serialization, or the `Display` text of the `url::ParseError` where `url`
/// does not parse; appending itself cannot fail. The bound keeps the text
/// within the 32-bit offsets beyond which `query_pairs_mut` aborts.
#[verifier::external_body]
fn append_pair(url: &str, name: &str, value: &str) -> (r: Result<String, String>)
    requires
        url_parse(url@) matches Ok(parsed) ==> fits_query(parsed, name@, value@),
    ensures
        text_outcome(r) == url_with_pair(url@, name@, value@),
        r is Ok <==> url_parse(url@) is Ok,
{
    match url::Url::parse(url) {
        Ok(mut parsed) => {
            parsed.query_pairs_mut().append_pair(name, value);
            Ok(String::from(parsed))
        },
        Err(e) => Err(format!("{e}")),
    }
}

/// Reports one step of the resolution to the caller.
pub fn report_url_step(prefix: &str, outcome: Result<String, String>) -> (r: Result<
    String,
    VaneError,
>)
    ensures
        text_or_error(r) == url_step(prefix@, text_outcome(outcome)),
{
    match outcome {
        Ok(u) => Ok(u),
        Err(t) => Err(VaneError::describe(ErrorKind::Url, prefix, t.as_str())),
    }
}

/// Resolves `reference` for a client with the given base URL.
pub fn resolve_url(base: Option<&str>, reference: &str) -> (r: Result<String, VaneError>)
    ensures
        text_or_error(r) == resolved(
            match base {
                Some(b) => Some(b@),
                None => None,
            },
            reference@,
        ),
{
    match base {
        Some(b) => match parse_url(b) {
            Err(t) => Err(VaneError::describe(ErrorKind::Url, "Invalid base URL: ", t.as_str())),
            Ok(_) => report_url_step("Failed to join URL: ", join_url(b, reference)),
        },
        None => report_url_step("Invalid URL: ", parse_url(reference)),
    }
}

/// Whether a URL of `url_bytes` bytes stays within the engine's reach when
/// a query parameter of `name_bytes` and `value_bytes` bytes is appended.
pub fn pair_fits(url_bytes: usize, name_bytes: usize, value_bytes: usize) -> (r: bool)
    ensures
        r == pair_fits_in(url_bytes as int, name_bytes as int, value_bytes as int),
{
    let u = url_bytes as u64;
    let n = name_bytes as u64;
    let v = value_bytes as u64;
    u <= MAX_URL_BYTES && n <= MAX_URL_BYTES && v <= MAX_URL_BYTES && u + 3 * n + 3 * v + 2
        <= MAX_URL_BYTES
}

/// Appends one query parameter to `url`.
pub fn add_query_pair(url: &str, name: &str, value: &str) -> (r: Result<String, VaneError>)
    ensures
        text_or_error(r) == with_pair(url@, name@, value@),
        r is Ok <==> (url_parse(url@) matches Ok(parsed) && fits_query(parsed, name@, value@)),
{
    match parse_url(url) {
        Err(t) => Err(VaneError::describe(ErrorKind::Url, "Invalid URL: ", t.as_str())),
        Ok(parsed) => {
            if pair_fits(parsed.as_str().len(), name.len(), value.len()) {
                report_url_step("Invalid URL: ", append_pair(url, name, value))
            } else {
                Err(
                    VaneError::describe(
                        ErrorKind::Url,
                        "URL too long to take the query parameter: ",
                        name,
                    ),
                )
            }
        },
    }
}

/// Appends the parameters of `params` to the query of `url`, in their
/// order.
pub fn add_query(url: String, params: &StringMap) -> (r: Result<String, VaneError>)
    ensures
        text_or_error(r) == with_query(url@, params.pairs()),
{
    let n = params.len();
    let mut current = url;
    let mut i: usize = 0;
    assert(params.pairs().take(0) =~= Seq::empty());
    while i < n
        invariant
            n == params.pairs().len(),
            i <= n,
            with_query(url@, params.pairs().take(i as int)) == Ok::<Seq<char>, ErrorInfo>(
                current@,
            ),
        decreases n - i,
    {
        proof {
            let upto = params.pairs().take(i as int + 1);
            assert(upto.drop_last() =~= params.pairs().take(i as int));
            assert(upto.last() == params.pairs()[i as int]);
        }
        match add_query_pair(current.as_str(), params.name_at(i), params.value_at(i)) {
            Ok(next) => {
                current = next;
            },
            Err(e) => {
                proof {
                    lemma_with_query_failure(url@, params.pairs(), i as int + 1);
                }
                return Err(e);
            },
        }
        i = i + 1;
    }
    assert(params.pairs().take(n as int) =~= params.pairs());
    Ok(current)
}

/// Once a prefix of the parameters has failed, so has the whole list, with
/// the same error.
pub proof fn lemma_with_query_failure(
    url: Seq<char>,
    pairs: Seq<(Seq<char>, Seq<char>)>,
    upto: int,
)
    requires
        0 <= upto <= pairs.len(),
        with_query(url, pairs.take(upto)) is Err,
    ensures
        with_query(url, pairs) == with_query(url, pairs.take(upto)),
    decreases pairs.len() - upto,
{
    if upto < pairs.len() {
        let next = pairs.take(upto + 1);
        assert(next.drop_last() =~= pairs.take(upto));
        lemma_with_query_failure(url, pairs, upto + 1);
    } else {
        assert(pairs.take(upto) =~= pairs);
    }
}

} // verus!
