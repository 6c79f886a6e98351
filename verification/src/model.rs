//! The plain records that cross the library's boundary: the client's
//! configuration, a request as the caller describes it, and a response as
//! the caller receives it.

use vstd::prelude::*;
use vstd::string::StringExecFns;
use crate::string_map::StringMap;

verus! {

/// The timeout, in seconds, of a client whose configuration names none.
pub const DEFAULT_TIMEOUT_SECONDS: u64 = 30;

/// The view of an optional text.
pub open spec fn opt_text(o: Option<String>) -> Option<Seq<char>> {
    match o {
        Some(s) => Some(s@),
        None => None,
    }
}

/// The view of an optional payload.
pub open spec fn opt_bytes(o: Option<Vec<u8>>) -> Option<Seq<u8>> {
    match o {
        Some(b) => Some(b@),
        None => None,
    }
}

/// A status code in the success class, 200 up to and excluding 300.
pub open spec fn is_success_status(status_code: u16) -> bool {
    200 <= status_code < 300
}

/// One request, as the caller describes it.
///
/// `follow_redirects` is informational: whether redirects are followed is
/// settled when the client is built, not per request.
#[derive(Clone, Debug)]
pub struct VaneRequest {
    pub url: String,
    pub method: String,
    pub headers: StringMap,
    pub query_params: StringMap,
    pub body: Option<Vec<u8>>,
    pub timeout_seconds: Option<u64>,
    pub follow_redirects: bool,
}

/// The mathematical content of a `VaneRequest`.
pub struct RequestView {
    pub url: Seq<char>,
    pub method: Seq<char>,
    pub headers: Seq<(Seq<char>, Seq<char>)>,
    pub query_params: Seq<(Seq<char>, Seq<char>)>,
    pub body: Option<Seq<u8>>,
    pub timeout_seconds: Option<u64>,
    pub follow_redirects: bool,
}

impl View for VaneRequest {
    type V = RequestView;

    open spec fn view(&self) -> RequestView {
        RequestView {
            url: self.url@,
            method: self.method@,
            headers: self.headers.pairs(),
            query_params: self.query_params.pairs(),
            body: opt_bytes(self.body),
            timeout_seconds: self.timeout_seconds,
            follow_redirects: self.follow_redirects,
        }
    }
}

/// One completed exchange, as the caller receives it. The body is the raw
/// payload, byte for byte.
#[derive(Clone, Debug)]
pub struct VaneResponse {
    pub status_code: u16,
    pub headers: StringMap,
    pub body: Vec<u8>,
    pub is_success: bool,
    pub url: String,
}

/// The mathematical content of a `VaneResponse`.
pub struct ResponseView {
    pub status_code: u16,
    pub headers: Seq<(Seq<char>, Seq<char>)>,
    pub body: Seq<u8>,
    pub is_success: bool,
    pub url: Seq<char>,
}

impl View for VaneResponse {
    type V = ResponseView;

    open spec fn view(&self) -> ResponseView {
        ResponseView {
            status_code: self.status_code,
            headers: self.headers.pairs(),
            body: self.body@,
            is_success: self.is_success,
            url: self.url@,
        }
    }
}

/// What a client is built from. It does not change while the client lives.
#[derive(Clone, Debug)]
pub struct VaneClientConfig {
    pub base_url: Option<String>,
    pub default_headers: StringMap,
    pub timeout_seconds: Option<u64>,
    pub follow_redirects: bool,
    pub user_agent: Option<String>,
}

/// The mathematical content of a `VaneClientConfig`.
pub struct ConfigView {
    pub base_url: Option<Seq<char>>,
    pub default_headers: Seq<(Seq<char>, Seq<char>)>,
    pub timeout_seconds: Option<u64>,
    pub follow_redirects: bool,
    pub user_agent: Option<Seq<char>>,
}

impl View for VaneClientConfig {
    type V = ConfigView;

    open spec fn view(&self) -> ConfigView {
        ConfigView {
            base_url: opt_text(self.base_url),
            default_headers: self.default_headers.pairs(),
            timeout_seconds: self.timeout_seconds,
            follow_redirects: self.follow_redirects,
            user_agent: opt_text(self.user_agent),
        }
    }
}

/// The configuration that callers start from: no base URL, no default
/// header, a timeout of thirty seconds, redirects followed, and the
/// library's own user agent.
pub open spec fn default_config() -> ConfigView {
    ConfigView {
        base_url: None,
        default_headers: Seq::empty(),
        timeout_seconds: Some(DEFAULT_TIMEOUT_SECONDS),
        follow_redirects: true,
        user_agent: Some("Vane/0.1.0"@),
    }
}

impl Default for VaneClientConfig {
    fn default() -> (config: VaneClientConfig)
        ensures
            config@ == default_config(),
    {
        VaneClientConfig {
            base_url: None,
            default_headers: StringMap::new(),
            timeout_seconds: Some(DEFAULT_TIMEOUT_SECONDS),
            follow_redirects: true,
            user_agent: Some(String::from_str("Vane/0.1.0")),
        }
    }
}

/// The configuration that callers start from.
pub fn create_default_config() -> (config: VaneClientConfig)
    ensures
        config@ == default_config(),
{
    VaneClientConfig::default()
}

} // verus!
