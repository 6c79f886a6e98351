//! The client: what a configuration asks of the HTTP engine, what each
//! request asks of it, and what becomes of its answer.
//!
//! A `VaneClient` holds the configuration and nothing that changes. Building
//! the engine, sending a prepared request and reading the answer are left to
//! the caller; everything that is decided before and after is decided here.

use vstd::prelude::*;
use vstd::string::StringExecFns;
use crate::error::{classified, ErrorInfo, ErrorKind, TransportFailure, VaneError};
use crate::headers::{
    distinct_headers,
    header_value,
    is_last_named,
    merge_headers,
    merged_headers,
    sets_header,
};
use crate::method::{check_method, is_space_or_control, method_error};
use crate::model::{
    opt_bytes,
    ConfigView,
    RequestView,
    ResponseView,
    VaneClientConfig,
    VaneRequest,
    VaneResponse,
    DEFAULT_TIMEOUT_SECONDS,
};
use crate::response::{convert_raw, converted, header_lines, response_or_error, RawResponse};
use crate::string_map::StringMap;
use crate::target::{add_query, resolve_url, resolved, text_or_error, with_query};

verus! {

/// How long, in seconds, the engine keeps an idle connection for reuse.
pub const POOL_IDLE_TIMEOUT_SECONDS: u64 = 30;

/// How many idle connections the engine keeps per host.
pub const POOL_MAX_IDLE_PER_HOST: usize = 16;

/// How many redirects the engine follows before it gives up.
pub const MAX_REDIRECTS: usize = 10;

/// What the engine does with a redirect.
#[derive(Clone, Copy, Debug, PartialEq, Eq, Structural)]
pub enum RedirectPolicy {
    /// Follow, up to so many hops.
    Follow(usize),
    /// Hand the redirect to the caller as the response.
    Never,
}

/// What the HTTP engine is built with.
#[derive(Clone, Debug)]
pub struct ClientOptions {
    pub pool_idle_timeout_seconds: u64,
    pub pool_max_idle_per_host: usize,
    pub timeout_seconds: u64,
    pub user_agent: String,
    pub redirect: RedirectPolicy,
}

/// The mathematical content of `ClientOptions`.
pub struct OptionsView {
    pub pool_idle_timeout_seconds: u64,
    pub pool_max_idle_per_host: usize,
    pub timeout_seconds: u64,
    pub user_agent: Seq<char>,
    pub redirect: RedirectPolicy,
}

impl View for ClientOptions {
    type V = OptionsView;

    open spec fn view(&self) -> OptionsView {
        OptionsView {
            pool_idle_timeout_seconds: self.pool_idle_timeout_seconds,
            pool_max_idle_per_host: self.pool_max_idle_per_host,
            timeout_seconds: self.timeout_seconds,
            user_agent: self.user_agent@,
            redirect: self.redirect,
        }
    }
}

/// One request, ready for the engine: the final URL with its query, the
/// method, every header that goes out, the payload, and the timeout that
/// applies to this call.
#[derive(Clone, Debug)]
pub struct PreparedRequest {
    pub url: String,
    pub method: String,
    pub headers: Vec<(String, String)>,
    pub body: Option<Vec<u8>>,
    pub timeout_seconds: u64,
}

/// The mathematical content of a `PreparedRequest`.
pub struct PreparedView {
    pub url: Seq<char>,
    pub method: Seq<char>,
    pub headers: Seq<(Seq<char>, Seq<char>)>,
    pub body: Option<Seq<u8>>,
    pub timeout_seconds: u64,
}

impl View for PreparedRequest {
    type V = PreparedView;

    open spec fn view(&self) -> PreparedView {
        PreparedView {
            url: self.url@,
            method: self.method@,
            headers: self.headers.deep_view(),
            body: opt_bytes(self.body),
            timeout_seconds: self.timeout_seconds,
        }
    }
}

/// What the engine reports of a dispatched request: a response, or that the
/// exchange failed.
#[derive(Clone, Debug)]
pub enum Dispatched {
    Answered(RawResponse),
    Failed(TransportFailure),
}

/// The timeout of a client: the configured one, or thirty seconds.
pub open spec fn client_timeout(configured: Option<u64>) -> u64 {
    match configured {
        Some(t) => t,
        None => DEFAULT_TIMEOUT_SECONDS,
    }
}

/// The timeout of one call: the request's own where it names one, the
/// client's otherwise.
pub open spec fn effective_timeout(configured: Option<u64>, requested: Option<u64>) -> u64 {
    match requested {
        Some(t) => t,
        None => client_timeout(configured),
    }
}

/// The options that a configuration asks for: the fixed pool settings, the
/// client's timeout, the configured user agent or the fallback, and
/// redirects followed up to ten hops or not at all.
pub open spec fn options_for(config: ConfigView) -> OptionsView {
    OptionsView {
        pool_idle_timeout_seconds: POOL_IDLE_TIMEOUT_SECONDS,
        pool_max_idle_per_host: POOL_MAX_IDLE_PER_HOST,
        timeout_seconds: client_timeout(config.timeout_seconds),
        user_agent: match config.user_agent {
            Some(agent) => agent,
            None => "Vane/1.1"@,
        },
        redirect: if config.follow_redirects {
            RedirectPolicy::Follow(MAX_REDIRECTS)
        } else {
            RedirectPolicy::Never
        },
    }
}

/// The request that a convenience call stands for: no header, no query
/// parameter, no timeout of its own, and the client's redirect setting.
pub open spec fn simple_request(
    method: Seq<char>,
    url: Seq<char>,
    body: Option<Seq<u8>>,
    follow_redirects: bool,
) -> RequestView {
    RequestView {
        url,
        method,
        headers: Seq::empty(),
        query_params: Seq::empty(),
        body,
        timeout_seconds: None,
        follow_redirects,
    }
}

/// What a request becomes for a client with the given configuration.
///
/// The URL is resolved first, and a failure there is the result. Next the
/// method must be a token. Then the query parameters are appended to the
/// resolved URL. What goes out carries the merged headers, the payload as
/// it was given, and the timeout that applies to the call.
pub open spec fn prepared(config: ConfigView, request: RequestView) -> Result<
    PreparedView,
    ErrorInfo,
> {
    match resolved(config.base_url, request.url) {
        Err(e) => Err(e),
        Ok(url) => match method_error(request.method) {
            Some(e) => Err(e),
            None => match with_query(url, request.query_params) {
                Err(e) => Err(e),
                Ok(target) => Ok(
                    PreparedView {
                        url: target,
                        method: request.method,
                        headers: merged_headers(config.default_headers, request.headers),
                        body: request.body,
                        timeout_seconds: effective_timeout(
                            config.timeout_seconds,
                            request.timeout_seconds,
                        ),
                    },
                ),
            },
        },
    }
}

/// What a dispatched request comes to: a failure classified, an answer
/// converted.
pub open spec fn concluded(outcome: Dispatched) -> Result<ResponseView, ErrorInfo> {
    match outcome {
        Dispatched::Answered(raw) => converted(raw),
        Dispatched::Failed(failure) => Err(
            classified(
                failure.timeout,
                failure.connect,
                failure.decode,
                failure.status_code,
                failure.text@,
            ),
        ),
    }
}

/// The content of a result that holds a prepared request or an error.
pub open spec fn prepared_or_error(r: Result<PreparedRequest, VaneError>) -> Result<
    PreparedView,
    ErrorInfo,
> {
    match r {
        Ok(p) => Ok(p@),
        Err(e) => Err(e@),
    }
}

/// A client: a configuration that no call changes.
#[derive(Clone, Debug)]
pub struct VaneClient {
    config: VaneClientConfig,
}

impl View for VaneClient {
    type V = ConfigView;

    /// The configuration that the client was made from.
    closed spec fn view(&self) -> ConfigView {
        self.config@
    }
}

impl VaneClient {
    /// A client for the given configuration.
    pub fn new(config: VaneClientConfig) -> (client: VaneClient)
        ensures
            client@ == config@,
    {
        VaneClient { config }
    }

    /// The configuration that the client was made from.
    pub fn config(&self) -> (config: &VaneClientConfig)
        ensures
            config@ == self@,
    {
        &self.config
    }

    /// What the HTTP engine of this client is built with.
    pub fn options(&self) -> (options: ClientOptions)
        ensures
            options@ == options_for(self@),
    {
        let timeout_seconds = match self.config.timeout_seconds {
            Some(t) => t,
            None => DEFAULT_TIMEOUT_SECONDS,
        };
        let user_agent = match &self.config.user_agent {
            Some(agent) => agent.clone(),
            None => String::from_str("Vane/1.1"),
        };
        let redirect = if self.config.follow_redirects {
            RedirectPolicy::Follow(MAX_REDIRECTS)
        } else {
            RedirectPolicy::Never
        };
        ClientOptions {
            pool_idle_timeout_seconds: POOL_IDLE_TIMEOUT_SECONDS,
            pool_max_idle_per_host: POOL_MAX_IDLE_PER_HOST,
            timeout_seconds,
            user_agent,
            redirect,
        }
    }

    /// Resolves the URL of a request against the client's base URL.
    pub fn build_url(&self, url: &str) -> (r: Result<String, VaneError>)
        ensures
            text_or_error(r) == resolved(self@.base_url, url@),
    {
        match &self.config.base_url {
            Some(base) => resolve_url(Some(base.as_str()), url),
            None => resolve_url(None, url),
        }
    }

    /// Prepares a request for the engine.
    pub fn execute(&self, request: VaneRequest) -> (r: Result<PreparedRequest, VaneError>)
        ensures
            prepared_or_error(r) == prepared(self@, request@),
    {
        let resolved_url = match self.build_url(request.url.as_str()) {
            Ok(url) => url,
            Err(e) => {
                return Err(e);
            },
        };
        match check_method(request.method.as_str()) {
            Ok(_) => {},
            Err(e) => {
                return Err(e);
            },
        }
        let url = match add_query(resolved_url, &request.query_params) {
            Ok(url) => url,
            Err(e) => {
                return Err(e);
            },
        };
        let headers = merge_headers(&self.config.default_headers, &request.headers);
        let timeout_seconds = match request.timeout_seconds {
            Some(t) => t,
            None => match self.config.timeout_seconds {
                Some(t) => t,
                None => DEFAULT_TIMEOUT_SECONDS,
            },
        };
        Ok(
            PreparedRequest {
                url,
                method: request.method,
                headers,
                body: request.body,
                timeout_seconds,
            },
        )
    }

    /// Prepares a request for the engine.
    pub fn execute_request(&self, request: VaneRequest) -> (r: Result<PreparedRequest, VaneError>)
        ensures
            prepared_or_error(r) == prepared(self@, request@),
    {
        self.execute(request)
    }

    /// Prepares the request that a convenience call stands for.
    pub fn make_request(&self, method: &str, url: &str, body: Option<Vec<u8>>) -> (r: Result<
        PreparedRequest,
        VaneError,
    >)
        ensures
            prepared_or_error(r) == prepared(
                self@,
                simple_request(method@, url@, opt_bytes(body), self@.follow_redirects),
            ),
    {
        self.execute(
            VaneRequest {
                url: String::from_str(url),
                method: String::from_str(method),
                headers: StringMap::new(),
                query_params: StringMap::new(),
                body,
                timeout_seconds: None,
                follow_redirects: self.config.follow_redirects,
            },
        )
    }

    /// Prepares a GET of `url`.
    pub fn get_request(&self, url: String) -> (r: Result<PreparedRequest, VaneError>)
        ensures
            prepared_or_error(r) == prepared(
                self@,
                simple_request("GET"@, url@, None, self@.follow_redirects),
            ),
    {
        self.make_request("GET", url.as_str(), None)
    }

    /// Prepares a POST of `body` to `url`.
    pub fn post_request(&self, url: String, body: Option<Vec<u8>>) -> (r: Result<
        PreparedRequest,
        VaneError,
    >)
        ensures
            prepared_or_error(r) == prepared(
                self@,
                simple_request("POST"@, url@, opt_bytes(body), self@.follow_redirects),
            ),
    {
        self.make_request("POST", url.as_str(), body)
    }

    /// Prepares a PUT of `body` to `url`.
    pub fn put_request(&self, url: String, body: Option<Vec<u8>>) -> (r: Result<
        PreparedRequest,
        VaneError,
    >)
        ensures
            prepared_or_error(r) == prepared(
                self@,
                simple_request("PUT"@, url@, opt_bytes(body), self@.follow_redirects),
            ),
    {
        self.make_request("PUT", url.as_str(), body)
    }

    /// Prepares a DELETE of `url`.
    pub fn delete_request(&self, url: String) -> (r: Result<PreparedRequest, VaneError>)
        ensures
            prepared_or_error(r) == prepared(
                self@,
                simple_request("DELETE"@, url@, None, self@.follow_redirects),
            ),
    {
        self.make_request("DELETE", url.as_str(), None)
    }

    /// Prepares a PATCH of `url` with `body`.
    pub fn patch_request(&self, url: String, body: Option<Vec<u8>>) -> (r: Result<
        PreparedRequest,
        VaneError,
    >)
        ensures
            prepared_or_error(r) == prepared(
                self@,
                simple_request("PATCH"@, url@, opt_bytes(body), self@.follow_redirects),
            ),
    {
        self.make_request("PATCH", url.as_str(), body)
    }

    /// Converts what the engine received into the caller's response.
    ///
    /// In the response no header is named twice, and the header of each
    /// line that no later line renames holds that line's value.
    pub fn convert_response(&self, resp: RawResponse) -> (r: Result<VaneResponse, VaneError>)
        ensures
            response_or_error(r) == converted(resp),
            r matches Ok(out) ==> {
                &&& distinct_headers(out@.headers)
                &&& forall|i: int| #[trigger]
                    is_last_named(header_lines(resp.headers@), i) ==> {
                        &&& header_value(out@.headers, header_lines(resp.headers@)[i].0) == Some(
                            header_lines(resp.headers@)[i].1,
                        )
                        &&& out.headers@.contains_key(header_lines(resp.headers@)[i].0)
                        &&& out.headers@[header_lines(resp.headers@)[i].0] == header_lines(
                            resp.headers@,
                        )[i].1
                    }
            },
    {
        convert_raw(resp)
    }

    /// Turns the engine's report on a dispatched request into the result of
    /// the call.
    pub fn conclude(&self, outcome: Dispatched) -> (r: Result<VaneResponse, VaneError>)
        ensures
            response_or_error(r) == concluded(outcome),
    {
        match outcome {
            Dispatched::Answered(raw) => self.convert_response(raw),
            Dispatched::Failed(failure) => Err(VaneError::from(failure)),
        }
    }
}

/// URL resolution fails with class `Url` or not at all.
pub proof fn lemma_resolution_fails_as_url(base: Option<Seq<char>>, reference: Seq<char>)
    ensures
        resolved(base, reference) matches Err(e) ==> e.kind == ErrorKind::Url
            && e.status_code is None,
{
}

/// Method validation. When the URL of a request resolves and its method
/// holds a space or a control character, the request fails with class
/// `Method`.
pub proof fn lemma_method_is_validated(config: ConfigView, request: RequestView, i: int)
    requires
        resolved(config.base_url, request.url) is Ok,
        0 <= i < request.method.len(),
        is_space_or_control(request.method[i]),
    ensures
        prepared(config, request) matches Err(e) && e.kind == ErrorKind::Method,
{
    crate::method::lemma_space_or_control_is_invalid(request.method, i);
}

/// Header merge precedence. Whatever headers the two layers hold, in a
/// prepared request no header goes out twice; a header that the request sets
/// goes out with the request's value; any other header goes out with the
/// client's default, if there is one; and a header goes out exactly where
/// one of the layers sets it.
pub proof fn lemma_prepared_headers(config: ConfigView, request: RequestView, name: Seq<char>)
    requires
        prepared(config, request) is Ok,
    ensures
        ({
            let out = prepared(config, request)->Ok_0.headers;
            &&& distinct_headers(out)
            &&& header_value(out, name) == if sets_header(request.headers, name) {
                header_value(request.headers, name)
            } else {
                header_value(config.default_headers, name)
            }
            &&& sets_header(request.headers, name) ==> header_value(out, name) is Some
            &&& sets_header(out, name) <==> (sets_header(config.default_headers, name)
                || sets_header(request.headers, name))
        }),
{
    crate::headers::lemma_merge_precedence(config.default_headers, request.headers, name);
}

/// Timeout override. The timeout of a call is the request's own whenever
/// the request names one, whatever the client's; otherwise it is the
/// client's, which is thirty seconds unless configured.
pub proof fn lemma_timeout_override(config: ConfigView, request: RequestView)
    requires
        prepared(config, request) is Ok,
    ensures
        request.timeout_seconds matches Some(t) ==> prepared(config, request)->Ok_0.timeout_seconds
            == t,
        request.timeout_seconds is None ==> prepared(config, request)->Ok_0.timeout_seconds
            == options_for(config).timeout_seconds,
{
}

/// Status classification. A response whose payload was read is handed to
/// the caller whatever its status code, flagged as a success exactly for
/// the codes from 200 up to 300.
pub proof fn lemma_status_classification(raw: RawResponse)
    requires
        raw.body is Complete,
    ensures
        converted(raw) is Ok,
        converted(raw)->Ok_0.status_code == raw.status_code,
        converted(raw)->Ok_0.is_success == (200 <= raw.status_code < 300),
{
}

/// The payload and the method of a request go out as they were given.
pub proof fn lemma_payload_is_verbatim(config: ConfigView, request: RequestView)
    requires
        prepared(config, request) is Ok,
    ensures
        prepared(config, request)->Ok_0.body == request.body,
        prepared(config, request)->Ok_0.method == request.method,
{
}

} // verus!
