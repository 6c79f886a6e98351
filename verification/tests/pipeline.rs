use vane::client::MAX_REDIRECTS;
use vane::headers::{find_header, lookup_header};
use vane::{
    create_default_config, ClientOptions, Dispatched, ErrorKind, PreparedRequest, RawBody,
    RawResponse, RedirectPolicy, StringMap, TransportFailure, VaneClient, VaneClientConfig,
    VaneError, VaneRequest,
};

fn map_of(pairs: &[(&str, &str)]) -> StringMap {
    let mut m = StringMap::new();
    for (k, v) in pairs {
        m.insert(k.to_string(), v.to_string());
    }
    m
}

fn config_with_base(base: Option<&str>) -> VaneClientConfig {
    let mut config = create_default_config();
    config.base_url = base.map(|b| b.to_string());
    config
}

fn request(url: &str, method: &str) -> VaneRequest {
    VaneRequest {
        url: url.to_string(),
        method: method.to_string(),
        headers: StringMap::new(),
        query_params: StringMap::new(),
        body: None,
        timeout_seconds: None,
        follow_redirects: true,
    }
}

fn pairs(p: &PreparedRequest) -> Vec<(&str, &str)> {
    p.headers.iter().map(|(k, v)| (k.as_str(), v.as_str())).collect()
}

#[test]
fn default_config_has_the_documented_values() {
    let config = create_default_config();
    assert!(config.base_url.is_none());
    assert!(config.default_headers.is_empty());
    assert_eq!(config.timeout_seconds, Some(30));
    assert!(config.follow_redirects);
    assert_eq!(config.user_agent.as_deref(), Some("Vane/0.1.0"));
    let again = VaneClientConfig::default();
    assert_eq!(again.timeout_seconds, Some(30));
    assert_eq!(again.user_agent.as_deref(), Some("Vane/0.1.0"));
}

#[test]
fn options_of_the_default_config() {
    let client = VaneClient::new(create_default_config());
    let options: ClientOptions = client.options();
    assert_eq!(options.pool_idle_timeout_seconds, 30);
    assert_eq!(options.pool_max_idle_per_host, 16);
    assert_eq!(options.timeout_seconds, 30);
    assert_eq!(options.user_agent, "Vane/0.1.0");
    assert_eq!(options.redirect, RedirectPolicy::Follow(10));
    assert_eq!(MAX_REDIRECTS, 10);
}

#[test]
fn options_fall_back_where_the_config_is_silent() {
    let mut config = create_default_config();
    config.timeout_seconds = None;
    config.user_agent = None;
    config.follow_redirects = false;
    let options = VaneClient::new(config).options();
    assert_eq!(options.timeout_seconds, 30);
    assert_eq!(options.user_agent, "Vane/1.1");
    assert_eq!(options.redirect, RedirectPolicy::Never);
}

#[test]
fn options_take_the_configured_values() {
    let mut config = create_default_config();
    config.timeout_seconds = Some(7);
    config.user_agent = Some("probe/2".to_string());
    let client = VaneClient::new(config);
    let options = client.options();
    assert_eq!(options.timeout_seconds, 7);
    assert_eq!(options.user_agent, "probe/2");
    assert_eq!(client.config().timeout_seconds, Some(7));
}

#[test]
fn relative_url_is_resolved_against_the_base() {
    let client = VaneClient::new(config_with_base(Some("https://api.example.com/v1/")));
    assert_eq!(
        client.build_url("users/42").unwrap(),
        "https://api.example.com/v1/users/42"
    );
    let prepared = client.get_request("users/42".to_string()).unwrap();
    assert_eq!(prepared.url, "https://api.example.com/v1/users/42");
    assert_eq!(prepared.method, "GET");
}

#[test]
fn base_without_trailing_slash_loses_its_last_segment() {
    let client = VaneClient::new(config_with_base(Some("https://api.example.com/v1")));
    assert_eq!(client.build_url("users/42").unwrap(), "https://api.example.com/users/42");
}

#[test]
fn absolute_url_overrides_the_base() {
    let client = VaneClient::new(config_with_base(Some("https://api.example.com/v1/")));
    assert_eq!(
        client.build_url("http://other.test/a?b=c").unwrap(),
        "http://other.test/a?b=c"
    );
}

#[test]
fn url_without_base_must_be_absolute() {
    let client = VaneClient::new(config_with_base(None));
    let err = client.build_url("not a url").unwrap_err();
    assert_eq!(err.kind(), ErrorKind::Url);
    assert_eq!(err.message(), "Invalid URL: relative URL without a base");
    assert_eq!(err.status_code(), None);
    let err = client.execute(request("not a url", "GET")).unwrap_err();
    assert_eq!(err.kind(), ErrorKind::Url);
}

#[test]
fn parsed_url_is_normalized() {
    let client = VaneClient::new(config_with_base(None));
    assert_eq!(client.build_url("HTTPS://EXAMPLE.com").unwrap(), "https://example.com/");
}

#[test]
fn invalid_base_url_is_reported_as_such() {
    let client = VaneClient::new(config_with_base(Some("::nonsense::")));
    let err = client.build_url("https://x.test/").unwrap_err();
    assert_eq!(err.kind(), ErrorKind::Url);
    assert_eq!(err.message(), "Invalid base URL: relative URL without a base");
}

#[test]
fn failed_join_is_reported_as_such() {
    let client = VaneClient::new(config_with_base(Some("https://api.example.com/")));
    let err = client.build_url("https://[broken").unwrap_err();
    assert_eq!(err.kind(), ErrorKind::Url);
    assert_eq!(err.message(), "Failed to join URL: invalid IPv6 address");
}

#[test]
fn request_header_overrides_the_default() {
    let mut config = config_with_base(None);
    config.default_headers = map_of(&[("X-A", "1")]);
    let client = VaneClient::new(config);
    let mut req = request("https://x.test/", "GET");
    req.headers = map_of(&[("X-A", "2")]);
    let prepared = client.execute(req).unwrap();
    assert_eq!(pairs(&prepared), vec![("X-A", "2")]);
    assert_eq!(find_header(&prepared.headers, "X-A"), Some("2"));
}

#[test]
fn header_names_are_compared_without_case() {
    let mut config = config_with_base(None);
    config.default_headers = map_of(&[("x-a", "1"), ("Accept", "*/*")]);
    let client = VaneClient::new(config);
    let mut req = request("https://x.test/", "GET");
    req.headers = map_of(&[("X-A", "2"), ("X-B", "3")]);
    let prepared = client.execute(req).unwrap();
    assert_eq!(pairs(&prepared), vec![("X-A", "2"), ("Accept", "*/*"), ("X-B", "3")]);
    assert_eq!(find_header(&prepared.headers, "x-a"), Some("2"));
    assert_eq!(find_header(&prepared.headers, "ACCEPT"), Some("*/*"));
    assert_eq!(find_header(&prepared.headers, "X-C"), None);
}

#[test]
fn a_header_spelled_twice_in_one_layer_goes_out_once() {
    let mut config = config_with_base(None);
    config.default_headers = map_of(&[("X-A", "1"), ("x-a", "2"), ("X-B", "3")]);
    let client = VaneClient::new(config);
    let prepared = client.execute(request("https://x.test/", "GET")).unwrap();
    assert_eq!(pairs(&prepared), vec![("x-a", "2"), ("X-B", "3")]);
    let mut req = request("https://x.test/", "GET");
    req.headers = map_of(&[("x-b", "4"), ("X-b", "5"), ("X-A", "6")]);
    let prepared = client.execute(req).unwrap();
    assert_eq!(pairs(&prepared), vec![("X-A", "6"), ("X-b", "5")]);
    assert_eq!(find_header(&prepared.headers, "x-a"), Some("6"));
    assert_eq!(find_header(&prepared.headers, "x-b"), Some("5"));
}

#[test]
fn defaults_go_out_when_the_request_sets_nothing() {
    let mut config = config_with_base(None);
    config.default_headers = map_of(&[("X-A", "1"), ("X-B", "2")]);
    let client = VaneClient::new(config);
    let prepared = client.execute(request("https://x.test/", "GET")).unwrap();
    assert_eq!(pairs(&prepared), vec![("X-A", "1"), ("X-B", "2")]);
}

#[test]
fn query_parameter_is_appended() {
    let client = VaneClient::new(config_with_base(None));
    let mut req = request("https://x.test/search", "GET");
    req.query_params = map_of(&[("q", "rust")]);
    let prepared = client.execute(req).unwrap();
    assert_eq!(prepared.url, "https://x.test/search?q=rust");
}

#[test]
fn query_parameters_keep_their_order_and_what_was_there() {
    let client = VaneClient::new(config_with_base(None));
    let mut req = request("https://x.test/search?q=old#top", "GET");
    req.query_params = map_of(&[("q", "new value"), ("page", "2"), ("tag", "a&b")]);
    let prepared = client.execute(req).unwrap();
    assert_eq!(
        prepared.url,
        "https://x.test/search?q=old&q=new+value&page=2&tag=a%26b#top"
    );
}

#[test]
fn no_query_parameter_leaves_the_url_alone() {
    let client = VaneClient::new(config_with_base(None));
    let prepared = client.execute(request("https://x.test/search", "GET")).unwrap();
    assert_eq!(prepared.url, "https://x.test/search");
}

#[test]
fn large_query_parameter_is_taken() {
    let client = VaneClient::new(config_with_base(None));
    let mut req = request("https://x.test/", "GET");
    let mut params = StringMap::new();
    params.insert("blob".to_string(), "a".repeat(20_000_000));
    req.query_params = params;
    let prepared = client.execute(req).unwrap();
    assert_eq!(prepared.url.len(), "https://x.test/?blob=".len() + 20_000_000);
}

#[test]
fn query_parameter_beyond_the_reach_of_a_url_is_refused() {
    let client = VaneClient::new(config_with_base(None));
    let mut req = request("https://x.test/", "GET");
    let mut params = StringMap::new();
    params.insert("blob".to_string(), "a".repeat(1_431_655_760));
    req.query_params = params;
    let err = client.execute(req).unwrap_err();
    assert_eq!(err.kind(), ErrorKind::Url);
    assert_eq!(err.message(), "URL too long to take the query parameter: blob");
}

#[test]
fn known_and_custom_methods_are_accepted() {
    let client = VaneClient::new(config_with_base(None));
    for method in ["GET", "POST", "PUT", "DELETE", "PATCH", "PURGE", "get", "M-SEARCH", "a!~"] {
        let prepared = client.execute(request("https://x.test/", method)).unwrap();
        assert_eq!(prepared.method, method);
    }
    let long = "X".repeat(40);
    assert!(client.execute(request("https://x.test/", &long)).is_ok());
}

#[test]
fn method_with_space_or_control_is_rejected() {
    let client = VaneClient::new(config_with_base(None));
    for method in ["GE T", " GET", "GET\n", "G\u{7f}T", "G\tT", "", "GÉT", "G/T", "G\u{85}T"] {
        let err = client.execute(request("https://x.test/", method)).unwrap_err();
        assert_eq!(err.kind(), ErrorKind::Method);
        assert_eq!(err.message(), format!("Invalid method: {method}"));
        assert_eq!(err.status_code(), None);
    }
}

#[test]
fn url_is_checked_before_the_method() {
    let client = VaneClient::new(config_with_base(None));
    let err = client.execute(request("nowhere", "B A D")).unwrap_err();
    assert_eq!(err.kind(), ErrorKind::Url);
}

#[test]
fn body_goes_out_verbatim() {
    let client = VaneClient::new(config_with_base(None));
    let mut req = request("https://x.test/", "POST");
    req.body = Some(vec![0, 159, 255, 10]);
    let prepared = client.execute_request(req).unwrap();
    assert_eq!(prepared.body, Some(vec![0, 159, 255, 10]));
    assert!(prepared.headers.is_empty());
}

#[test]
fn request_timeout_overrides_the_client_timeout() {
    let client = VaneClient::new(config_with_base(None));
    let mut req = request("https://x.test/", "GET");
    req.timeout_seconds = Some(1);
    assert_eq!(client.execute(req).unwrap().timeout_seconds, 1);
    assert_eq!(client.execute(request("https://x.test/", "GET")).unwrap().timeout_seconds, 30);
    let mut config = config_with_base(None);
    config.timeout_seconds = None;
    let client = VaneClient::new(config);
    assert_eq!(client.execute(request("https://x.test/", "GET")).unwrap().timeout_seconds, 30);
    let mut config = config_with_base(None);
    config.timeout_seconds = Some(5);
    let client = VaneClient::new(config);
    assert_eq!(client.execute(request("https://x.test/", "GET")).unwrap().timeout_seconds, 5);
}

#[test]
fn convenience_calls_are_sugar() {
    let mut config = config_with_base(Some("https://api.example.com/"));
    config.default_headers = map_of(&[("Accept", "application/json")]);
    config.timeout_seconds = Some(9);
    let client = VaneClient::new(config);

    let get = client.get_request("a".to_string()).unwrap();
    assert_eq!((get.method.as_str(), get.url.as_str()), ("GET", "https://api.example.com/a"));
    assert_eq!(get.body, None);
    assert_eq!(get.timeout_seconds, 9);
    assert_eq!(pairs(&get), vec![("Accept", "application/json")]);

    let post = client.post_request("a".to_string(), Some(vec![1, 2])).unwrap();
    assert_eq!(post.method, "POST");
    assert_eq!(post.body, Some(vec![1, 2]));

    let put = client.put_request("a".to_string(), None).unwrap();
    assert_eq!(put.method, "PUT");
    assert_eq!(put.body, None);

    let delete = client.delete_request("a".to_string()).unwrap();
    assert_eq!(delete.method, "DELETE");
    assert_eq!(delete.body, None);

    let patch = client.patch_request("a".to_string(), Some(vec![3])).unwrap();
    assert_eq!(patch.method, "PATCH");
    assert_eq!(patch.body, Some(vec![3]));

    let made = client.make_request("OPTIONS", "b", None).unwrap();
    assert_eq!((made.method.as_str(), made.url.as_str()), ("OPTIONS", "https://api.example.com/b"));

    let err = VaneClient::new(config_with_base(None)).get_request("a".to_string()).unwrap_err();
    assert_eq!(err.kind(), ErrorKind::Url);
}

fn raw(status_code: u16, headers: Vec<(&str, &[u8])>, body: RawBody) -> RawResponse {
    RawResponse {
        status_code,
        url: "https://x.test/final".to_string(),
        headers: headers.into_iter().map(|(k, v)| (k.to_string(), v.to_vec())).collect(),
        body,
    }
}

#[test]
fn status_201_is_a_success() {
    let client = VaneClient::new(create_default_config());
    let resp = client
        .convert_response(raw(201, vec![], RawBody::Complete(b"made".to_vec())))
        .unwrap();
    assert_eq!(resp.status_code, 201);
    assert!(resp.is_success);
    assert_eq!(resp.body, b"made".to_vec());
    assert_eq!(resp.url, "https://x.test/final");
}

#[test]
fn status_404_is_a_populated_failure() {
    let client = VaneClient::new(create_default_config());
    let resp = client
        .convert_response(raw(404, vec![("content-type", b"text/plain")], RawBody::Complete(vec![])))
        .unwrap();
    assert_eq!(resp.status_code, 404);
    assert!(!resp.is_success);
    assert_eq!(resp.headers.get("content-type"), Some("text/plain"));
}

#[test]
fn success_is_200_up_to_300() {
    let client = VaneClient::new(create_default_config());
    for (status, expected) in [(199, false), (200, true), (299, true), (300, false), (0, false), (65535, false)] {
        let resp = client.convert_response(raw(status, vec![], RawBody::Complete(vec![]))).unwrap();
        assert_eq!(resp.is_success, expected);
    }
}

#[test]
fn last_header_value_wins() {
    let client = VaneClient::new(create_default_config());
    let resp = client
        .convert_response(raw(
            200,
            vec![("set-cookie", b"a=1"), ("server", b"s"), ("set-cookie", b"b=2")],
            RawBody::Complete(vec![]),
        ))
        .unwrap();
    assert_eq!(resp.headers.len(), 2);
    assert_eq!(resp.headers.get("set-cookie"), Some("b=2"));
    assert_eq!(resp.headers.get("server"), Some("s"));
    assert_eq!(resp.headers.name_at(0), "set-cookie");
    assert_eq!(resp.headers.name_at(1), "server");
}

#[test]
fn last_header_value_wins_whatever_the_case_of_the_name() {
    let client = VaneClient::new(create_default_config());
    let resp = client
        .convert_response(raw(
            200,
            vec![("Set-Cookie", b"a=1"), ("Server", b"s"), ("set-cookie", b"b=2")],
            RawBody::Complete(vec![]),
        ))
        .unwrap();
    assert_eq!(resp.headers.len(), 2);
    assert_eq!(
        resp.headers.to_pairs(),
        vec![
            ("set-cookie".to_string(), "b=2".to_string()),
            ("Server".to_string(), "s".to_string())
        ]
    );
    assert_eq!(lookup_header(&resp.headers, "Set-Cookie"), Some("b=2"));
    assert_eq!(lookup_header(&resp.headers, "SET-COOKIE"), Some("b=2"));
    assert_eq!(lookup_header(&resp.headers, "server"), Some("s"));
    assert_eq!(lookup_header(&resp.headers, "date"), None);
    let resp = client
        .convert_response(raw(200, vec![("A", b"1"), ("a", b"2")], RawBody::Complete(vec![])))
        .unwrap();
    assert_eq!(resp.headers.to_pairs(), vec![("a".to_string(), "2".to_string())]);
}

#[test]
fn header_value_that_is_not_text_becomes_empty() {
    let client = VaneClient::new(create_default_config());
    let resp = client
        .convert_response(raw(
            200,
            vec![("x-bin", &[b'a', 0xff]), ("x-tab", b"a\tb ~"), ("x-ctl", &[b'a', 0x7f])],
            RawBody::Complete(vec![]),
        ))
        .unwrap();
    assert_eq!(resp.headers.get("x-bin"), Some(""));
    assert_eq!(resp.headers.get("x-tab"), Some("a\tb ~"));
    assert_eq!(resp.headers.get("x-ctl"), Some(""));
}

#[test]
fn unreadable_body_is_a_generic_failure() {
    let client = VaneClient::new(create_default_config());
    let err = client
        .convert_response(raw(200, vec![], RawBody::Unreadable("connection reset".to_string())))
        .unwrap_err();
    assert_eq!(err.kind(), ErrorKind::Generic);
    assert_eq!(err.message(), "Read body failed: connection reset");
    assert_eq!(err.status_code(), Some(200));
    let err = client
        .conclude(Dispatched::Answered(raw(502, vec![], RawBody::Unreadable("cut".to_string()))))
        .unwrap_err();
    assert_eq!((err.kind(), err.status_code()), (ErrorKind::Generic, Some(502)));
}

fn failure(timeout: bool, connect: bool, decode: bool, status_code: Option<u16>) -> TransportFailure {
    TransportFailure { timeout, connect, decode, status_code, text: "boom".to_string() }
}

#[test]
fn failures_are_classified() {
    let e = VaneError::from(failure(true, false, false, None));
    assert_eq!((e.kind(), e.message()), (ErrorKind::Timeout, "Timeout error: boom"));
    let e = VaneError::from(failure(false, true, false, None));
    assert_eq!((e.kind(), e.message()), (ErrorKind::Connection, "Connection error: boom"));
    let e = VaneError::from(failure(false, false, true, Some(502)));
    assert_eq!((e.kind(), e.message()), (ErrorKind::Decode, "Decode error: boom"));
    assert_eq!(e.status_code(), Some(502));
    let e = VaneError::from(failure(false, false, false, None));
    assert_eq!((e.kind(), e.message()), (ErrorKind::Generic, "Request error: boom"));
    assert_eq!(e.status_code(), None);
}

#[test]
fn timeout_comes_before_connection_before_decode() {
    assert_eq!(VaneError::from(failure(true, true, true, None)).kind(), ErrorKind::Timeout);
    assert_eq!(VaneError::from(failure(false, true, true, None)).kind(), ErrorKind::Connection);
}

#[test]
fn dispatch_outcomes_are_concluded() {
    let client = VaneClient::new(create_default_config());
    let ok = client
        .conclude(Dispatched::Answered(raw(204, vec![], RawBody::Complete(vec![]))))
        .unwrap();
    assert!(ok.is_success);
    let err = client.conclude(Dispatched::Failed(failure(true, false, false, None))).unwrap_err();
    assert_eq!(err.kind(), ErrorKind::Timeout);
    assert_eq!(err.message(), "Timeout error: boom");
}

#[test]
fn errors_are_built_from_their_parts() {
    let e = VaneError::new(ErrorKind::Json, "m".to_string(), Some(418));
    assert!(matches!(e, VaneError::Json { .. }));
    assert_eq!((e.kind(), e.message(), e.status_code()), (ErrorKind::Json, "m", Some(418)));
    for kind in [
        ErrorKind::Timeout,
        ErrorKind::Connection,
        ErrorKind::Decode,
        ErrorKind::Method,
        ErrorKind::Url,
        ErrorKind::Json,
        ErrorKind::Generic,
    ] {
        let e = VaneError::describe(kind, "a: ", "b");
        assert_eq!((e.kind(), e.message(), e.status_code()), (kind, "a: b", None));
    }
    let e = VaneError::engine_failure("no tls");
    assert_eq!((e.kind(), e.message()), (ErrorKind::Generic, "Failed to create client: no tls"));
}
