use vane::body::{report_pretty, report_utf8, report_validation};
use vane::headers::{header_index, merge_headers, put_header};
use vane::method::{check_method, invalid_method, method_verdict};
use vane::response::{all_visible, collect_headers, header_value_text};
use vane::target::{add_query, add_query_pair, pair_fits, report_url_step, resolve_url};
use vane::text::{joined, same_char, same_name, same_text};
use vane::{
    parse_json_response, response_body_utf8, validate_json_body, ErrorKind, StringMap, VaneResponse,
};

fn response_with(body: &[u8]) -> VaneResponse {
    VaneResponse {
        status_code: 200,
        headers: StringMap::new(),
        body: body.to_vec(),
        is_success: true,
        url: "https://x.test/".to_string(),
    }
}

#[test]
fn valid_json_body_is_returned_unchanged() {
    assert_eq!(validate_json_body("{\"a\":1}".to_string()).unwrap(), "{\"a\":1}");
    assert_eq!(validate_json_body(" [1, 2]  ".to_string()).unwrap(), " [1, 2]  ");
    let once = validate_json_body("{\"a\": [true, null]}".to_string()).unwrap();
    let twice = validate_json_body(once.clone()).unwrap();
    assert_eq!(once, twice);
}

#[test]
fn invalid_json_body_fails_with_json() {
    let err = validate_json_body("{bad".to_string()).unwrap_err();
    assert_eq!(err.kind(), ErrorKind::Json);
    assert_eq!(err.message(), "Parse JSON failed: key must be a string at line 1 column 2");
    assert_eq!(validate_json_body(String::new()).unwrap_err().kind(), ErrorKind::Json);
    assert_eq!(validate_json_body("1 2".to_string()).unwrap_err().kind(), ErrorKind::Json);
}

#[test]
fn json_response_is_indented() {
    let pretty = parse_json_response(&response_with(b"{\"a\":1}")).unwrap();
    assert_eq!(pretty, "{\n  \"a\": 1\n}");
    let before: serde_json::Value = serde_json::from_slice(b"{\"a\":1}").unwrap();
    let after: serde_json::Value = serde_json::from_str(&pretty).unwrap();
    assert_eq!(before, after);
}

#[test]
fn nested_json_response_round_trips() {
    let body = b"{\"b\":[1,{\"c\":null}],\"a\":\"x\\ny\",\"n\":-1.5e3}";
    let pretty = parse_json_response(&response_with(body)).unwrap();
    assert!(pretty.lines().count() > 5);
    let before: serde_json::Value = serde_json::from_slice(body).unwrap();
    let after: serde_json::Value = serde_json::from_str(&pretty).unwrap();
    assert_eq!(before, after);
}

#[test]
fn response_that_is_not_json_fails_with_json() {
    let err = parse_json_response(&response_with(b"<html>")).unwrap_err();
    assert_eq!(err.kind(), ErrorKind::Json);
    assert_eq!(err.message(), "Parse JSON failed: expected value at line 1 column 1");
    assert_eq!(err.status_code(), None);
    assert_eq!(parse_json_response(&response_with(b"")).unwrap_err().kind(), ErrorKind::Json);
}

#[test]
fn body_is_decoded_as_utf8() {
    assert_eq!(response_body_utf8(&response_with("héllo ✓".as_bytes())).unwrap(), "héllo ✓");
    assert_eq!(response_body_utf8(&response_with(b"")).unwrap(), "");
}

#[test]
fn body_that_is_not_utf8_fails_with_decode() {
    let err = response_body_utf8(&response_with(&[b'a', 0xff, b'b'])).unwrap_err();
    assert_eq!(err.kind(), ErrorKind::Decode);
    assert_eq!(
        err.message(),
        "Invalid UTF-8 in response body: invalid utf-8 sequence of 1 bytes from index 1"
    );
    let err = response_body_utf8(&response_with(&[0xe2, 0x9c])).unwrap_err();
    assert_eq!(err.kind(), ErrorKind::Decode);
    let err = response_body_utf8(&response_with(&[0xed, 0xa0, 0x80])).unwrap_err();
    assert_eq!(err.kind(), ErrorKind::Decode);
}

#[test]
fn reports_turn_outcomes_into_results() {
    assert_eq!(report_validation("x".to_string(), None).unwrap(), "x");
    let e = report_validation("x".to_string(), Some("bad".to_string())).unwrap_err();
    assert_eq!((e.kind(), e.message()), (ErrorKind::Json, "Parse JSON failed: bad"));

    assert_eq!(report_pretty(Ok("p".to_string())).unwrap(), "p");
    let e = report_pretty(Err("bad".to_string())).unwrap_err();
    assert_eq!((e.kind(), e.message()), (ErrorKind::Json, "Serialize JSON failed: bad"));

    assert_eq!(report_utf8(Ok("t".to_string())).unwrap(), "t");
    let e = report_utf8(Err("bad".to_string())).unwrap_err();
    assert_eq!((e.kind(), e.message()), (ErrorKind::Decode, "Invalid UTF-8 in response body: bad"));

    assert_eq!(report_url_step("P: ", Ok("u".to_string())).unwrap(), "u");
    let e = report_url_step("P: ", Err("bad".to_string())).unwrap_err();
    assert_eq!((e.kind(), e.message()), (ErrorKind::Url, "P: bad"));

    assert!(method_verdict("GET", true).is_ok());
    let e = method_verdict("GET", false).unwrap_err();
    assert_eq!((e.kind(), e.message()), (ErrorKind::Method, "Invalid method: GET"));
    let e = invalid_method("B D");
    assert_eq!((e.kind(), e.message(), e.status_code()), (ErrorKind::Method, "Invalid method: B D", None));
}

#[test]
fn method_check_follows_the_token_grammar() {
    let all = "!#$%&'*+-.^_`|~0123456789ABCDEFGHIJKLMNOPQRSTUVWXYZabcdefghijklmnopqrstuvwxyz";
    assert!(check_method(all).is_ok());
    for c in all.chars() {
        assert!(check_method(&c.to_string()).is_ok());
    }
    for b in 0u8..128 {
        let c = b as char;
        let method = format!("A{c}");
        assert_eq!(check_method(&method).is_ok(), all.contains(c));
    }
    assert!(check_method("").is_err());
    assert!(check_method("Aé").is_err());
}

#[test]
fn url_resolution_without_a_client() {
    assert_eq!(
        resolve_url(Some("https://api.example.com/v1/"), "users/42").unwrap(),
        "https://api.example.com/v1/users/42"
    );
    assert_eq!(
        resolve_url(Some("https://api.example.com/v1/"), "../x?y=1").unwrap(),
        "https://api.example.com/x?y=1"
    );
    assert_eq!(resolve_url(None, "https://x.test").unwrap(), "https://x.test/");
    assert_eq!(resolve_url(None, "users/42").unwrap_err().kind(), ErrorKind::Url);
    assert_eq!(
        resolve_url(None, "https://x.test:99999/").unwrap_err().message(),
        "Invalid URL: invalid port number"
    );
}

#[test]
fn query_pairs_are_form_encoded() {
    assert_eq!(
        add_query_pair("https://x.test/", "k e", "v/é").unwrap(),
        "https://x.test/?k+e=v%2F%C3%A9"
    );
    assert_eq!(add_query_pair("https://x.test/?", "a", "").unwrap(), "https://x.test/?a=");
    let err = add_query_pair("no url", "a", "b").unwrap_err();
    assert_eq!(err.kind(), ErrorKind::Url);
    assert_eq!(err.message(), "Invalid URL: relative URL without a base");
    let mut params = StringMap::new();
    params.insert("a".to_string(), "1".to_string());
    params.insert("b".to_string(), "2".to_string());
    params.insert("a".to_string(), "3".to_string());
    assert_eq!(add_query("https://x.test/p".to_string(), &params).unwrap(), "https://x.test/p?a=3&b=2");
    assert_eq!(add_query("anything".to_string(), &StringMap::new()).unwrap(), "anything");
    assert_eq!(add_query("no url".to_string(), &params).unwrap_err().kind(), ErrorKind::Url);
}

#[test]
fn query_bound_follows_the_reach_of_a_url() {
    assert!(pair_fits(15, 1, 1));
    assert!(pair_fits(0, 0, 0));
    assert!(pair_fits(4_294_967_293, 0, 0));
    assert!(!pair_fits(4_294_967_294, 0, 0));
    assert!(pair_fits(4_294_967_290, 1, 0));
    assert!(!pair_fits(4_294_967_291, 1, 0));
    assert!(pair_fits(4_294_967_290, 0, 1));
    assert!(!pair_fits(4_294_967_291, 0, 1));
    assert!(pair_fits(1, 1_431_655_764, 0));
    assert!(!pair_fits(2, 1_431_655_764, 0));
    assert!(pair_fits(16, 715_827_879, 715_827_880));
    assert!(!pair_fits(17, 715_827_879, 715_827_880));
    assert!(!pair_fits(usize::MAX, 0, 0));
    assert!(!pair_fits(0, usize::MAX, usize::MAX));
}

#[test]
fn names_match_without_case() {
    assert!(same_name("Content-Type", "content-type"));
    assert!(same_name("X-A", "X-A"));
    assert!(same_name("", ""));
    assert!(!same_name("X-A", "X-B"));
    assert!(!same_name("X-A", "X-AA"));
    assert!(!same_name("X-AA", "X-A"));
    assert!(!same_name("É", "é"));
    assert!(!same_name("@", "`"));
    assert!(!same_name("[", "{"));
    assert!(same_char('a', 'A'));
    assert!(same_char('Z', 'z'));
    assert!(!same_char('a', 'b'));
    assert!(!same_char('0', 'P'));
}

#[test]
fn texts_are_compared_exactly() {
    assert!(same_text("abc", "abc"));
    assert!(same_text("", ""));
    assert!(!same_text("abc", "abC"));
    assert!(!same_text("abc", "ab"));
    assert!(!same_text("ab", "abc"));
    assert!(same_text("é✓", "é✓"));
    assert_eq!(joined("a: ", "b"), "a: b");
    assert_eq!(joined("", ""), "");
}

#[test]
fn put_header_replaces_in_place_or_appends() {
    let mut list: Vec<(String, String)> = Vec::new();
    put_header(&mut list, "Accept".to_string(), "a".to_string());
    put_header(&mut list, "Host".to_string(), "h".to_string());
    put_header(&mut list, "ACCEPT".to_string(), "b".to_string());
    let expected: Vec<(String, String)> =
        [("ACCEPT", "b"), ("Host", "h")].iter().map(|(k, v)| (k.to_string(), v.to_string())).collect();
    assert_eq!(list, expected);
}

#[test]
fn merge_keeps_each_header_in_its_first_place() {
    let mut defaults = StringMap::new();
    defaults.insert("A".to_string(), "1".to_string());
    defaults.insert("B".to_string(), "2".to_string());
    defaults.insert("C".to_string(), "3".to_string());
    let mut request = StringMap::new();
    request.insert("b".to_string(), "20".to_string());
    request.insert("D".to_string(), "4".to_string());
    let merged = merge_headers(&defaults, &request);
    assert_eq!(header_index(&merged, "B"), Some(1));
    assert_eq!(header_index(&merged, "d"), Some(3));
    assert_eq!(header_index(&merged, "E"), None);
    let expected: Vec<(String, String)> = [("A", "1"), ("b", "20"), ("C", "3"), ("D", "4")]
        .iter()
        .map(|(k, v)| (k.to_string(), v.to_string()))
        .collect();
    assert_eq!(merged, expected);
    assert!(merge_headers(&StringMap::new(), &StringMap::new()).is_empty());
}

#[test]
fn header_values_are_shown_when_visible() {
    assert!(all_visible(b"text/html; charset=utf-8"));
    assert!(all_visible(b""));
    assert!(all_visible(b"\t"));
    assert!(!all_visible(&[31]));
    assert!(!all_visible(&[127]));
    assert!(!all_visible(&[128]));
    assert!(!all_visible(b"a\nb"));
    assert_eq!(header_value_text(b"a b"), "a b");
    assert_eq!(header_value_text(&[b'a', 200]), "");
    let raw = vec![
        ("a".to_string(), b"1".to_vec()),
        ("b".to_string(), vec![0xc3, 0xa9]),
        ("A".to_string(), b"2".to_vec()),
    ];
    let headers = collect_headers(&raw);
    assert_eq!(headers.to_pairs(), vec![("A".to_string(), "2".to_string()), ("b".to_string(), String::new())]);
}
