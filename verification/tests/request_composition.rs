use api_requests::{get_request_url, set_headers, set_query_params, Header, Options, Request, Requests};

fn options() -> Options {
    Options::new(
        String::from("https://api.example.com"),
        String::from("key-123"),
        String::from("token-abc"),
    )
}

fn pair(key: &str, value: &str) -> (String, String) {
    (String::from(key), String::from(value))
}

fn header(name: &str, value: &str) -> Header {
    Header { name: String::from(name), value: String::from(value) }
}

fn mandated() -> Vec<Header> {
    vec![
        header("x-api-key", "key-123"),
        header("Authorization", "Bearer token-abc"),
        header("Accept", "application/json"),
    ]
}

#[test]
fn options_hand_back_what_they_were_made_with() {
    let o = options();
    assert_eq!(o.base_url(), "https://api.example.com");
    assert_eq!(o.api_key(), "key-123");
    assert_eq!(o.authorization(), "token-abc");
}

#[test]
fn request_url_is_base_followed_by_path() {
    assert_eq!(get_request_url(&options(), "/v1/items"), "https://api.example.com/v1/items");
}

#[test]
fn request_url_is_not_normalized() {
    let o = Options::new(String::from("https://api.example.com/"), String::new(), String::new());
    assert_eq!(get_request_url(&o, "/v1/items"), "https://api.example.com//v1/items");
    assert_eq!(get_request_url(&o, "v1/items"), "https://api.example.com/v1/items");
    assert_eq!(get_request_url(&o, ""), "https://api.example.com/");
}

#[test]
fn request_url_of_empty_base_is_the_path() {
    let o = Options::new(String::new(), String::new(), String::new());
    assert_eq!(get_request_url(&o, "/v1/items"), "/v1/items");
    assert_eq!(get_request_url(&o, ""), "");
}

#[test]
fn request_url_keeps_non_ascii_text() {
    let o = Options::new(String::from("https://példa.example"), String::new(), String::new());
    assert_eq!(get_request_url(&o, "/käse?q=☃"), "https://példa.example/käse?q=☃");
}

#[test]
fn new_request_has_only_its_target() {
    let r = Request::new(String::from("https://api.example.com/v1/items"));
    assert_eq!(r.url, "https://api.example.com/v1/items");
    assert!(r.headers.is_empty());
    assert!(r.query.is_empty());
}

#[test]
fn set_headers_attaches_the_three_mandated_headers() {
    let r = set_headers(&options(), Request::new(String::from("u")));
    assert_eq!(r.headers, mandated());
    assert_eq!(r.url, "u");
    assert!(r.query.is_empty());
}

#[test]
fn set_headers_keeps_headers_already_there() {
    let mut r = Request::new(String::from("u"));
    r.headers.push(header("X-Trace", "1"));
    r.query.push(pair("a", "b"));
    let r = set_headers(&options(), r);
    let mut expected = vec![header("X-Trace", "1")];
    expected.extend(mandated());
    assert_eq!(r.headers, expected);
    assert_eq!(r.query, vec![pair("a", "b")]);
}

#[test]
fn set_headers_separates_scheme_and_token_by_one_space() {
    let o = Options::new(String::new(), String::new(), String::new());
    let r = set_headers(&o, Request::new(String::new()));
    assert_eq!(r.headers[0], header("x-api-key", ""));
    assert_eq!(r.headers[1], header("Authorization", "Bearer "));
    assert_eq!(r.headers[2], header("Accept", "application/json"));
}

#[test]
fn set_query_params_without_query_changes_nothing() {
    let mut r = Request::new(String::from("u"));
    r.headers.push(header("X-Trace", "1"));
    r.query.push(pair("a", "b"));
    let expected = r.clone();
    assert_eq!(set_query_params(None, r), expected);
}

#[test]
fn set_query_params_attaches_pairs_in_order() {
    let r = set_query_params(
        Some(vec![pair("page", "2"), pair("limit", "50"), pair("page", "3")]),
        Request::new(String::from("u")),
    );
    assert_eq!(r.query, vec![pair("page", "2"), pair("limit", "50"), pair("page", "3")]);
    assert_eq!(r.url, "u");
    assert!(r.headers.is_empty());
}

#[test]
fn set_query_params_appends_behind_earlier_pairs() {
    let r = set_query_params(Some(vec![pair("a", "1")]), Request::new(String::from("u")));
    let r = set_query_params(Some(vec![pair("b", "2")]), r);
    assert_eq!(r.query, vec![pair("a", "1"), pair("b", "2")]);
}

#[test]
fn set_query_params_with_no_pairs_leaves_no_query() {
    let r = set_query_params(Some(Vec::new()), Request::new(String::from("u")));
    assert!(r.query.is_empty());
}

#[test]
fn get_composes_target_headers_and_no_query() {
    let r = Requests::get(&options(), "/v1/items", None);
    assert_eq!(r.url, "https://api.example.com/v1/items");
    assert_eq!(r.headers, mandated());
    assert!(r.query.is_empty());
}

#[test]
fn get_attaches_the_query_pairs_it_is_given() {
    let r = Requests::get(
        &options(),
        "/v1/items",
        Some(vec![pair("status", "open"), pair("q", "a b&c")]),
    );
    assert_eq!(r.url, "https://api.example.com/v1/items");
    assert_eq!(r.headers, mandated());
    assert_eq!(r.query, vec![pair("status", "open"), pair("q", "a b&c")]);
}

#[test]
fn get_query_pairs_match_whatever_their_order() {
    let given = vec![pair("b", "2"), pair("a", "1"), pair("c", "3")];
    let r = Requests::get(&options(), "/v1/items", Some(given.clone()));
    let mut got = r.query.clone();
    let mut want = given;
    got.sort();
    want.sort();
    assert_eq!(got, want);
}

#[test]
fn get_for_different_paths_gives_independent_requests() {
    let o = options();
    let first = Requests::get(&o, "/v1/items", Some(vec![pair("a", "1")]));
    let second = Requests::get(&o, "/v1/users", None);
    assert_ne!(first.url, second.url);
    assert_eq!(first.url, "https://api.example.com/v1/items");
    assert_eq!(second.url, "https://api.example.com/v1/users");
    assert_eq!(first.headers, second.headers);
    assert_eq!(first.query, vec![pair("a", "1")]);
    assert!(second.query.is_empty());
    assert_eq!(first, Requests::get(&o, "/v1/items", Some(vec![pair("a", "1")])));
}
