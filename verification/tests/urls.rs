use xmz_gui::error::Error;
use xmz_gui::utils::{build_url, client_timeout, document_result, method_from_name, refusal_result, Method, ParsedUrl};

fn base(s: &str) -> ParsedUrl {
    ParsedUrl::parse(s).unwrap()
}

#[test]
fn build_url_without_params_keeps_an_empty_query() {
    let url = build_url(&base("http://0.0.0.0:3000"), "/", vec![]).unwrap();
    assert_eq!(url.as_str(), "http://0.0.0.0:3000/?");
}

#[test]
fn build_url_resolves_the_path() {
    let url = build_url(&base("http://example.com/a/b"), "/v1/meta", vec![]).unwrap();
    assert_eq!(url.as_str(), "http://example.com/v1/meta?");
}

#[test]
fn build_url_appends_params_in_order() {
    let params = vec![("foo", "bar & baz".to_string()), ("page", "2".to_string())];
    let url = build_url(&base("https://example.net"), "/sync", params).unwrap();
    assert_eq!(url.as_str(), "https://example.net/sync?foo=bar+%26+baz&page=2");
}

#[test]
fn build_url_replaces_the_old_query() {
    let url = build_url(&base("https://example.net/?lang=fr"), "/x?old=1", vec![("a", "b".to_string())]).unwrap();
    assert_eq!(url.as_str(), "https://example.net/x?a=b");
}

#[test]
fn a_base_that_is_no_url_does_not_parse() {
    assert!(matches!(ParsedUrl::parse("no url at all"), Err(Error::UrlParseError(_))));
    assert_eq!(base("http://0.0.0.0:3000").as_str(), "http://0.0.0.0:3000/");
}

#[test]
fn build_url_fails_where_the_path_does_not_resolve() {
    let r = build_url(&base("mailto:a@b"), "/c", vec![]);
    assert!(matches!(r, Err(Error::UrlParseError(url::ParseError::RelativeUrlWithCannotBeABaseBase))));
}

#[test]
fn method_names() {
    assert_eq!(method_from_name("post"), Method::Post);
    assert_eq!(method_from_name("put"), Method::Put);
    assert_eq!(method_from_name("delete"), Method::Delete);
    assert_eq!(method_from_name("get"), Method::Get);
    assert_eq!(method_from_name("POST"), Method::Get);
    assert_eq!(method_from_name(""), Method::Get);
    assert_eq!(method_from_name("posts"), Method::Get);
}

#[test]
fn timeouts() {
    assert_eq!(client_timeout(0), None);
    assert_eq!(client_timeout(30), Some(30));
    assert_eq!(client_timeout(80), Some(80));
}

fn some_http_error() -> reqwest::Error {
    reqwest::blocking::Client::new().get("not a url").build().unwrap_err()
}

#[test]
fn response_on_success_is_the_document() {
    let js: serde_json::Value = serde_json::from_str("{\"a\":1}").unwrap();
    let r = document_result(Ok(js.clone()));
    assert_eq!(r.unwrap(), js);
}

#[test]
fn response_on_success_without_json_is_a_backend_error() {
    let r = document_result(Err(some_http_error()));
    assert!(matches!(r, Err(Error::BackendError)));
}

#[test]
fn response_on_failure_carries_the_servers_message() {
    let r = refusal_result(Ok("boom".to_string()));
    match r {
        Err(Error::XMZError(text)) => assert_eq!(text, "boom"),
        other => panic!("unexpected {:?}", other),
    }
}

#[test]
fn response_on_failure_without_a_json_string_is_the_http_error() {
    let r = refusal_result(Err(some_http_error()));
    assert!(matches!(r, Err(Error::ReqwestError(_))));
}

#[test]
fn errors_convert() {
    let e: Error = url::ParseError::EmptyHost.into();
    assert!(matches!(e, Error::UrlParseError(url::ParseError::EmptyHost)));
    let e: Error = some_http_error().into();
    assert!(matches!(e, Error::ReqwestError(_)));
}

#[test]
fn method_names_read_back() {
    for m in [Method::Get, Method::Post, Method::Put, Method::Delete] {
        assert_eq!(method_from_name(m.name()), m);
    }
    assert_eq!(Method::Post.name(), "post");
    assert_eq!(Method::Get.name(), "get");
    assert_eq!(Method::Put.name(), "put");
    assert_eq!(Method::Delete.name(), "delete");
}
