use http_engine::request::HttpRequest;
use http_engine::request::Method;
use http_engine::request::Rescourse;
use http_engine::request::Version;
use http_engine::request::process_request_line;

#[test]
fn test_method_into() {
    let method_get: Method = "GET".into();
    let method_post: Method = "POST".into();

    assert_eq!(method_get, Method::Get);
    assert_eq!(method_post, Method::Post);
}

#[test]
fn test_version_into() {
    let version_1_0: Version = "HTTP/1.0".into();
    let version_1_1: Version = "HTTP/1.1".into();
    let version_2_0: Version = "HTTP/2.0".into();

    assert_eq!(version_1_0, Version::V1_0);
    assert_eq!(version_1_1, Version::V1_1);
    assert_eq!(version_2_0, Version::V2_0);
}

#[test]
fn test_parse_request_line() {
    let (method, resource, version) = process_request_line("GET / HTTP/1.0").unwrap();

    assert_eq!(
        (method, resource, version),
        (Method::Get, Rescourse::Path("/".into()), Version::V1_0)
    );

    let (method, resource, version) = process_request_line("POST /foo HTTP/1.1").unwrap();

    assert_eq!(
        (method, resource, version),
        (Method::Post, Rescourse::Path("/foo".into()), Version::V1_1)
    );
}

#[test]
fn test_parse_request() {
    let request: String = r#"GET / HTTP/1.1
        Accept-Encoding: gzip, deflate, br
        Accept-Language: zh-CN,zh;q=0.9
        Cache-Control: max-age=0"#
        .into();
    let parsed_request = HttpRequest::parse(request.as_str());

    println!("{:#?}", parsed_request);

    assert_eq!(parsed_request.mothod, Method::Get);
    assert_eq!(parsed_request.resource, Rescourse::Path("/".into()));
    assert_eq!(parsed_request.version, Version::V1_1);
    assert_eq!(parsed_request.headers.len(), 3);
    assert_eq!(
        parsed_request.headers.get("Accept-Encoding").unwrap(),
        "gzip, deflate, br"
    );
    assert_eq!(
        parsed_request.headers.get("Accept-Language").unwrap(),
        "zh-CN,zh;q=0.9"
    );
    assert_eq!(parsed_request.headers.get("Cache-Control").unwrap(), "max-age=0");
    assert_eq!(parsed_request.body, None);
}

#[test]
fn test_parse_recognized_tokens() {
    let methods = [("GET", Method::Get), ("POST", Method::Post)];
    let versions = [
        ("HTTP/1.0", Version::V1_0),
        ("HTTP/1.1", Version::V1_1),
        ("HTTP/2.0", Version::V2_0),
    ];
    for (m_tok, m) in methods.iter() {
        for (v_tok, v) in versions.iter() {
            let line = format!("{} /some/path {}", m_tok, v_tok);
            let parsed = HttpRequest::parse(line.as_str());
            assert_eq!(parsed.mothod, *m);
            assert_eq!(parsed.resource, Rescourse::Path("/some/path".into()));
            assert_eq!(parsed.version, *v);
        }
    }
}

#[test]
fn test_unrecognized_tokens_degrade() {
    let parsed = HttpRequest::parse("PUT /some/path HTTP/1.1");
    assert_eq!(parsed.mothod, Method::Uninitialized);
    assert_eq!(parsed.version, Version::Uninitialized);
    assert_eq!(parsed.resource, Rescourse::Path("".into()));

    let parsed = HttpRequest::parse("GET /some/path FOO/9.9");
    assert_eq!(parsed.mothod, Method::Uninitialized);
    assert_eq!(parsed.version, Version::Uninitialized);
    assert_eq!(parsed.resource, Rescourse::Path("".into()));
}

#[test]
fn test_duplicate_header_first_wins() {
    let parsed = HttpRequest::parse("GET / HTTP/1.1\r\nHost: first\r\nHost: second\r\n");
    assert_eq!(parsed.headers.len(), 1);
    assert_eq!(parsed.headers.get("Host").unwrap(), "first");
}

#[test]
fn test_header_keys_case_sensitive() {
    let parsed = HttpRequest::parse("host: lower\r\nHost: upper\r\n");
    assert_eq!(parsed.headers.len(), 2);
    assert_eq!(parsed.headers.get("host").unwrap(), "lower");
    assert_eq!(parsed.headers.get("Host").unwrap(), "upper");
}

#[test]
fn test_header_values_trimmed() {
    let parsed = HttpRequest::parse("  Key:   padded value  \r\n");
    assert_eq!(parsed.headers.get("Key").unwrap(), "padded value");
}

#[test]
fn test_body_last_non_empty_line_wins() {
    let parsed = HttpRequest::parse("GET / HTTP/1.1\r\nhello world\r\nsecond body");
    assert_eq!(parsed.body, Some("second body".into()));

    let cleared = HttpRequest::parse("first body\n\n");
    assert_eq!(cleared.body, None);
}

#[test]
fn test_empty_input_defaults() {
    let parsed = HttpRequest::parse("");
    assert_eq!(parsed.mothod, Method::Uninitialized);
    assert_eq!(parsed.version, Version::Uninitialized);
    assert_eq!(parsed.resource, Rescourse::Path("".into()));
    assert_eq!(parsed.headers.len(), 0);
    assert_eq!(parsed.body, None);
}

#[test]
fn test_request_line_field_count_error() {
    assert!(process_request_line("GET / HTTP/1.0 extra").is_err());
    assert!(process_request_line("GET /").is_err());
}
