use http_engine::headers::HeaderMap;
use http_engine::request::Version;
use http_engine::response::HttpResponse;
use http_engine::response::HttpStatus;

#[test]
fn test_http_status_resolve() {
    let status = HttpStatus::OK.reason_for();
    assert_eq!(status, (200, "Ok".into()));

    let status = HttpStatus::I_AM_A_TEAPOT.reason_for();
    assert_eq!(status, (418, "I Am A Teapot".into()));
}

#[test]
fn test_response_parse() {
    let response_with_no_headers =
        HttpResponse::new(Version::V1_1, HttpStatus::OK, None, None).serialize();

    assert_eq!(
        String::from("HTTP/1.1 200 Ok\r\nContent-Type: text/html\r\nContent-Length: 0\r\n\r\n"),
        response_with_no_headers
    );

    let response_with_body = HttpResponse::new(
        Version::V1_1,
        HttpStatus::OK,
        None,
        Some("Hello I Am zRain".into()),
    )
    .serialize();

    assert_eq!(String::from("HTTP/1.1 200 Ok\r\nContent-Type: text/html\r\nContent-Length: 16\r\n\r\nHello I Am zRain"), response_with_body);

    let mut test_header_map = HeaderMap::new();
    let mut header_str: String = "".into();

    test_header_map.insert("Server".into(), "nginx/1.14.1".into());
    test_header_map.insert("Date".into(), "Sat, 24 Sep 2022 03:15:53 GMT".into());
    test_header_map.insert("Connection".into(), "keep-alive".into());

    let mut i = 0;
    while i < test_header_map.len() {
        let (k, v) = test_header_map.entry_at(i);
        header_str = format!("{}{}: {}\r\n", header_str, k, v);
        i += 1;
    }

    let response_width_headers =
        HttpResponse::new(Version::V1_1, HttpStatus::OK, Some(test_header_map), None).serialize();

    assert_eq!(
        format!("HTTP/1.1 200 Ok\r\n{}Content-Length: 0\r\n\r\n", header_str),
        response_width_headers
    );
}

#[test]
fn test_status_registry_spot_values() {
    assert_eq!(HttpStatus::NOT_FOUND.reason_for(), (404, "Not Found".into()));
    assert_eq!(HttpStatus::GONE.reason_for(), (410, "Gone".into()));
    assert_eq!(HttpStatus::CONFLICT.reason_for(), (409, "Conflict".into()));
    assert_eq!(HttpStatus::CONTINUE.reason_for(), (100, "Continue".into()));
    assert_eq!(
        HttpStatus::HTTP_VERSION_NOT_SUPPORTED.reason_for(),
        (505, "Http Version Not Supported".into())
    );
}

#[test]
fn test_server_header_injected_into_caller_block() {
    let mut headers = HeaderMap::new();
    headers.insert("Date".into(), "Sat, 24 Sep 2022 03:15:53 GMT".into());
    let serialized =
        HttpResponse::new(Version::V1_1, HttpStatus::OK, Some(headers), None).serialize();
    assert_eq!(
        serialized,
        "HTTP/1.1 200 Ok\r\nDate: Sat, 24 Sep 2022 03:15:53 GMT\r\nServer: nginx/1.14.1\r\nContent-Length: 0\r\n\r\n"
    );
}

#[test]
fn test_caller_content_length_overridden() {
    let mut headers = HeaderMap::new();
    headers.insert("Content-Length".into(), "999".into());
    let serialized = HttpResponse::new(
        Version::V1_1,
        HttpStatus::OK,
        Some(headers),
        Some("abc".into()),
    )
    .serialize();
    assert_eq!(
        serialized,
        "HTTP/1.1 200 Ok\r\nServer: nginx/1.14.1\r\nContent-Length: 3\r\n\r\nabc"
    );
}

#[test]
fn test_content_length_counts_bytes() {
    let serialized = HttpResponse::new(
        Version::V1_1,
        HttpStatus::OK,
        None,
        Some("h\u{e9}llo".into()),
    )
    .serialize();
    assert_eq!(
        serialized,
        "HTTP/1.1 200 Ok\r\nContent-Type: text/html\r\nContent-Length: 6\r\n\r\nh\u{e9}llo"
    );
}

#[test]
fn test_default_response() {
    let response = HttpResponse::default();
    assert_eq!(*response.version(), Version::V1_1);
    assert_eq!(*response.status_code(), HttpStatus::OK);
    assert_eq!(response.body(), "");
    assert_eq!(response.headers(), "Content-Type: text/html\r\n");
}

#[test]
fn test_send_appends_wire_bytes() {
    let response = HttpResponse::new(
        Version::V1_1,
        HttpStatus::OK,
        None,
        Some("Hello I Am zRain".into()),
    );
    let mut sink: Vec<u8> = b"previous".to_vec();
    response.send(&mut sink);
    let expected = "HTTP/1.1 200 Ok\r\nContent-Type: text/html\r\nContent-Length: 16\r\n\r\nHello I Am zRain";
    let mut want = b"previous".to_vec();
    want.extend_from_slice(expected.as_bytes());
    assert_eq!(sink, want);
}

#[test]
fn test_uninitialized_version_serializes_placeholder() {
    let serialized =
        HttpResponse::new(Version::Uninitialized, HttpStatus::OK, None, None).serialize();
    assert!(serialized.starts_with("HTTP/Uninitialized 200 Ok\r\n"));
}
