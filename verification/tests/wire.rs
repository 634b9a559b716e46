use file_server::response::{http_handler, FileRead};
use file_server::wire::parse_response;

#[test]
fn root_request_builds_exact_wire_bytes() {
    let body = b"<h1>Hi</h1>".to_vec();
    let bytes = http_handler("GET / HTTP/1.1".to_string(), false, FileRead::Content(body));
    let expected =
        b"HTTP/1.1 200 OK\r\nContent-Length: 11\r\nContent-Type: text/html\r\n\r\n<h1>Hi</h1>";
    assert_eq!(bytes, expected.to_vec());
}

#[test]
fn content_length_equals_body_length() {
    let body = vec![0u8; 1234];
    let bytes = http_handler(
        "GET /data.bin HTTP/1.1".to_string(),
        true,
        FileRead::Content(body.clone()),
    );
    let head = parse_response(&bytes).expect("serialized response must parse");
    assert_eq!(head.content_length, 1234);
    assert_eq!(head.body, body);
}

#[test]
fn parse_reproduces_status_length_and_type() {
    let body = b"*not html*".to_vec();
    let bytes = http_handler(
        "GET /readme.md HTTP/1.1".to_string(),
        true,
        FileRead::Content(body.clone()),
    );
    let head = parse_response(&bytes).expect("serialized response must parse");
    assert_eq!(head.status, b"HTTP/1.1 200 OK".to_vec());
    assert_eq!(head.content_length, body.len());
    assert_eq!(head.content_type, b"text/markdown".to_vec());
    assert_eq!(head.body, body);
}

#[test]
fn missing_file_serves_not_found_page() {
    let page = b"<h1>404</h1>".to_vec();
    let bytes = http_handler(
        "GET /missing HTTP/1.1".to_string(),
        false,
        FileRead::Content(page.clone()),
    );
    let head = parse_response(&bytes).expect("serialized response must parse");
    assert_eq!(head.status, b"HTTP/1.1 404 NOT FOUND".to_vec());
    assert_eq!(head.content_type, b"text/html".to_vec());
    assert_eq!(head.body, page);
}

#[test]
fn unreadable_file_serves_internal_error_page() {
    let page = b"<h1>500</h1>".to_vec();
    let bytes = http_handler(
        "GET /broken.html HTTP/1.1".to_string(),
        true,
        FileRead::Fallback(page.clone()),
    );
    let head = parse_response(&bytes).expect("serialized response must parse");
    assert_eq!(head.status, b"HTTP/1.1 500 INTERNAL SERVER ERROR".to_vec());
    assert_eq!(head.content_type, b"text/html".to_vec());
    assert_eq!(head.body, page);
}

#[test]
fn unknown_extension_falls_back_to_octet_stream() {
    let body = b"???".to_vec();
    let bytes = http_handler(
        "GET /file.zzyzx HTTP/1.1".to_string(),
        true,
        FileRead::Content(body),
    );
    let head = parse_response(&bytes).expect("serialized response must parse");
    assert_eq!(head.content_type, b"application/octet-stream".to_vec());
}

#[test]
fn parser_rejects_garbage() {
    assert!(parse_response(&b"no crlf anywhere".to_vec()).is_none());
    assert!(parse_response(&b"HTTP/1.1 200 OK\r\nWrong-Header: 3\r\n\r\nabc".to_vec()).is_none());
    assert!(parse_response(&Vec::new()).is_none());
}

#[test]
fn parser_rejects_wrong_content_length() {
    let bytes = b"HTTP/1.1 200 OK\r\nContent-Length: 4\r\nContent-Type: text/plain\r\n\r\nabc";
    assert!(parse_response(&bytes.to_vec()).is_none());
}

#[test]
fn empty_body_formats_length_zero() {
    let bytes = http_handler(
        "GET /empty.txt HTTP/1.1".to_string(),
        true,
        FileRead::Content(Vec::new()),
    );
    let head = parse_response(&bytes).expect("serialized response must parse");
    assert_eq!(head.content_length, 0);
    assert_eq!(head.body, Vec::<u8>::new());
    let text = String::from_utf8(bytes).unwrap();
    assert!(text.contains("Content-Length: 0\r\n"));
}
