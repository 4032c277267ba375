use rusty_socket::handler::{send_response, Response};
use rusty_socket::response::{format_decimal, response_header, Status};

#[test]
fn decimal_agrees_with_std() {
    let samples = [0usize, 1, 9, 10, 11, 99, 100, 101, 4096, 65535, 1234567890, usize::MAX];
    for n in samples {
        assert_eq!(format_decimal(n), n.to_string());
    }
}

#[test]
fn status_lines() {
    assert_eq!(Status::Success.as_str(), "200 OK");
    assert_eq!(Status::BadRequest.as_str(), "400 Bad Request");
    assert_eq!(Status::NotFound.as_str(), "404 Not Found");
    assert_eq!(Status::MethodNotAllowed.as_str(), "405 Method Not Allowed");
    assert_eq!(Status::InternalServerError.as_str(), "500 Internal Server Error");
}

#[test]
fn status_numbers() {
    assert_eq!(Status::Success.number(), 200);
    assert_eq!(Status::BadRequest.number(), 400);
    assert_eq!(Status::NotFound.number(), 404);
    assert_eq!(Status::MethodNotAllowed.number(), 405);
    assert_eq!(Status::InternalServerError.number(), 500);
}

#[test]
fn status_line_starts_with_its_number() {
    let all = [
        Status::Success,
        Status::BadRequest,
        Status::NotFound,
        Status::MethodNotAllowed,
        Status::InternalServerError,
    ];
    for s in all {
        assert!(s.as_str().starts_with(&format!("{} ", s.number())));
    }
}

#[test]
fn header_block_is_exact() {
    assert_eq!(
        response_header("200 OK", "text/html", 12),
        "HTTP/1.1 200 OK\r\nContent-Type: text/html\r\nContent-Length: 12\r\nConnection: close\r\n\r\n"
    );
    assert_eq!(
        response_header("404 Not Found", "text/plain", 0),
        "HTTP/1.1 404 Not Found\r\nContent-Type: text/plain\r\nContent-Length: 0\r\nConnection: close\r\n\r\n"
    );
}

#[test]
fn response_without_body() {
    let wire = send_response("400 Bad Request", None, "text/plain");
    assert_eq!(
        wire,
        b"HTTP/1.1 400 Bad Request\r\nContent-Type: text/plain\r\nContent-Length: 0\r\nConnection: close\r\n\r\n"
            .to_vec()
    );
}

#[test]
fn response_with_body() {
    let body = b"<h1>hi</h1>\n";
    let wire = send_response("200 OK", Some(body), "text/html");
    let mut expected =
        b"HTTP/1.1 200 OK\r\nContent-Type: text/html\r\nContent-Length: 12\r\nConnection: close\r\n\r\n"
            .to_vec();
    expected.extend_from_slice(body);
    assert_eq!(wire, expected);
}

#[test]
fn response_with_empty_body_and_binary_body() {
    let wire = send_response("200 OK", Some(b""), "text/plain");
    assert_eq!(
        wire,
        b"HTTP/1.1 200 OK\r\nContent-Type: text/plain\r\nContent-Length: 0\r\nConnection: close\r\n\r\n"
            .to_vec()
    );
    let body = [0u8, 255, 13, 10, 128];
    let wire = send_response("200 OK", Some(&body), "image/png");
    assert!(wire.ends_with(&body));
    assert!(wire.starts_with(b"HTTP/1.1 200 OK\r\nContent-Type: image/png\r\nContent-Length: 5\r\n"));
}

#[test]
fn response_frames_itself() {
    let response = Response {
        status: Status::InternalServerError,
        content_type: "text/plain".to_string(),
        body: None,
    };
    assert_eq!(
        response.to_bytes(),
        send_response("500 Internal Server Error", None, "text/plain")
    );
    let response = Response {
        status: Status::Success,
        content_type: "text/css".to_string(),
        body: Some(b"a{}".to_vec()),
    };
    assert_eq!(response.to_bytes(), send_response("200 OK", Some(b"a{}"), "text/css"));
}
