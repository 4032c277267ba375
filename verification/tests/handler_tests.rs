use rusty_socket::handler::{
    confine, handle_client, sanitize_path, Action, Event, Lookup, Phase, Response,
    REQUEST_BUFFER_SIZE,
};
use rusty_socket::response::Status;

const ROOT: &str = "/var/www";
const INDEX: &str = "index.html";

fn plain(status: Status) -> Response {
    Response { status, content_type: "text/plain".to_string(), body: None }
}

fn found(path: &str, regular_file: bool) -> Lookup {
    Lookup::Found { canonical: path.to_string(), regular_file }
}

fn root_found() -> Lookup {
    found(ROOT, false)
}

fn resolved(target: Lookup) -> Event {
    Event::Resolved { root: root_found(), target }
}

fn canonicalize(target: &str) -> Action {
    Action::Canonicalize { root: ROOT.to_string(), target: target.to_string() }
}

fn request(bytes: &[u8]) -> (Phase, Action) {
    handle_client(Phase::AwaitingRequest, Event::Received(bytes.to_vec()), ROOT, INDEX)
}

#[test]
fn sanitize_decodes_percent_escapes() {
    assert_eq!(
        sanitize_path(ROOT, "/a%20b.txt", INDEX),
        Some("/var/www/a b.txt".to_string())
    );
    assert_eq!(
        sanitize_path(ROOT, "/%F0%9F%91%BE.png", INDEX),
        Some("/var/www/👾.png".to_string())
    );
    assert_eq!(
        sanitize_path(ROOT, "/%2e%2e/%2E%2E/etc/passwd", INDEX),
        Some("/var/www/../../etc/passwd".to_string())
    );
}

#[test]
fn sanitize_keeps_plus_and_broken_escapes() {
    assert_eq!(sanitize_path(ROOT, "/a+b", INDEX), Some("/var/www/a+b".to_string()));
    assert_eq!(sanitize_path(ROOT, "/100%", INDEX), Some("/var/www/100%".to_string()));
    assert_eq!(sanitize_path(ROOT, "/%zz", INDEX), Some("/var/www/%zz".to_string()));
    assert_eq!(sanitize_path(ROOT, "/%4", INDEX), Some("/var/www/%4".to_string()));
}

#[test]
fn sanitize_rejects_escapes_that_are_not_utf8() {
    assert_eq!(sanitize_path(ROOT, "/%FF", INDEX), None);
    assert_eq!(sanitize_path(ROOT, "/%C3", INDEX), None);
}

#[test]
fn sanitize_trims_after_decoding() {
    assert_eq!(sanitize_path(ROOT, "%20/a%20", INDEX), Some("/var/www/a".to_string()));
    assert_eq!(sanitize_path(ROOT, "%20%2F%20", INDEX), Some("/var/www/index.html".to_string()));
    assert_eq!(sanitize_path(ROOT, "%20", INDEX), Some("/var/www/index.html".to_string()));
}

#[test]
fn root_or_empty_request_resolves_to_index_file() {
    assert_eq!(sanitize_path(ROOT, "/", INDEX), Some("/var/www/index.html".to_string()));
    assert_eq!(sanitize_path(ROOT, "", INDEX), Some("/var/www/index.html".to_string()));
    assert_eq!(sanitize_path("/srv", "/", "home.htm"), Some("/srv/home.htm".to_string()));
}

#[test]
fn sanitize_rejects_empty_root_or_index() {
    assert_eq!(sanitize_path("", "/a", INDEX), None);
    assert_eq!(sanitize_path(ROOT, "/a", ""), None);
}

#[test]
fn confine_accepts_regular_file_within_root() {
    assert_eq!(
        confine(root_found(), found("/var/www/a/b.txt", true)),
        Some("/var/www/a/b.txt".to_string())
    );
}

#[test]
fn confine_rejects_traversal_outside_root() {
    assert_eq!(confine(root_found(), found("/etc/passwd", true)), None);
    assert_eq!(confine(root_found(), found("/var/www2/secret", true)), None);
    assert_eq!(confine(root_found(), found("/var", true)), None);
    assert_eq!(confine(root_found(), found("/", true)), None);
}

#[test]
fn confine_rejects_directories_and_missing_files() {
    assert_eq!(confine(root_found(), found("/var/www/a", false)), None);
    assert_eq!(confine(root_found(), found("/var/www", false)), None);
    assert_eq!(confine(root_found(), Lookup::Missing), None);
}

#[test]
fn confine_rejects_everything_when_root_is_missing() {
    assert_eq!(confine(Lookup::Missing, found("/var/www/a.txt", true)), None);
    assert_eq!(confine(Lookup::Missing, Lookup::Missing), None);
}

#[test]
fn confine_compares_with_the_canonical_root() {
    // The root is configured as /srv/cur, a link to /srv/www.
    assert_eq!(
        confine(found("/srv/www", false), found("/srv/www/a.txt", true)),
        Some("/srv/www/a.txt".to_string())
    );
    assert_eq!(confine(found("/srv/www", false), found("/srv/cur/a.txt", true)), None);
    assert_eq!(confine(found("/srv/www", false), found("/srv/other/a.txt", true)), None);
}

#[test]
fn root_given_through_a_link_serves_files_below_its_target() {
    let file_system = |path: &str| match path {
        "/srv/cur" => found("/srv/www", false),
        "/srv/cur/a.txt" => found("/srv/www/a.txt", true),
        "/srv/cur/../secret" => found("/srv/secret", true),
        _ => Lookup::Missing,
    };
    let ask = |request: &[u8]| {
        let (phase, action) = handle_client(
            Phase::AwaitingRequest,
            Event::Received(request.to_vec()),
            "/srv/cur",
            INDEX,
        );
        match action {
            Action::Canonicalize { root, target } => handle_client(
                phase,
                Event::Resolved { root: file_system(&root), target: file_system(&target) },
                "/srv/cur",
                INDEX,
            ),
            other => (phase, other),
        }
    };
    assert_eq!(
        ask(b"GET /a.txt HTTP/1.1\r\n\r\n"),
        (
            Phase::AwaitingContents { path: "/srv/www/a.txt".to_string() },
            Action::ReadFile { path: "/srv/www/a.txt".to_string() }
        )
    );
    assert_eq!(
        ask(b"GET /../secret HTTP/1.1\r\n\r\n"),
        (Phase::Closed, Action::Respond(plain(Status::NotFound)))
    );
    assert_eq!(
        ask(b"GET /missing.txt HTTP/1.1\r\n\r\n"),
        (Phase::Closed, Action::Respond(plain(Status::NotFound)))
    );
}

#[test]
fn peer_that_closed_gets_no_response() {
    assert_eq!(request(b""), (Phase::Closed, Action::Close));
}

#[test]
fn failed_read_gets_no_response() {
    assert_eq!(
        handle_client(Phase::AwaitingRequest, Event::ReadFailed, ROOT, INDEX),
        (Phase::Closed, Action::Close)
    );
}

#[test]
fn malformed_first_line_yields_400() {
    assert_eq!(request(b"GARBAGE"), (Phase::Closed, Action::Respond(plain(Status::BadRequest))));
    assert_eq!(
        request(b"POST / HTTP/1.1\r\n\r\n"),
        (Phase::Closed, Action::Respond(plain(Status::BadRequest)))
    );
    assert_eq!(
        request(b"GET / HTTP/1.0\r\n\r\n"),
        (Phase::Closed, Action::Respond(plain(Status::BadRequest)))
    );
    assert_eq!(request(b"\r\n"), (Phase::Closed, Action::Respond(plain(Status::BadRequest))));
}

#[test]
fn well_formed_request_asks_for_lookup() {
    assert_eq!(
        request(b"GET /existing.html HTTP/1.1\r\nHost: localhost\r\n\r\n"),
        (Phase::AwaitingLookup, canonicalize("/var/www/existing.html"))
    );
    assert_eq!(
        request(b"GET / HTTP/1.1\r\n\r\n"),
        (Phase::AwaitingLookup, canonicalize("/var/www/index.html"))
    );
    assert_eq!(
        request(b"GET /../../etc/passwd HTTP/1.1\r\n\r\n"),
        (Phase::AwaitingLookup, canonicalize("/var/www/../../etc/passwd"))
    );
}

#[test]
fn request_bytes_that_are_not_utf8_are_replaced() {
    assert_eq!(
        request(b"GET /a\xFFb HTTP/1.1\r\n\r\n"),
        (Phase::AwaitingLookup, canonicalize("/var/www/a\u{FFFD}b"))
    );
}

#[test]
fn undecodable_path_yields_404() {
    assert_eq!(
        request(b"GET /%FF HTTP/1.1\r\n\r\n"),
        (Phase::Closed, Action::Respond(plain(Status::NotFound)))
    );
}

#[test]
fn empty_root_yields_404() {
    assert_eq!(
        handle_client(
            Phase::AwaitingRequest,
            Event::Received(b"GET / HTTP/1.1\r\n\r\n".to_vec()),
            "",
            INDEX
        ),
        (Phase::Closed, Action::Respond(plain(Status::NotFound)))
    );
}

#[test]
fn request_longer_than_the_buffer_is_cut_off() {
    let mut long = b"GET /".to_vec();
    while long.len() < REQUEST_BUFFER_SIZE {
        long.push(b'a');
    }
    long.extend_from_slice(b" HTTP/1.1\r\n\r\n");
    assert_eq!(request(&long), (Phase::Closed, Action::Respond(plain(Status::BadRequest))));

    let mut fits = b"GET /x HTTP/1.1\r\n".to_vec();
    while fits.len() < REQUEST_BUFFER_SIZE + 100 {
        fits.push(b'h');
    }
    assert_eq!(
        request(&fits),
        (Phase::AwaitingLookup, canonicalize("/var/www/x"))
    );
}

#[test]
fn path_outside_root_or_missing_yields_404() {
    let not_found = (Phase::Closed, Action::Respond(plain(Status::NotFound)));
    assert_eq!(
        handle_client(Phase::AwaitingLookup, resolved(Lookup::Missing), ROOT, INDEX),
        not_found
    );
    assert_eq!(
        handle_client(Phase::AwaitingLookup, resolved(found("/etc/passwd", true)), ROOT, INDEX),
        not_found
    );
    assert_eq!(
        handle_client(Phase::AwaitingLookup, resolved(found("/var/www/dir", false)), ROOT, INDEX),
        not_found
    );
    assert_eq!(
        handle_client(
            Phase::AwaitingLookup,
            Event::Resolved { root: Lookup::Missing, target: found("/var/www/a.txt", true) },
            ROOT,
            INDEX
        ),
        not_found
    );
}

#[test]
fn resolved_file_is_read() {
    assert_eq!(
        handle_client(
            Phase::AwaitingLookup,
            resolved(found("/var/www/existing.html", true)),
            ROOT,
            INDEX
        ),
        (
            Phase::AwaitingContents { path: "/var/www/existing.html".to_string() },
            Action::ReadFile { path: "/var/www/existing.html".to_string() }
        )
    );
}

#[test]
fn unreadable_file_yields_500() {
    assert_eq!(
        handle_client(
            Phase::AwaitingContents { path: "/var/www/existing.html".to_string() },
            Event::LoadFailed,
            ROOT,
            INDEX
        ),
        (Phase::Closed, Action::Respond(plain(Status::InternalServerError)))
    );
}

#[test]
fn existing_file_is_served_byte_for_byte() {
    let contents = b"<html>\xFF\x00body</html>\r\n".to_vec();
    let (phase, action) = request(b"GET /existing.html HTTP/1.1\r\n\r\n");
    assert_eq!(phase, Phase::AwaitingLookup);
    let (root, target) = match action {
        Action::Canonicalize { root, target } => (root, target),
        other => panic!("unexpected action {:?}", other),
    };
    assert_eq!(root, ROOT);
    let (phase, action) = handle_client(phase, resolved(found(&target, true)), ROOT, INDEX);
    assert_eq!(action, Action::ReadFile { path: "/var/www/existing.html".to_string() });
    let (phase, action) = handle_client(phase, Event::Loaded(contents.clone()), ROOT, INDEX);
    assert_eq!(phase, Phase::Closed);
    let response = match action {
        Action::Respond(response) => response,
        other => panic!("unexpected action {:?}", other),
    };
    assert_eq!(response.status, Status::Success);
    assert_eq!(response.content_type, "text/html");
    assert_eq!(response.body, Some(contents.clone()));
    let wire = response.to_bytes();
    let head = format!(
        "HTTP/1.1 200 OK\r\nContent-Type: text/html\r\nContent-Length: {}\r\nConnection: close\r\n\r\n",
        contents.len()
    );
    assert!(wire.starts_with(head.as_bytes()));
    assert_eq!(&wire[head.len()..], &contents[..]);
}

#[test]
fn event_out_of_turn_closes_without_response() {
    let closed = (Phase::Closed, Action::Close);
    assert_eq!(
        handle_client(Phase::AwaitingRequest, Event::Loaded(vec![1]), ROOT, INDEX),
        closed
    );
    assert_eq!(
        handle_client(Phase::AwaitingRequest, resolved(Lookup::Missing), ROOT, INDEX),
        closed
    );
    assert_eq!(
        handle_client(Phase::AwaitingLookup, Event::Received(b"GET / HTTP/1.1".to_vec()), ROOT, INDEX),
        closed
    );
    assert_eq!(handle_client(Phase::AwaitingLookup, Event::LoadFailed, ROOT, INDEX), closed);
    assert_eq!(
        handle_client(
            Phase::AwaitingContents { path: "/var/www/a".to_string() },
            Event::ReadFailed,
            ROOT,
            INDEX
        ),
        closed
    );
    assert_eq!(
        handle_client(Phase::Closed, Event::Received(b"GET / HTTP/1.1".to_vec()), ROOT, INDEX),
        closed
    );
}

#[test]
fn every_run_of_three_events_ends_closed() {
    let events = || {
        vec![
            Event::Received(b"GET /a.css HTTP/1.1\r\n\r\n".to_vec()),
            Event::Received(Vec::new()),
            Event::ReadFailed,
            resolved(Lookup::Missing),
            resolved(found("/var/www/a.css", true)),
            Event::Loaded(b"x".to_vec()),
            Event::LoadFailed,
        ]
    };
    for first in events() {
        for second in events() {
            for third in events() {
                let (phase, _) = handle_client(Phase::AwaitingRequest, first.clone(), ROOT, INDEX);
                let (phase, _) = handle_client(phase, second.clone(), ROOT, INDEX);
                let (phase, action) = handle_client(phase, third, ROOT, INDEX);
                assert_eq!(phase, Phase::Closed);
                assert!(matches!(action, Action::Respond(_) | Action::Close));
            }
        }
    }
}
