use connect_proxy::policy::{is_permitted_destination, AllowList, DEFAULT_DESTINATION};
use connect_proxy::status::{create_http_status, Status};

struct TestCase<I, E> {
    input: I,
    expected: E,
}

#[test]
fn test_is_permitted_destination() {
    let cases = vec![
        TestCase {
            input: "api.giphy.com:443",
            expected: true,
        },
        TestCase {
            input: "api.giphy.com:80",
            expected: false,
        },
        TestCase {
            input: "different.url.com:443",
            expected: false,
        },
    ];

    for c in cases {
        assert_eq!(is_permitted_destination(&c.input), c.expected);
    }
}

fn list(entries: &[&str]) -> AllowList {
    AllowList::new(entries.iter().map(|e| e.to_string()).collect()).unwrap()
}

#[test]
fn allow_list_matches_exactly() {
    let l = list(&["api.allowed.example:443", "other.example:8443"]);
    assert!(l.is_permitted("api.allowed.example:443"));
    assert!(l.is_permitted("other.example:8443"));
    assert!(!l.is_permitted("API.allowed.example:443"));
    assert!(!l.is_permitted("api.allowed.example"));
    assert!(!l.is_permitted("api.allowed.example:443/"));
    assert!(!l.is_permitted("https://api.allowed.example:443"));
    assert!(!l.is_permitted(""));
}

#[test]
fn empty_allow_list_permits_nothing() {
    let l = list(&[]);
    assert!(!l.is_permitted(""));
    assert!(!l.is_permitted("api.giphy.com:443"));
}

#[test]
fn empty_entries_are_refused() {
    assert!(AllowList::new(vec!["a:1".to_string(), String::new()]).is_none());
    assert!(AllowList::new(vec![]).is_some());
}

#[test]
fn default_list_holds_the_default_destination() {
    let l = AllowList::permitted_destinations();
    assert!(l.is_permitted(DEFAULT_DESTINATION));
    assert!(!l.is_permitted(""));
}

#[test]
fn authorizing_twice_gives_the_same_answer() {
    let l = list(&["api.allowed.example:443"]);
    let first = l.is_permitted("api.allowed.example:443");
    let second = l.is_permitted("api.allowed.example:443");
    assert!(first);
    assert_eq!(first, second);
}

#[test]
fn status_lines_are_exact() {
    assert_eq!(Status::TunnelOpen.response(), "HTTP/1.1 200 OK\r\n\r\n");
    assert_eq!(Status::Forbidden.response(), "HTTP/1.1 403 Forbidden\r\n\r\n");
    assert_eq!(
        Status::MethodNotAllowed.response(),
        "HTTP/1.1 405 Method Not Allowed\r\n\r\n"
    );
    assert_eq!(Status::Forbidden.code(), 403);
    assert_eq!(Status::MethodNotAllowed.reason(), "Method Not Allowed");
}

#[test]
fn status_line_formats_any_code() {
    assert_eq!(create_http_status(0, ""), "HTTP/1.1 0 \r\n\r\n");
    assert_eq!(create_http_status(7, "x"), "HTTP/1.1 7 x\r\n\r\n");
    assert_eq!(create_http_status(502, "Bad Gateway"), "HTTP/1.1 502 Bad Gateway\r\n\r\n");
    assert_eq!(create_http_status(65535, "Max"), "HTTP/1.1 65535 Max\r\n\r\n");
}
