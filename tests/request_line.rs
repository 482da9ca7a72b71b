use connect_proxy::flow::unwrap_or_continue;
use connect_proxy::request::{
    is_http_connect, parse_http_request, read_http_request, HttpRequest, RequestError,
};

struct TestCase<I, E> {
    input: I,
    expected: E,
}

#[test]
fn test_is_http_connect() {
    let cases = vec![
        TestCase {
            input: HttpRequest {
                method: "CONNECT".to_string(),
                uri: "api.giphy.com:443".to_string(),
            },
            expected: true,
        },
        TestCase {
            input: HttpRequest {
                method: "GET".to_string(),
                uri: "api.giphy.com:443".to_string(),
            },
            expected: false,
        },
    ];
    for c in cases {
        assert_eq!(is_http_connect(&c.input), c.expected);
    }
}

#[test]
fn test_parse_http_request_connect_should_pass() {
    let line = "CONNECT example.com:443 HTTP/1.1\r\n\r\n";
    assert_eq!(
        parse_http_request(line).unwrap(),
        HttpRequest {
            method: "CONNECT".to_string(),
            uri: "example.com:443".to_string(),
        }
    );
}

#[test]
fn test_parse_http_request_get_should_pass() {
    let line = "GET / HTTP/1.1\r\n\r\n";
    assert_eq!(
        parse_http_request(line).unwrap(),
        HttpRequest {
            method: "GET".to_string(),
            uri: "/".to_string(),
        }
    );
}

#[test]
fn test_parse_http_request_invalid_input_should_pass() {
    let line = "This is some test text";
    assert_eq!(
        parse_http_request(line).unwrap(),
        HttpRequest {
            method: "This".to_string(),
            uri: "is".to_string(),
        }
    );
}

#[test]
#[should_panic]
fn test_parse_http_request_invalid_input_should_panic() {
    let line = "ThisIsSomeTestText";
    parse_http_request(line).unwrap();
}

#[test]
#[should_panic]
fn test_parse_http_request_no_input_should_panic() {
    let line = "";
    parse_http_request(line).unwrap();
}

#[test]
fn test_unwrap_or_continue_unwraps_when_ok() {
    loop {
        let ok: Result<&str, &str> = Ok("ok");
        let v = match unwrap_or_continue(ok) {
            Some(v) => v,
            None => continue,
        };
        assert_eq!(v, "ok");
        break;
    }
}

#[test]
fn test_unwrap_or_continue_continues_when_err() {
    for _ in [0] {
        let err: Result<&str, &str> = Err("err");
        match unwrap_or_continue(err) {
            Some(_) => {}
            None => continue,
        };
        panic!(); // Should never reach
    }
}

#[test]
fn empty_request_is_malformed() {
    assert_eq!(parse_http_request(""), Err(RequestError::Malformed));
    assert_eq!(read_http_request(b""), Err(RequestError::Malformed));
}

#[test]
fn single_token_is_malformed() {
    assert_eq!(parse_http_request("CONNECT"), Err(RequestError::Malformed));
}

#[test]
fn empty_tokens_are_kept() {
    let r = parse_http_request("CONNECT  host:1").unwrap();
    assert_eq!(r.method, "CONNECT");
    assert_eq!(r.uri, "");
    let r = parse_http_request(" x").unwrap();
    assert_eq!(r.method, "");
    assert_eq!(r.uri, "x");
}

#[test]
fn target_runs_to_the_end_without_a_second_space() {
    let r = parse_http_request("CONNECT host:443").unwrap();
    assert_eq!(r.uri, "host:443");
}

#[test]
fn non_ascii_tokens_are_kept_whole() {
    let r = parse_http_request("CONNECT héllo.example:443 HTTP/1.1").unwrap();
    assert_eq!(r.uri, "héllo.example:443");
}

#[test]
fn request_bytes_are_decoded_then_parsed() {
    let r = read_http_request(b"CONNECT example.com:443 HTTP/1.1\r\n\r\n").unwrap();
    assert_eq!(r.method, "CONNECT");
    assert_eq!(r.uri, "example.com:443");
}

#[test]
fn invalid_utf8_is_a_utf8_error() {
    assert_eq!(
        read_http_request(&[0x43, 0x20, 0xff, 0x20, 0x41]),
        Err(RequestError::Utf8)
    );
    assert_eq!(read_http_request(&[0xc3]), Err(RequestError::Utf8));
}
