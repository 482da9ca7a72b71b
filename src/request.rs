use vstd::prelude::*;
use vstd::string::{StrSliceExecFns, StringExecFns};
use vstd::utf8::{decode_utf8, valid_utf8};

verus! {

/// The two tokens of a request line that the proxy acts on.
#[derive(Debug, PartialEq, Eq)]
pub struct HttpRequest {
    pub method: String,
    pub uri: String,
}

/// Why the first bytes from a client do not make a request line.
#[derive(Debug, Clone, Copy, PartialEq, Eq, Structural)]
pub enum RequestError {
    /// The bytes are not well-formed UTF-8.
    Utf8,
    /// Fewer than two space-separated tokens.
    Malformed,
}

/// Index of the first space in `s` at or after `from`, or `s.len()` when there is none.
pub open spec fn space_from(s: Seq<char>, from: int) -> int
    decreases s.len() - from,
{
    if from < 0 || from >= s.len() {
        s.len() as int
    } else if s[from] == ' ' {
        from
    } else {
        space_from(s, from + 1)
    }
}

/// The first two tokens of `s` split at each space, when there are two.
pub open spec fn request_line_of(s: Seq<char>) -> Option<(Seq<char>, Seq<char>)> {
    let a = space_from(s, 0);
    if a >= s.len() {
        None
    } else {
        Some((s.subrange(0, a), s.subrange(a + 1, space_from(s, a + 1))))
    }
}

proof fn lemma_space_from_bounds(s: Seq<char>, from: int)
    requires
        0 <= from <= s.len(),
    ensures
        from <= space_from(s, from) <= s.len(),
        space_from(s, from) < s.len() ==> s[space_from(s, from)] == ' ',
        forall|k: int| from <= k < space_from(s, from) ==> s[k] != ' ',
    decreases s.len() - from,
{
    if from < s.len() && s[from] != ' ' {
        lemma_space_from_bounds(s, from + 1);
    }
}

/// Finds the first space in `chars` at or after `from`.
fn find_space(chars: &Vec<char>, from: usize) -> (r: usize)
    requires
        from <= chars.len(),
    ensures
        r as int == space_from(chars@, from as int),
{
    let mut i = from;
    while i < chars.len() && chars[i] != ' '
        invariant
            from <= i <= chars.len(),
            space_from(chars@, i as int) == space_from(chars@, from as int),
        decreases chars.len() - i,
    {
        i = i + 1;
    }
    i
}

/// Splits a request line at each space and keeps the first two tokens as the
/// method and the target; everything after them is ignored.
pub fn parse_http_request(req: &str) -> (r: Result<HttpRequest, RequestError>)
    ensures
        match request_line_of(req@) {
            Some((m, t)) => r matches Ok(h) && h.method@ == m && h.uri@ == t,
            None => r == Err::<HttpRequest, RequestError>(RequestError::Malformed),
        },
{
    let mut chars: Vec<char> = Vec::new();
    for c in it: req.chars()
        invariant
            chars@ == it.seq().take(it.index() as int),
    {
        chars.push(c);
    }
    assert(chars@ == req@);
    let a = find_space(&chars, 0);
    if a >= chars.len() {
        return Err(RequestError::Malformed);
    }
    let b = find_space(&chars, a + 1);
    proof {
        lemma_space_from_bounds(chars@, a as int + 1);
    }
    let method = req.substring_char(0, a).to_owned();
    let uri = req.substring_char(a + 1, b).to_owned();
    Ok(HttpRequest { method, uri })
}

/// Relies on `std::str::from_utf8`: it accepts exactly the well-formed UTF-8
/// byte strings and reads them as the characters they encode.
#[verifier::external_body]
fn utf8_text(bytes: &[u8]) -> (r: Option<&str>)
    ensures
        match r {
            Some(s) => valid_utf8(bytes@) && s@ == decode_utf8(bytes@),
            None => !valid_utf8(bytes@),
        },
{
    std::str::from_utf8(bytes).ok()
}

/// The request line that the bytes `b` read from a client carry, if any.
pub open spec fn request_of_bytes(b: Seq<u8>) -> Result<(Seq<char>, Seq<char>), RequestError> {
    if !valid_utf8(b) {
        Err(RequestError::Utf8)
    } else {
        match request_line_of(decode_utf8(b)) {
            Some(line) => Ok(line),
            None => Err(RequestError::Malformed),
        }
    }
}

/// Reads the bytes of a client's first read as UTF-8 text and parses its request line.
pub fn read_http_request(bytes: &[u8]) -> (r: Result<HttpRequest, RequestError>)
    ensures
        match request_of_bytes(bytes@) {
            Ok((m, t)) => r matches Ok(h) && h.method@ == m && h.uri@ == t,
            Err(e) => r == Err::<HttpRequest, RequestError>(e),
        },
{
    match utf8_text(bytes) {
        Some(text) => parse_http_request(text),
        None => Err(RequestError::Utf8),
    }
}

/// Whether the request asks for a tunnel.
pub fn is_http_connect(req: &HttpRequest) -> (r: bool)
    ensures
        r == (req.method@ == "CONNECT"@),
{
    let connect = String::from_str("CONNECT");
    req.method == connect
}

} // verus!
