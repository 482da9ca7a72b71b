use vstd::prelude::*;
use vstd::string::StringExecFns;

verus! {

/// The character of a decimal digit.
pub open spec fn digit_char(d: nat) -> char {
    (d + 48) as char
}

/// The decimal numeral of `n`, without leading zeros.
pub open spec fn decimal(n: nat) -> Seq<char>
    decreases n,
{
    if n < 10 {
        seq![digit_char(n)]
    } else {
        decimal(n / 10) + seq![digit_char(n % 10)]
    }
}

/// `HTTP/1.1 <code> <reason>` followed by an empty line: no headers, no body.
pub open spec fn status_text(code: u16, reason: Seq<char>) -> Seq<char> {
    "HTTP/1.1 "@ + decimal(code as nat) + " "@ + reason + "\r\n\r\n"@
}

/// The three answers the proxy gives.
#[derive(Debug, Clone, Copy, PartialEq, Eq, Structural)]
pub enum Status {
    /// The tunnel is open.
    TunnelOpen,
    /// The destination is not allow-listed.
    Forbidden,
    /// The method is not `CONNECT`.
    MethodNotAllowed,
}

impl Status {
    pub open spec fn spec_code(self) -> u16 {
        match self {
            Status::TunnelOpen => 200,
            Status::Forbidden => 403,
            Status::MethodNotAllowed => 405,
        }
    }

    pub open spec fn spec_reason(self) -> Seq<char> {
        match self {
            Status::TunnelOpen => "OK"@,
            Status::Forbidden => "Forbidden"@,
            Status::MethodNotAllowed => "Method Not Allowed"@,
        }
    }

    /// The numeric status code.
    pub fn code(self) -> (r: u16)
        ensures
            r == self.spec_code(),
    {
        match self {
            Status::TunnelOpen => 200,
            Status::Forbidden => 403,
            Status::MethodNotAllowed => 405,
        }
    }

    /// The reason phrase.
    pub fn reason(self) -> (r: &'static str)
        ensures
            r@ == self.spec_reason(),
    {
        match self {
            Status::TunnelOpen => "OK",
            Status::Forbidden => "Forbidden",
            Status::MethodNotAllowed => "Method Not Allowed",
        }
    }

    /// The full status response written to the client.
    pub fn response(self) -> (r: String)
        ensures
            r@ == status_text(self.spec_code(), self.spec_reason()),
    {
        create_http_status(self.code(), self.reason())
    }
}

fn digit_str(d: u16) -> (r: &'static str)
    requires
        d < 10,
    ensures
        r@ == seq![digit_char(d as nat)],
{
    proof {
        reveal_strlit("0");
        reveal_strlit("1");
        reveal_strlit("2");
        reveal_strlit("3");
        reveal_strlit("4");
        reveal_strlit("5");
        reveal_strlit("6");
        reveal_strlit("7");
        reveal_strlit("8");
        reveal_strlit("9");
    }
    let r = match d {
        0 => "0",
        1 => "1",
        2 => "2",
        3 => "3",
        4 => "4",
        5 => "5",
        6 => "6",
        7 => "7",
        8 => "8",
        _ => "9",
    };
    assert(r@ =~= seq![digit_char(d as nat)]);
    r
}

fn append_decimal(out: &mut String, n: u16)
    ensures
        final(out)@ == old(out)@ + decimal(n as nat),
    decreases n,
{
    if n >= 10 {
        append_decimal(out, n / 10);
    }
    out.append(digit_str(n % 10));
    proof {
        if n >= 10 {
            assert(final(out)@ =~= old(out)@ + decimal(n as nat));
        } else {
            assert(final(out)@ =~= old(out)@ + decimal(n as nat));
        }
    }
}

/// Formats a status response: `HTTP/1.1 <code> <message>\r\n\r\n`.
pub fn create_http_status(status_code: u16, status_message: &str) -> (r: String)
    ensures
        r@ == status_text(status_code, status_message@),
{
    let mut out = String::from_str("HTTP/1.1 ");
    append_decimal(&mut out, status_code);
    out.append(" ");
    out.append(status_message);
    out.append("\r\n\r\n");
    assert(out@ =~= status_text(status_code, status_message@));
    out
}

} // verus!
