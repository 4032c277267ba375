//! Responses: the five statuses, and the bytes that go on the wire.

use vstd::prelude::*;
use vstd::utf8::*;

verus! {

/// The statuses that the server answers with. It produces no other.
#[derive(Clone, Copy, Debug, PartialEq, Eq, Structural)]
pub enum Status {
    Success,
    BadRequest,
    NotFound,
    MethodNotAllowed,
    InternalServerError,
}

impl Status {
    /// The numeric status code.
    pub open spec fn code(self) -> nat {
        match self {
            Status::Success => 200,
            Status::BadRequest => 400,
            Status::NotFound => 404,
            Status::MethodNotAllowed => 405,
            Status::InternalServerError => 500,
        }
    }

    /// The code and reason phrase as they appear in the status line.
    pub open spec fn line(self) -> Seq<char> {
        match self {
            Status::Success => "200 OK"@,
            Status::BadRequest => "400 Bad Request"@,
            Status::NotFound => "404 Not Found"@,
            Status::MethodNotAllowed => "405 Method Not Allowed"@,
            Status::InternalServerError => "500 Internal Server Error"@,
        }
    }

    /// The numeric status code.
    pub fn number(&self) -> (r: u16)
        ensures
            r == self.code(),
    {
        match self {
            Status::Success => 200,
            Status::BadRequest => 400,
            Status::NotFound => 404,
            Status::MethodNotAllowed => 405,
            Status::InternalServerError => 500,
        }
    }

    /// The code and reason phrase as they appear in the status line.
    pub fn as_str(&self) -> (r: &'static str)
        ensures
            r@ == self.line(),
    {
        match self {
            Status::Success => "200 OK",
            Status::BadRequest => "400 Bad Request",
            Status::NotFound => "404 Not Found",
            Status::MethodNotAllowed => "405 Method Not Allowed",
            Status::InternalServerError => "500 Internal Server Error",
        }
    }
}

/// The character for a decimal digit.
pub open spec fn digit_char(d: int) -> char {
    if d == 0 {
        '0'
    } else if d == 1 {
        '1'
    } else if d == 2 {
        '2'
    } else if d == 3 {
        '3'
    } else if d == 4 {
        '4'
    } else if d == 5 {
        '5'
    } else if d == 6 {
        '6'
    } else if d == 7 {
        '7'
    } else if d == 8 {
        '8'
    } else {
        '9'
    }
}

/// The decimal numeral of `n`, without sign or leading zeros.
pub open spec fn decimal(n: nat) -> Seq<char>
    decreases n,
{
    if n < 10 {
        seq![digit_char(n as int)]
    } else {
        decimal(n / 10).push(digit_char((n % 10) as int))
    }
}

fn digit_str(d: usize) -> (r: &'static str)
    requires
        d < 10,
    ensures
        r@ == seq![digit_char(d as int)],
{
    proof {
        reveal_strlit("0");
        reveal_strlit("1");
        reveal_strlit("2");
        reveal_strlit("3");
        reveal_strlit("4");
        reveal_strlit("5");
        reveal_strlit("6");
        reveal_strlit("7");
        reveal_strlit("8");
        reveal_strlit("9");
    }
    let r = if d == 0 {
        "0"
    } else if d == 1 {
        "1"
    } else if d == 2 {
        "2"
    } else if d == 3 {
        "3"
    } else if d == 4 {
        "4"
    } else if d == 5 {
        "5"
    } else if d == 6 {
        "6"
    } else if d == 7 {
        "7"
    } else if d == 8 {
        "8"
    } else {
        "9"
    };
    r
}

/// Writes `n` as a decimal numeral.
pub fn format_decimal(n: usize) -> (r: String)
    ensures
        r@ == decimal(n as nat),
    decreases n,
{
    if n < 10 {
        digit_str(n).to_owned()
    } else {
        let mut s = format_decimal(n / 10);
        s.append(digit_str(n % 10));
        s
    }
}

/// The header block of a response: status line, content type, content
/// length and `Connection: close`, each ended by CR LF, then an empty line.
pub open spec fn header_text(status: Seq<char>, content_type: Seq<char>, content_length: nat) -> Seq<
    char,
> {
    "HTTP/1.1 "@ + status + "\r\nContent-Type: "@ + content_type + "\r\nContent-Length: "@
        + decimal(content_length) + "\r\nConnection: close\r\n\r\n"@
}

/// The number of bytes in an optional body; an absent body counts as none.
pub open spec fn body_len(body: Option<Seq<u8>>) -> nat {
    match body {
        Some(b) => b.len(),
        None => 0,
    }
}

/// A response as it is written to the connection: the header block in
/// UTF-8, followed by the body when there is one.
pub open spec fn response_bytes(
    status: Seq<char>,
    content_type: Seq<char>,
    body: Option<Seq<u8>>,
) -> Seq<u8> {
    let head = encode_utf8(header_text(status, content_type, body_len(body)));
    match body {
        Some(b) => head + b,
        None => head,
    }
}

/// Builds the header block for a response.
pub fn response_header(status: &str, content_type: &str, content_length: usize) -> (r: String)
    ensures
        r@ == header_text(status@, content_type@, content_length as nat),
{
    let mut head = "HTTP/1.1 ".to_owned();
    head.append(status);
    head.append("\r\nContent-Type: ");
    head.append(content_type);
    head.append("\r\nContent-Length: ");
    let length = format_decimal(content_length);
    head.append(length.as_str());
    head.append("\r\nConnection: close\r\n\r\n");
    head
}

} // verus!
