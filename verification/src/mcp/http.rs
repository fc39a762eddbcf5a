//! The framing of the network transport: a small part of HTTP/1.x, read and
//! written by hand. Each connection carries one request and one response.

use vstd::prelude::*;
use vstd::string::StringExecFns;
use crate::text::chars_of;
use crate::text::decimal;
use crate::text::end_of;
use crate::text::eq_ignoring_case;
use crate::text::is_number;
use crate::text::next_in;
use crate::text::next_of;
use crate::text::number_of;
use crate::text::parse_number;
use crate::text::push_decimal;
use crate::text::same_ignoring_case;
use crate::text::start_of;
use crate::text::str_eq;
use crate::text::string_of;
use crate::text::stripped_end;
use crate::text::stripped_start;
use crate::text::CharClass;

verus! {

/// The first two words of a request line: the method and the path.
#[derive(Debug)]
pub struct RequestLine {
    pub method: String,
    pub path: String,
}

/// Where the first word of `line` begins.
pub open spec fn first_word_start(line: Seq<char>) -> int {
    start_of(line, CharClass::Whitespace, 0)
}

/// Where the first word of `line` ends.
pub open spec fn first_word_end(line: Seq<char>) -> int {
    next_of(line, CharClass::Whitespace, first_word_start(line))
}

/// Where the second word of `line` begins.
pub open spec fn second_word_start(line: Seq<char>) -> int {
    start_of(line, CharClass::Whitespace, first_word_end(line))
}

/// Where the second word of `line` ends.
pub open spec fn second_word_end(line: Seq<char>) -> int {
    next_of(line, CharClass::Whitespace, second_word_start(line))
}

/// Whether `line` holds two words at least. Words are what white space
/// parts.
pub open spec fn has_two_words(line: Seq<char>) -> bool {
    second_word_start(line) < line.len()
}

/// The first word of `line`.
pub open spec fn first_word(line: Seq<char>) -> Seq<char> {
    line.subrange(first_word_start(line), first_word_end(line))
}

/// The second word of `line`.
pub open spec fn second_word(line: Seq<char>) -> Seq<char> {
    line.subrange(second_word_start(line), second_word_end(line))
}

impl RequestLine {
    /// Reads the method and the path from a request line. A line with fewer
    /// than two words holds none, and the connection is to be closed.
    pub fn parse(line: &str) -> (request: Option<RequestLine>)
        ensures
            match request {
                Some(r) => has_two_words(line@) && r.method@ == first_word(line@) && r.path@
                    == second_word(line@),
                None => !has_two_words(line@),
            },
    {
        let text = chars_of(line);
        let a = stripped_start(&text, CharClass::Whitespace, 0);
        let b = next_in(&text, CharClass::Whitespace, a);
        let c = stripped_start(&text, CharClass::Whitespace, b);
        if c >= text.len() {
            return None;
        }
        let d = next_in(&text, CharClass::Whitespace, c);
        Some(RequestLine { method: string_of(&text, a, b), path: string_of(&text, c, d) })
    }
}

/// Whether a line ends the headers: it holds white space only.
pub open spec fn is_blank(line: Seq<char>) -> bool {
    start_of(line, CharClass::Whitespace, 0) >= line.len()
}

/// Whether a line ends the headers.
pub fn ends_headers(line: &str) -> (r: bool)
    ensures
        r == is_blank(line@),
{
    let text = chars_of(line);
    stripped_start(&text, CharClass::Whitespace, 0) >= text.len()
}

/// Where the name of a header line ends: at its first colon.
pub open spec fn colon_of(line: Seq<char>) -> int {
    next_of(line, CharClass::Only(':'), 0)
}

/// The name of a header line: what stands before the first colon, without
/// the white space around it.
pub open spec fn header_name(line: Seq<char>) -> Seq<char> {
    let start = start_of(line, CharClass::Whitespace, 0);
    if start <= colon_of(line) {
        line.subrange(start, end_of(line, CharClass::Whitespace, start, colon_of(line)))
    } else {
        Seq::empty()
    }
}

/// The value of a header line: what stands after the first colon, without
/// the white space around it.
pub open spec fn header_value(line: Seq<char>) -> Seq<char> {
    let start = start_of(line, CharClass::Whitespace, colon_of(line) + 1);
    line.subrange(start, end_of(line, CharClass::Whitespace, start, line.len() as int))
}

/// The length that a header line declares for the body: the line must have
/// a colon, the name `Content-Length` in any case, and as value a decimal
/// number that fits in a `usize`.
pub open spec fn declared_length(line: Seq<char>) -> Option<nat> {
    if colon_of(line) < line.len() && same_ignoring_case(header_name(line), "content-length"@)
        && is_number(header_value(line)) && number_of(header_value(line)) <= usize::MAX {
        Some(number_of(header_value(line)))
    } else {
        None
    }
}

/// The length that a header line declares for the body.
pub fn content_length(line: &str) -> (length: Option<usize>)
    ensures
        match length {
            Some(n) => declared_length(line@) == Some(n as nat),
            None => declared_length(line@) is None,
        },
{
    let text = chars_of(line);
    let colon = next_in(&text, CharClass::Only(':'), 0);
    if colon >= text.len() {
        return None;
    }
    let start = stripped_start(&text, CharClass::Whitespace, 0);
    let name = chars_of("content-length");
    if start > colon {
        proof {
            reveal_strlit("content-length");
            assert(header_name(line@).len() == 0);
        }
        return None;
    }
    let end = stripped_end(&text, CharClass::Whitespace, start, colon);
    if !eq_ignoring_case(&text, start, end, &name) {
        return None;
    }
    let from = stripped_start(&text, CharClass::Whitespace, colon + 1);
    let to = stripped_end(&text, CharClass::Whitespace, from, text.len());
    parse_number(&text, from, to)
}

/// What is known of a request once its head is read.
#[derive(Debug)]
pub struct RequestHead {
    pub method: String,
    pub path: String,
    pub content_length: usize,
}

impl RequestHead {
    /// The head of a request with this request line, before any header is
    /// read. The body is taken to be empty until a header says otherwise.
    pub fn new(request: RequestLine) -> (head: RequestHead)
        ensures
            head.method == request.method,
            head.path == request.path,
            head.content_length == 0,
    {
        RequestHead { method: request.method, path: request.path, content_length: 0 }
    }

    /// Takes one header line into account: a line that declares the length
    /// of the body sets it, any other line changes nothing.
    pub fn header(&mut self, line: &str)
        ensures
            final(self).method == old(self).method,
            final(self).path == old(self).path,
            final(self).content_length == match declared_length(line@) {
                Some(n) => n,
                None => old(self).content_length as nat,
            },
    {
        match content_length(line) {
            Some(n) => {
                self.content_length = n;
            },
            None => {},
        }
    }

    /// The endpoint that the request is for.
    pub fn endpoint(&self) -> (endpoint: Endpoint)
        ensures
            endpoint == route(self.method@, self.path@),
    {
        Endpoint::of(self.method.as_str(), self.path.as_str())
    }

    /// How many bytes of body are to be read: the declared length for the
    /// protocol endpoint, nothing for any other.
    pub fn body_length(&self) -> (length: usize)
        ensures
            length == if route(self.method@, self.path@) == Endpoint::Mcp {
                self.content_length
            } else {
                0
            },
    {
        match self.endpoint() {
            Endpoint::Mcp => self.content_length,
            _ => 0,
        }
    }
}

/// The fixed endpoints of the server.
#[derive(Debug, Clone, Copy, PartialEq, Eq, Structural)]
pub enum Endpoint {
    /// `GET /status`
    Status,
    /// `POST /shutdown`
    Shutdown,
    /// `POST /mcp`
    Mcp,
    /// Anything else.
    NotFound,
}

/// The endpoint for a method and a path.
pub open spec fn route(method: Seq<char>, path: Seq<char>) -> Endpoint {
    if method == "GET"@ && path == "/status"@ {
        Endpoint::Status
    } else if method == "POST"@ && path == "/shutdown"@ {
        Endpoint::Shutdown
    } else if method == "POST"@ && path == "/mcp"@ {
        Endpoint::Mcp
    } else {
        Endpoint::NotFound
    }
}

impl Endpoint {
    /// The endpoint for a method and a path.
    pub fn of(method: &str, path: &str) -> (endpoint: Endpoint)
        ensures
            endpoint == route(method@, path@),
    {
        if str_eq(method, "GET") && str_eq(path, "/status") {
            Endpoint::Status
        } else if str_eq(method, "POST") && str_eq(path, "/shutdown") {
            Endpoint::Shutdown
        } else if str_eq(method, "POST") && str_eq(path, "/mcp") {
            Endpoint::Mcp
        } else {
            Endpoint::NotFound
        }
    }
}

/// A response of the network transport: a status and a body, which is a
/// JSON document or empty.
#[derive(Debug)]
pub struct HttpResponse {
    pub status: u16,
    pub reason: String,
    pub body: String,
}

/// The bytes of a response: the status line, the headers, an empty line and
/// the body. The declared length is the number of bytes of the body. A body
/// that is not empty is declared as JSON. The connection is closed after it.
pub open spec fn rendered(status: nat, reason: Seq<char>, body: Seq<char>) -> Seq<char> {
    let head = "HTTP/1.1 "@ + decimal(status) + " "@ + reason + "\r\n"@;
    if body.len() == 0 {
        head + "Content-Length: 0\r\nConnection: close\r\n\r\n"@
    } else {
        head + "Content-Type: application/json\r\nContent-Length: "@ + decimal(
            vstd::utf8::encode_utf8(body).len(),
        ) + "\r\nConnection: close\r\n\r\n"@ + body
    }
}

impl HttpResponse {
    /// The response `200 OK` with this body.
    pub fn ok(body: String) -> (response: HttpResponse)
        ensures
            response.status == 200,
            response.reason@ == "OK"@,
            response.body == body,
    {
        HttpResponse { status: 200, reason: "OK".to_string(), body }
    }

    /// The response `204 No Content`, which has no body.
    pub fn no_content() -> (response: HttpResponse)
        ensures
            response.status == 204,
            response.reason@ == "No Content"@,
            response.body@ == Seq::<char>::empty(),
    {
        HttpResponse { status: 204, reason: "No Content".to_string(), body: String::new() }
    }

    /// The response `404 Not Found`, which has no body.
    pub fn not_found() -> (response: HttpResponse)
        ensures
            response.status == 404,
            response.reason@ == "Not Found"@,
            response.body@ == Seq::<char>::empty(),
    {
        HttpResponse { status: 404, reason: "Not Found".to_string(), body: String::new() }
    }

    /// The response `500 Internal Server Error` with this body.
    pub fn internal_server_error(body: String) -> (response: HttpResponse)
        ensures
            response.status == 500,
            response.reason@ == "Internal Server Error"@,
            response.body == body,
    {
        HttpResponse { status: 500, reason: "Internal Server Error".to_string(), body }
    }

    /// The text to write to the connection.
    pub fn render(&self) -> (text: String)
        ensures
            text@ == rendered(self.status as nat, self.reason@, self.body@),
    {
        let mut text = "HTTP/1.1 ".to_string();
        push_decimal(&mut text, self.status as u64);
        text.append(" ");
        text.append(self.reason.as_str());
        text.append("\r\n");
        if self.body.as_str().is_empty() {
            text.append("Content-Length: 0\r\nConnection: close\r\n\r\n");
        } else {
            text.append("Content-Type: application/json\r\nContent-Length: ");
            push_decimal(&mut text, self.body.as_str().as_bytes().len() as u64);
            text.append("\r\nConnection: close\r\n\r\n");
            text.append(self.body.as_str());
        }
        text
    }
}

} // verus!
