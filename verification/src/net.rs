//! HTTP requests and responses, multipart bodies, caches and streaming
//! parsers: the parts of networking that are data and decisions.
//!
//! Sending a request, sleeping between retries, and reading sockets is done
//! by the platform glue, which hands the outcomes back to the functions here.

use crate::host::{is_json_text, parse_json_value};
use crate::assoc::{key_views, lemma_alist_dom, lemma_alist_lookup, StrKeyMap};
use crate::text::{
    bytes_eq, push_bytes, slice_range, spec_trim_start, string_from_utf8_lossy, strip_trailing,
    strip_trailing_len, trim_start, utf8_lossy,
};
use vstd::prelude::*;
use vstd::utf8::encode_utf8;

verus! {

/// An HTTP method.
#[derive(Debug, Clone, Copy, PartialEq, Eq, Hash, Structural)]
pub enum Method {
    /// `GET`.
    Get,
    /// `POST`.
    Post,
    /// `PUT`.
    Put,
    /// `PATCH`.
    Patch,
    /// `DELETE`.
    Delete,
}

/// An outgoing HTTP request.
#[derive(Debug, Clone)]
pub struct Request {
    /// The method.
    pub method: Method,
    /// The absolute URL.
    pub url: String,
    /// Header name/value pairs, in the order they are sent.
    pub headers: Vec<(String, String)>,
    /// The body, if any.
    pub body: Option<String>,
}

impl Request {
    /// A `GET` request for `url`, with no headers and no body.
    pub fn get(url: &str) -> (r: Request)
        ensures
            r.method == Method::Get,
            r.url@ == url@,
            r.headers@.len() == 0,
            r.body is None,
    {
        Request { method: Method::Get, url: url.to_owned(), headers: Vec::new(), body: None }
    }

    /// A `POST` request for `url` carrying `body`, with no headers.
    pub fn post(url: &str, body: &str) -> (r: Request)
        ensures
            r.method == Method::Post,
            r.url@ == url@,
            r.headers@.len() == 0,
            r.body matches Some(b) && b@ == body@,
    {
        Request {
            method: Method::Post,
            url: url.to_owned(),
            headers: Vec::new(),
            body: Some(body.to_owned()),
        }
    }

    /// The request with one more header, sent after the existing ones.
    pub fn header(self, name: &str, value: &str) -> (r: Request)
        ensures
            r.method == self.method,
            r.url == self.url,
            r.body == self.body,
            r.headers@.len() == self.headers@.len() + 1,
            r.headers@.drop_last() == self.headers@,
            r.headers@.last().0@ == name@,
            r.headers@.last().1@ == value@,
    {
        let mut headers = self.headers;
        headers.push((name.to_owned(), value.to_owned()));
        Request { method: self.method, url: self.url, headers, body: self.body }
    }
}

/// An HTTP response.
#[derive(Debug, Clone, PartialEq, Eq)]
pub struct Response {
    /// The status code.
    pub status: u16,
    /// The body as text (invalid UTF-8 replaced).
    pub body: String,
    /// The body as received.
    pub body_bytes: Vec<u8>,
}

impl Response {
    /// A `200` response with a text body.
    pub fn ok(body: &str) -> (r: Response)
        ensures
            r.status == 200,
            r.body@ == body@,
            r.body_bytes@ == encode_utf8(body@),
    {
        let mut body_bytes: Vec<u8> = Vec::new();
        push_bytes(&mut body_bytes, body.as_bytes());
        Response { status: 200, body: body.to_owned(), body_bytes }
    }

    /// Whether the status is a success (`200..300`).
    pub fn is_success(&self) -> (r: bool)
        ensures
            r == (200 <= self.status && self.status < 300),
    {
        200 <= self.status && self.status < 300
    }

    /// The body parsed as a JSON value; `Err` carries the parser's message.
    pub fn json_value(&self) -> (r: Result<serde_json::Value, String>)
        ensures
            r is Ok <==> is_json_text(self.body@),
    {
        parse_json_value(self.body.as_str())
    }
}

/// A response built from a status and the raw body bytes: the text form of
/// the body replaces invalid UTF-8.
pub fn response_from_body(status: u16, body_bytes: Vec<u8>) -> (r: Response)
    ensures
        r.status == status,
        r.body_bytes == body_bytes,
        r.body@ == utf8_lossy(body_bytes@),
{
    let body = string_from_utf8_lossy(body_bytes.as_slice());
    Response { status, body, body_bytes }
}

/// Whether a response may be cached: only `200` responses are.
pub fn is_cacheable(response: &Response) -> (r: bool)
    ensures
        r == (response.status == 200),
{
    response.status == 200
}

/// How a character stands inside a JSON string literal: `"` and `\\`
/// behind a backslash; backspace, form feed, line feed, carriage return and
/// tab as `\b`, `\f`, `\n`, `\r`, `\t`; every other control character
/// below `0x20` as `\u00` and two lower-case hex digits; anything else as
/// itself.
pub open spec fn json_escape(c: char) -> Seq<char> {
    if c == '"' {
        seq!['\\', '"']
    } else if c == '\\' {
        seq!['\\', '\\']
    } else if c == '\u{8}' {
        seq!['\\', 'b']
    } else if c == '\u{c}' {
        seq!['\\', 'f']
    } else if c == '\n' {
        seq!['\\', 'n']
    } else if c == '\r' {
        seq!['\\', 'r']
    } else if c == '\t' {
        seq!['\\', 't']
    } else if (c as u32) < 0x20 {
        seq!['\\', 'u', '0', '0', hex_char((c as u32) as nat / 16), hex_char((c as u32) as nat % 16)]
    } else {
        seq![c]
    }
}

/// The escaped characters of a string, in order.
pub open spec fn json_escaped(s: Seq<char>) -> Seq<char>
    decreases s.len(),
{
    if s.len() == 0 {
        Seq::empty()
    } else {
        json_escaped(s.drop_last()) + json_escape(s.last())
    }
}

/// The JSON string literal `serde_json` writes for a string: the string's
/// characters, escaped, in double quotes.
pub open spec fn json_string_literal(s: Seq<char>) -> Seq<char> {
    seq!['"'] + json_escaped(s) + seq!['"']
}

/// Quotes a string as a JSON string literal.
///
/// Wraps `serde_json::to_string` on a `&str`, which writes the string in
/// double quotes with the escapes of its escape table, as
/// [`json_string_literal`] states. Serializing a string writes into memory
/// and cannot fail, so the error arm is never taken.
#[verifier::external_body]
fn quote_json(s: &str) -> (r: String)
    ensures
        r@ == json_string_literal(s@),
{
    match serde_json::to_string(s) {
        Ok(quoted) => quoted,
        Err(_) => String::new(),
    }
}

/// The JSON body of a GraphQL request whose query is already quoted as a
/// JSON string literal.
pub open spec fn spec_graphql_body(quoted_query: Seq<char>, variables: Option<Seq<char>>) -> Seq<char> {
    match variables {
        Some(v) => "{\"query\":"@ + quoted_query + ",\"variables\":"@ + v + "}"@,
        None => "{\"query\":"@ + quoted_query + "}"@,
    }
}

/// The variables of a request, by view.
pub open spec fn variables_view(variables: Option<&str>) -> Option<Seq<char>> {
    match variables {
        Some(v) => Some(v@),
        None => None,
    }
}

/// The `POST` request for a GraphQL query given as a JSON string literal
/// (`quoted_query`): a JSON object body holding the query and, when given,
/// the variables JSON as is, with JSON content-type and accept headers.
pub fn graphql_request_from_quoted(endpoint: &str, quoted_query: &str, variables: Option<&str>) -> (r: Request)
    ensures
        r.method == Method::Post,
        r.url@ == endpoint@,
        r.headers@.len() == 2,
        r.headers@[0].0@ == "Content-Type"@,
        r.headers@[0].1@ == "application/json"@,
        r.headers@[1].0@ == "Accept"@,
        r.headers@[1].1@ == "application/json"@,
        r.body matches Some(b) && b@ == spec_graphql_body(quoted_query@, variables_view(variables)),
{
    let mut body = "{\"query\":".to_owned();
    body.append(quoted_query);
    match variables {
        Some(vars) => {
            body.append(",\"variables\":");
            body.append(vars);
            body.append("}");
        },
        None => {
            body.append("}");
        },
    }
    let mut headers: Vec<(String, String)> = Vec::new();
    headers.push(("Content-Type".to_owned(), "application/json".to_owned()));
    headers.push(("Accept".to_owned(), "application/json".to_owned()));
    Request { method: Method::Post, url: endpoint.to_owned(), headers, body: Some(body) }
}

/// The `POST` request for a GraphQL query: a JSON body holding the query as
/// a JSON string and, when given, the variables JSON as is, with JSON
/// content-type and accept headers.
pub fn graphql_request(endpoint: &str, query: &str, variables: Option<&str>) -> (r: Request)
    ensures
        r.method == Method::Post,
        r.url@ == endpoint@,
        r.headers@.len() == 2,
        r.headers@[0].0@ == "Content-Type"@,
        r.headers@[0].1@ == "application/json"@,
        r.headers@[1].0@ == "Accept"@,
        r.headers@[1].1@ == "application/json"@,
        r.body matches Some(b) && b@ == spec_graphql_body(json_string_literal(query@), variables_view(variables)),
{
    let quoted = quote_json(query);
    graphql_request_from_quoted(endpoint, quoted.as_str(), variables)
}

/// An incoming WebSocket message.
#[derive(Debug, Clone, PartialEq, Eq)]
pub enum WsMessage {
    /// A text frame.
    Text(String),
    /// A binary frame.
    Binary(Vec<u8>),
    /// The connection closed (or could not be opened).
    Close,
}

/// Per-request settings: timeout, extra headers, and automatic retries.
#[derive(Debug, Clone)]
pub struct RequestConfig {
    /// Request timeout in seconds.
    pub timeout_secs: u64,
    /// Extra headers sent with the request.
    pub headers: Vec<(String, String)>,
    /// How many times a failed request is retried.
    pub retry_count: u32,
    /// Delay before each retry, in milliseconds.
    pub retry_delay_ms: u64,
}

impl Default for RequestConfig {
    fn default() -> (r: Self)
        ensures
            r.timeout_secs == 30,
            r.headers@.len() == 0,
            r.retry_count == 0,
            r.retry_delay_ms == 1000,
    {
        RequestConfig { timeout_secs: 30, headers: Vec::new(), retry_count: 0, retry_delay_ms: 1000 }
    }
}

/// What the retry loop of a configured request does next.
#[derive(Debug, PartialEq, Eq)]
pub enum RetryStep {
    /// Wait `delay_ms` milliseconds (none before the first attempt), then
    /// make attempt number `attempt`.
    Attempt {
        /// Zero-based attempt number.
        attempt: u64,
        /// Delay before the attempt.
        delay_ms: u64,
    },
    /// Stop with this outcome.
    Done(Result<Response, String>),
}

/// The retry loop of a configured request: up to `retry_count + 1`
/// attempts, the first success wins, and when all fail the last error is
/// reported.
#[derive(Debug, Clone)]
pub struct RetryLoop {
    /// Attempts made so far.
    pub attempts_made: u64,
    /// Attempts allowed in all.
    pub max_attempts: u64,
    /// Delay before each retry, in milliseconds.
    pub delay_ms: u64,
}

impl RetryLoop {
    /// The loop for `config`, and its first step.
    pub fn start(config: &RequestConfig) -> (r: (RetryLoop, RetryStep))
        ensures
            r.0 == (RetryLoop {
                attempts_made: 0,
                max_attempts: (config.retry_count + 1) as u64,
                delay_ms: config.retry_delay_ms,
            }),
            r.1 == (RetryStep::Attempt { attempt: 0, delay_ms: 0 }),
    {
        (
            RetryLoop {
                attempts_made: 0,
                max_attempts: config.retry_count as u64 + 1,
                delay_ms: config.retry_delay_ms,
            },
            RetryStep::Attempt { attempt: 0, delay_ms: 0 },
        )
    }

    /// Takes the outcome of the attempt just made and returns the next step.
    pub fn on_outcome(&mut self, outcome: Result<Response, String>) -> (r: RetryStep)
        requires
            old(self).attempts_made < old(self).max_attempts,
        ensures
            final(self).attempts_made == old(self).attempts_made + 1,
            final(self).max_attempts == old(self).max_attempts,
            final(self).delay_ms == old(self).delay_ms,
            outcome is Ok ==> r == RetryStep::Done(outcome),
            outcome is Err && final(self).attempts_made < old(self).max_attempts ==> r == (
            RetryStep::Attempt { attempt: final(self).attempts_made, delay_ms: old(self).delay_ms }),
            outcome is Err && final(self).attempts_made == old(self).max_attempts ==> r
                == RetryStep::Done(outcome),
    {
        self.attempts_made = self.attempts_made + 1;
        match outcome {
            Ok(response) => RetryStep::Done(Ok(response)),
            Err(error) => {
                if self.attempts_made < self.max_attempts {
                    RetryStep::Attempt { attempt: self.attempts_made, delay_ms: self.delay_ms }
                } else {
                    RetryStep::Done(Err(error))
                }
            },
        }
    }
}

/// One part of a multipart form body.
#[derive(Clone, Debug, PartialEq)]
pub enum Part {
    /// A plain text field.
    Text {
        /// Field name.
        name: String,
        /// Field value.
        value: String,
    },
    /// A file field.
    File {
        /// Field name.
        name: String,
        /// File name reported to the server.
        filename: String,
        /// MIME type of the file.
        content_type: String,
        /// File contents.
        bytes: Vec<u8>,
    },
}

/// A `multipart/form-data` body under construction.
#[derive(Clone, Debug, PartialEq)]
pub struct MultipartForm {
    parts: Vec<Part>,
}

impl View for MultipartForm {
    type V = Seq<Part>;

    closed spec fn view(&self) -> Seq<Part> {
        self.parts@
    }
}

/// The bytes that introduce a part: the boundary delimiter line.
pub open spec fn delimiter_line(boundary: Seq<u8>) -> Seq<u8> {
    encode_utf8("--"@) + boundary + encode_utf8("\r\n"@)
}

/// The encoding of one part: its delimiter line, headers, blank line,
/// content and line break.
pub open spec fn spec_part_bytes(part: Part, boundary: Seq<u8>) -> Seq<u8> {
    delimiter_line(boundary) + match part {
        Part::Text { name, value } => encode_utf8("Content-Disposition: form-data; name=\""@)
            + encode_utf8(name@) + encode_utf8("\"\r\n\r\n"@) + encode_utf8(value@) + encode_utf8(
            "\r\n"@,
        ),
        Part::File { name, filename, content_type, bytes } => encode_utf8(
            "Content-Disposition: form-data; name=\""@,
        ) + encode_utf8(name@) + encode_utf8("\"; filename=\""@) + encode_utf8(filename@)
            + encode_utf8("\"\r\n"@) + encode_utf8("Content-Type: "@) + encode_utf8(content_type@)
            + encode_utf8("\r\n\r\n"@) + bytes@ + encode_utf8("\r\n"@),
    }
}

/// The encoding of the first `n` parts.
pub open spec fn spec_parts_bytes(parts: Seq<Part>, boundary: Seq<u8>, n: int) -> Seq<u8>
    decreases n,
{
    if n <= 0 {
        Seq::empty()
    } else {
        spec_parts_bytes(parts, boundary, n - 1) + spec_part_bytes(parts[n - 1], boundary)
    }
}

/// The whole body: every part, then the closing delimiter.
pub open spec fn spec_multipart_body(parts: Seq<Part>, boundary: Seq<u8>) -> Seq<u8> {
    spec_parts_bytes(parts, boundary, parts.len() as int) + encode_utf8("--"@) + boundary
        + encode_utf8("--\r\n"@)
}

/// A multipart body is framed by its boundary: each part opens with the
/// delimiter line, and the body closes with `--boundary--` and a line break.
pub proof fn lemma_multipart_framing(parts: Seq<Part>, boundary: Seq<u8>, i: int)
    requires
        0 <= i < parts.len(),
    ensures
        spec_part_bytes(parts[i], boundary).subrange(0, delimiter_line(boundary).len() as int)
            == delimiter_line(boundary),
        spec_multipart_body(parts, boundary) == spec_parts_bytes(parts, boundary, parts.len() as int)
            + (encode_utf8("--"@) + boundary + encode_utf8("--\r\n"@)),
{
    let d = delimiter_line(boundary);
    assert(spec_part_bytes(parts[i], boundary).subrange(0, d.len() as int) =~= d);
    assert(spec_multipart_body(parts, boundary) =~= spec_parts_bytes(parts, boundary, parts.len() as int)
        + (encode_utf8("--"@) + boundary + encode_utf8("--\r\n"@)));
}

/// The hexadecimal digit for `d < 16`, lower case.
pub open spec fn hex_char(d: nat) -> char {
    if d < 10 {
        ((48 + d) as u8) as char
    } else {
        ((87 + d) as u8) as char
    }
}

/// The last `k` hexadecimal digits of `n`, zero-padded, lower case.
pub open spec fn hex_digits(n: nat, k: nat) -> Seq<char>
    decreases k,
{
    if k == 0 {
        Seq::empty()
    } else {
        hex_digits(n / 16, (k - 1) as nat).push(hex_char(n % 16))
    }
}

fn hex_str(d: u64) -> (r: &'static str)
    requires
        d < 16,
    ensures
        r@ == seq![hex_char(d as nat)],
{
    proof {
        reveal_strlit("0");
        reveal_strlit("1");
        reveal_strlit("2");
        reveal_strlit("3");
        reveal_strlit("4");
        reveal_strlit("5");
        reveal_strlit("6");
        reveal_strlit("7");
        reveal_strlit("8");
        reveal_strlit("9");
        reveal_strlit("a");
        reveal_strlit("b");
        reveal_strlit("c");
        reveal_strlit("d");
        reveal_strlit("e");
        reveal_strlit("f");
    }
    if d == 0 { "0" } else if d == 1 { "1" } else if d == 2 { "2" } else if d == 3 { "3" }
    else if d == 4 { "4" } else if d == 5 { "5" } else if d == 6 { "6" } else if d == 7 { "7" }
    else if d == 8 { "8" } else if d == 9 { "9" } else if d == 10 { "a" } else if d == 11 { "b" }
    else if d == 12 { "c" } else if d == 13 { "d" } else if d == 14 { "e" } else { "f" }
}

pub(crate) fn push_hex_digits(out: &mut String, n: u64, k: u32)
    ensures
        final(out)@ == old(out)@ + hex_digits(n as nat, k as nat),
    decreases k,
{
    if k > 0 {
        push_hex_digits(out, n / 16, k - 1);
        out.append(hex_str(n % 16));
    }
}

/// The boundary for token `n`: a fixed prefix and `n` as 16 hex digits.
pub open spec fn spec_boundary(n: u64) -> Seq<char> {
    "----raxonFormBoundary"@ + hex_digits(n as nat, 16)
}

/// The boundary for token `n`: `----raxonFormBoundary` and `n` as 16
/// zero-padded lower-case hex digits.
pub fn boundary_for(n: u64) -> (r: String)
    ensures
        r@ == spec_boundary(n),
{
    let mut s = "----raxonFormBoundary".to_owned();
    push_hex_digits(&mut s, n, 16);
    s
}

/// `16^k`: how many values `k` hexadecimal digits can spell.
pub open spec fn pow16(k: nat) -> nat
    decreases k,
{
    if k == 0 {
        1
    } else {
        16 * pow16((k - 1) as nat)
    }
}

/// Distinct digit values have distinct hexadecimal characters.
proof fn lemma_hex_char_injective(a: nat, b: nat)
    requires
        a < 16,
        b < 16,
        hex_char(a) == hex_char(b),
    ensures
        a == b,
{
    assert(hex_char(a) as u32 == if a < 10 { 48 + a } else { 87 + a });
    assert(hex_char(b) as u32 == if b < 10 { 48 + b } else { 87 + b });
}

/// Values below `16^k` are told apart by their last `k` hexadecimal digits.
proof fn lemma_hex_digits_injective(n: nat, m: nat, k: nat)
    requires
        n < pow16(k),
        m < pow16(k),
        hex_digits(n, k) == hex_digits(m, k),
    ensures
        n == m,
    decreases k,
{
    if k > 0 {
        let p = pow16((k - 1) as nat);
        let dn = hex_digits(n / 16, (k - 1) as nat);
        let dm = hex_digits(m / 16, (k - 1) as nat);
        assert(hex_digits(n, k).last() == hex_char(n % 16));
        assert(hex_digits(m, k).last() == hex_char(m % 16));
        lemma_hex_char_injective(n % 16, m % 16);
        assert(hex_digits(n, k).drop_last() == dn);
        assert(hex_digits(m, k).drop_last() == dm);
        assert(n / 16 < p) by (nonlinear_arith)
            requires
                n < 16 * p,
        ;
        assert(m / 16 < p) by (nonlinear_arith)
            requires
                m < 16 * p,
        ;
        lemma_hex_digits_injective(n / 16, m / 16, (k - 1) as nat);
        assert(n == 16 * (n / 16) + n % 16) by (nonlinear_arith);
        assert(m == 16 * (m / 16) + m % 16) by (nonlinear_arith);
    }
}

/// Boundaries minted from different counts differ: a counter that is
/// never reset hands out a fresh boundary every time (until it wraps after
/// 2^64 boundaries).
pub proof fn lemma_boundaries_distinct(n: u64, m: u64)
    requires
        n != m,
    ensures
        spec_boundary(n) != spec_boundary(m),
{
    assert(pow16(16) == 0x1_0000_0000_0000_0000) by {
        reveal_with_fuel(pow16, 17);
    }
    if spec_boundary(n) == spec_boundary(m) {
        let prefix = "----raxonFormBoundary"@;
        assert(spec_boundary(n).subrange(prefix.len() as int, spec_boundary(n).len() as int)
            == hex_digits(n as nat, 16));
        assert(spec_boundary(m).subrange(prefix.len() as int, spec_boundary(m).len() as int)
            == hex_digits(m as nat, 16));
        lemma_hex_digits_injective(n as nat, m as nat, 16);
    }
}

/// Two builds in a row from one counter use different boundaries: the
/// count the counter moves to is never the count it was at.
pub proof fn lemma_successive_builds_differ(n: u64)
    ensures
        spec_boundary(n) != spec_boundary(if n == u64::MAX { 0 } else { (n + 1) as u64 }),
{
    lemma_boundaries_distinct(n, if n == u64::MAX { 0 } else { (n + 1) as u64 });
}

/// The count of multipart boundaries minted so far; a process keeps one and
/// mints every boundary from it, so that no two of its bodies share one.
#[derive(Debug, Clone, Copy, PartialEq, Eq, Structural)]
pub struct BoundaryCounter {
    /// The count the next boundary is minted from.
    pub next: u64,
}

impl BoundaryCounter {
    /// No boundary minted yet.
    pub fn new() -> (r: BoundaryCounter)
        ensures
            r.next == 0,
    {
        BoundaryCounter { next: 0 }
    }
}

/// Mints the next multipart boundary: `----raxonFormBoundary` and the count
/// as 16 hexadecimal digits. The count advances, wrapping after 2^64
/// boundaries.
pub fn next_boundary(counter: &mut BoundaryCounter) -> (r: String)
    ensures
        r@ == spec_boundary(old(counter).next),
        final(counter).next == (if old(counter).next == u64::MAX {
            0
        } else {
            (old(counter).next + 1) as u64
        }),
{
    let n = counter.next;
    counter.next = n.wrapping_add(1);
    boundary_for(n)
}

fn push_text_part(body: &mut Vec<u8>, name: &String, value: &String)
    ensures
        final(body)@ == old(body)@ + (encode_utf8("Content-Disposition: form-data; name=\""@)
            + encode_utf8(name@) + encode_utf8("\"\r\n\r\n"@) + encode_utf8(value@) + encode_utf8(
            "\r\n"@,
        )),
{
    let ghost start = body@;
    push_bytes(body, "Content-Disposition: form-data; name=\"".as_bytes());
    push_bytes(body, name.as_str().as_bytes());
    push_bytes(body, "\"\r\n\r\n".as_bytes());
    push_bytes(body, value.as_str().as_bytes());
    push_bytes(body, "\r\n".as_bytes());
    assert(body@ =~= start + (encode_utf8("Content-Disposition: form-data; name=\""@)
        + encode_utf8(name@) + encode_utf8("\"\r\n\r\n"@) + encode_utf8(value@) + encode_utf8(
        "\r\n"@,
    )));
}

fn push_file_part(body: &mut Vec<u8>, name: &String, filename: &String, content_type: &String, bytes: &Vec<u8>)
    ensures
        final(body)@ == old(body)@ + (encode_utf8("Content-Disposition: form-data; name=\""@)
            + encode_utf8(name@) + encode_utf8("\"; filename=\""@) + encode_utf8(filename@)
            + encode_utf8("\"\r\n"@) + encode_utf8("Content-Type: "@) + encode_utf8(content_type@)
            + encode_utf8("\r\n\r\n"@) + bytes@ + encode_utf8("\r\n"@)),
{
    let ghost start = body@;
    push_bytes(body, "Content-Disposition: form-data; name=\"".as_bytes());
    push_bytes(body, name.as_str().as_bytes());
    push_bytes(body, "\"; filename=\"".as_bytes());
    push_bytes(body, filename.as_str().as_bytes());
    push_bytes(body, "\"\r\n".as_bytes());
    push_bytes(body, "Content-Type: ".as_bytes());
    push_bytes(body, content_type.as_str().as_bytes());
    push_bytes(body, "\r\n\r\n".as_bytes());
    push_bytes(body, bytes.as_slice());
    push_bytes(body, "\r\n".as_bytes());
    assert(body@ =~= start + (encode_utf8("Content-Disposition: form-data; name=\""@)
        + encode_utf8(name@) + encode_utf8("\"; filename=\""@) + encode_utf8(filename@)
        + encode_utf8("\"\r\n"@) + encode_utf8("Content-Type: "@) + encode_utf8(content_type@)
        + encode_utf8("\r\n\r\n"@) + bytes@ + encode_utf8("\r\n"@)));
}

/// Appends the encoding of one part.
fn push_part(body: &mut Vec<u8>, part: &Part, b: &[u8])
    ensures
        final(body)@ == old(body)@ + spec_part_bytes(*part, b@),
{
    let ghost start = body@;
    push_bytes(body, "--".as_bytes());
    push_bytes(body, b);
    push_bytes(body, "\r\n".as_bytes());
    let ghost mid = body@;
    assert(mid =~= start + delimiter_line(b@));
    match part {
        Part::Text { name, value } => push_text_part(body, name, value),
        Part::File { name, filename, content_type, bytes } => push_file_part(body, name, filename, content_type, bytes),
    }
    assert(body@ =~= start + spec_part_bytes(*part, b@));
}

impl MultipartForm {
    /// An empty form.
    pub fn new() -> (r: MultipartForm)
        ensures
            r@ == Seq::<Part>::empty(),
    {
        MultipartForm { parts: Vec::new() }
    }

    /// The form with one more text field.
    pub fn field(self, name: &str, value: &str) -> (r: MultipartForm)
        ensures
            r@.len() == self@.len() + 1,
            r@.drop_last() == self@,
            r@.last() matches Part::Text { name: n, value: v } && n@ == name@ && v@ == value@,
    {
        let mut parts = self.parts;
        parts.push(Part::Text { name: name.to_owned(), value: value.to_owned() });
        MultipartForm { parts }
    }

    /// The form with one more file field.
    pub fn file(self, name: &str, filename: &str, content_type: &str, bytes: Vec<u8>) -> (r: MultipartForm)
        ensures
            r@.len() == self@.len() + 1,
            r@.drop_last() == self@,
            r@.last() matches Part::File { name: n, filename: f, content_type: c, bytes: b } && n@
                == name@ && f@ == filename@ && c@ == content_type@ && b == bytes,
    {
        let mut parts = self.parts;
        parts.push(
            Part::File {
                name: name.to_owned(),
                filename: filename.to_owned(),
                content_type: content_type.to_owned(),
                bytes,
            },
        );
        MultipartForm { parts }
    }

    /// Number of parts.
    pub fn len(&self) -> (r: usize)
        ensures
            r == self@.len(),
    {
        self.parts.len()
    }

    /// Whether the form has no part.
    pub fn is_empty(&self) -> (r: bool)
        ensures
            r == (self@.len() == 0),
    {
        self.parts.len() == 0
    }

    /// The content type and the body of the form under `boundary`.
    pub fn build_with_boundary(&self, boundary: &str) -> (r: (String, Vec<u8>))
        ensures
            r.0@ == "multipart/form-data; boundary="@ + boundary@,
            r.1@ == spec_multipart_body(self@, encode_utf8(boundary@)),
    {
        let b = boundary.as_bytes();
        let mut body: Vec<u8> = Vec::new();
        let mut i: usize = 0;
        while i < self.parts.len()
            invariant
                i <= self@.len(),
                b@ == encode_utf8(boundary@),
                body@ == spec_parts_bytes(self@, b@, i as int),
            decreases self@.len() - i,
        {
            push_part(&mut body, &self.parts[i], b);
            proof {
                assert(body@ =~= spec_parts_bytes(self@, b@, i as int) + spec_part_bytes(self@[i as int], b@));
            }
            i = i + 1;
        }
        push_bytes(&mut body, "--".as_bytes());
        push_bytes(&mut body, b);
        push_bytes(&mut body, "--\r\n".as_bytes());
        let mut content_type = "multipart/form-data; boundary=".to_owned();
        content_type.append(boundary);
        (content_type, body)
    }

    /// The content type and the body of the form under the next boundary of
    /// `counter`, which advances: a process that mints every boundary from
    /// one counter never gives two bodies the same boundary (see
    /// [`lemma_boundaries_distinct`]).
    pub fn build(&self, counter: &mut BoundaryCounter) -> (r: (String, Vec<u8>))
        ensures
            r.0@ == "multipart/form-data; boundary="@ + spec_boundary(old(counter).next),
            r.1@ == spec_multipart_body(self@, encode_utf8(spec_boundary(old(counter).next))),
            final(counter).next == (if old(counter).next == u64::MAX {
                0
            } else {
                (old(counter).next + 1) as u64
            }),
    {
        let boundary = next_boundary(counter);
        self.build_with_boundary(boundary.as_str())
    }
}

impl Default for MultipartForm {
    fn default() -> (r: Self)
        ensures
            r@ == Seq::<Part>::empty(),
    {
        MultipartForm::new()
    }
}

/// Cursor-based page loading state: the items loaded so far, the last page
/// fetched, and whether a load is running or more pages remain.
#[derive(Debug, Clone)]
pub struct Paginated<T> {
    /// Items loaded so far, in page order.
    pub items: Vec<T>,
    /// The last page fetched (0 before any).
    pub page: u32,
    /// Whether a load is running.
    pub loading: bool,
    /// Whether another page may exist.
    pub has_more: bool,
}

impl<T> Paginated<T> {
    /// Fetches the next page with `fetch` and appends it; an empty page
    /// marks the end. Does nothing while a load runs or after the end.
    pub fn load_next<F: Fn(u32) -> Vec<T>>(&mut self, fetch: F)
        requires
            !old(self).loading && old(self).has_more ==> old(self).page < u32::MAX && call_requires(
                fetch,
                ((old(self).page + 1) as u32,),
            ),
        ensures
            old(self).loading || !old(self).has_more ==> *final(self) == *old(self),
            !old(self).loading && old(self).has_more ==> exists|new_items: Vec<T>|
                {
                    &&& call_ensures(fetch, ((old(self).page + 1) as u32,), new_items)
                    &&& !final(self).loading
                    &&& new_items@.len() == 0 ==> {
                        &&& !final(self).has_more
                        &&& final(self).items == old(self).items
                        &&& final(self).page == old(self).page
                    }
                    &&& new_items@.len() > 0 ==> {
                        &&& final(self).has_more
                        &&& final(self).items@ == old(self).items@ + new_items@
                        &&& final(self).page == old(self).page + 1
                    }
                },
    {
        if self.loading || !self.has_more {
            return;
        }
        self.loading = true;
        let next_page = self.page + 1;
        let mut new_items = fetch(next_page);
        let ghost fetched = new_items;
        if new_items.len() == 0 {
            self.has_more = false;
        } else {
            self.items.append(&mut new_items);
            self.page = next_page;
        }
        self.loading = false;
        assert(call_ensures(fetch, ((old(self).page + 1) as u32,), fetched));
    }
}

/// Page loading state that starts with `initial_items`, before the first page.
pub fn use_paginated<T>(initial_items: Vec<T>) -> (r: Paginated<T>)
    ensures
        r.items == initial_items,
        r.page == 0,
        !r.loading,
        r.has_more,
{
    Paginated { items: initial_items, page: 0, loading: false, has_more: true }
}

/// A cached query: the resource fetching it and when the fetch started.
#[derive(Debug, Clone, Copy, PartialEq, Eq)]
pub struct QueryRecord<R> {
    /// Handle of the resource that fetches the URL.
    pub resource: R,
    /// When the fetch started, in seconds on a monotonic clock.
    pub fetched_at: u64,
}

/// Deduplicates fetches by URL: one resource per URL until it is
/// invalidated or ages out.
#[derive(Debug)]
pub struct QueryCache<R> {
    records: StrKeyMap<QueryRecord<R>>,
}

impl<R> View for QueryCache<R> {
    type V = Map<Seq<char>, QueryRecord<R>>;

    closed spec fn view(&self) -> Map<Seq<char>, QueryRecord<R>> {
        self.records@
    }
}

/// Seconds elapsed from `then` to `now`, zero if `now` is earlier.
pub open spec fn elapsed_secs(then: u64, now: u64) -> int {
    if now >= then {
        now - then
    } else {
        0
    }
}

/// Whether a cached URL counts as stale at `now`: absent, or fetched more
/// than `stale_after_secs` seconds ago.
pub open spec fn spec_is_stale<R>(cache: Map<Seq<char>, QueryRecord<R>>, url: Seq<char>, stale_after_secs: u64, now: u64) -> bool {
    !cache.contains_key(url) || elapsed_secs(cache[url].fetched_at, now) > stale_after_secs
}

/// The cache once every entry older than `max_age_secs` at `now` is dropped.
pub open spec fn spec_gc<R>(cache: Map<Seq<char>, QueryRecord<R>>, max_age_secs: u64, now: u64) -> Map<Seq<char>, QueryRecord<R>> {
    cache.remove_keys(Set::new(|k: Seq<char>| cache.contains_key(k) && elapsed_secs(cache[k].fetched_at, now) > max_age_secs))
}

impl<R: Copy> QueryCache<R> {
    /// An empty cache.
    pub fn new() -> (r: QueryCache<R>)
        ensures
            r@ == Map::<Seq<char>, QueryRecord<R>>::empty(),
    {
        QueryCache { records: StrKeyMap::new() }
    }
}

/// A query answered from the cache, without fetching: the cached resource,
/// and the cache unchanged.
pub open spec fn answered_from_cache<R>(
    before: Map<Seq<char>, QueryRecord<R>>,
    after: Map<Seq<char>, QueryRecord<R>>,
    url: Seq<char>,
    r: R,
) -> bool {
    &&& before.contains_key(url)
    &&& r == before[url].resource
    &&& after == before
}

/// A query answered by one fetch: `url` was not cached, and the fetched
/// resource is recorded as fetched at `now`.
pub open spec fn answered_by_fetch<R>(
    before: Map<Seq<char>, QueryRecord<R>>,
    after: Map<Seq<char>, QueryRecord<R>>,
    url: Seq<char>,
    now: u64,
    r: R,
) -> bool {
    &&& !before.contains_key(url)
    &&& after == before.insert(url, QueryRecord { resource: r, fetched_at: now })
}

/// The resource for `url`: the cached one, or a new one from `fetch`,
/// recorded as fetched at `now`. `fetch` is called, once, exactly when
/// `url` is not cached.
pub fn use_query<R: Copy, F: Fn(&str) -> R>(cache: &mut QueryCache<R>, url: &str, now: u64, fetch: F) -> (r: R)
    requires
        call_requires(fetch, (url,)),
    ensures
        old(cache)@.contains_key(url@) ==> answered_from_cache(old(cache)@, final(cache)@, url@, r),
        !old(cache)@.contains_key(url@) ==> call_ensures(fetch, (url,), r) && answered_by_fetch(
            old(cache)@,
            final(cache)@,
            url@,
            now,
            r,
        ),
{
    match cache.records.get(url) {
        Some(record) => record.resource,
        None => {
            let resource = fetch(url);
            cache.records.insert(url.to_owned(), QueryRecord { resource, fetched_at: now });
            resource
        },
    }
}

/// Drops the cached resource for `url`, so the next query fetches anew.
pub fn invalidate_query<R>(cache: &mut QueryCache<R>, url: &str)
    ensures
        final(cache)@ == old(cache)@.remove(url@),
{
    cache.records.remove(url);
}

/// Whether the cached resource for `url` is stale at `now`.
fn is_stale<R: Copy>(cache: &QueryCache<R>, url: &str, stale_after_secs: u64, now: u64) -> (r: bool)
    ensures
        r == spec_is_stale(cache@, url@, stale_after_secs, now),
{
    match cache.records.get(url) {
        Some(record) => now.saturating_sub(record.fetched_at) > stale_after_secs,
        None => true,
    }
}

/// Whether [`use_query_stale`] drops the cached entry of `url` before
/// querying: always for `u64::MAX`, never for `0`, and otherwise when the
/// entry is missing or older than `stale_after_secs`.
pub open spec fn refetch_due<R>(cache: Map<Seq<char>, QueryRecord<R>>, url: Seq<char>, stale_after_secs: u64, now: u64) -> bool {
    stale_after_secs == u64::MAX || (stale_after_secs != 0 && spec_is_stale(cache, url, stale_after_secs, now))
}

/// Like [`use_query`], but first drops a cached resource fetched more than
/// `stale_after_secs` seconds ago. `0` means never revalidate (always use
/// the cache); `u64::MAX` means always refetch.
pub fn use_query_stale<R: Copy, F: Fn(&str) -> R>(
    cache: &mut QueryCache<R>,
    url: &str,
    stale_after_secs: u64,
    now: u64,
    fetch: F,
) -> (r: R)
    requires
        call_requires(fetch, (url,)),
    ensures
        ({
            let kept = if refetch_due(old(cache)@, url@, stale_after_secs, now) {
                old(cache)@.remove(url@)
            } else {
                old(cache)@
            };
            &&& kept.contains_key(url@) ==> r == kept[url@].resource && final(cache)@ == kept
            &&& !kept.contains_key(url@) ==> call_ensures(fetch, (url,), r) && final(cache)@ == kept.insert(
                url@,
                QueryRecord { resource: r, fetched_at: now },
            )
        }),
{
    if stale_after_secs == u64::MAX || (stale_after_secs != 0 && is_stale(cache, url, stale_after_secs, now)) {
        invalidate_query(cache, url);
    }
    use_query(cache, url, now, fetch)
}

/// After garbage collection exactly the entries within the age limit are
/// left, each unchanged.
pub proof fn lemma_gc_keeps_exactly_fresh<R>(m: Map<Seq<char>, QueryRecord<R>>, max_age_secs: u64, now: u64, k: Seq<char>)
    ensures
        spec_gc(m, max_age_secs, now).contains_key(k) <==> (m.contains_key(k) && elapsed_secs(
            m[k].fetched_at,
            now,
        ) <= max_age_secs),
        spec_gc(m, max_age_secs, now).contains_key(k) ==> spec_gc(m, max_age_secs, now)[k] == m[k],
{
}

/// Two successive queries of one URL: the second is answered from the
/// cache, without fetching, with the very resource the first gave, and
/// leaves the cache as the first left it. So a URL is fetched at most once
/// until it is invalidated.
pub proof fn lemma_repeat_query_reuses_resource<R>(
    m0: Map<Seq<char>, QueryRecord<R>>,
    m1: Map<Seq<char>, QueryRecord<R>>,
    m2: Map<Seq<char>, QueryRecord<R>>,
    url: Seq<char>,
    now1: u64,
    now2: u64,
    r1: R,
    r2: R,
)
    requires
        answered_from_cache(m0, m1, url, r1) || answered_by_fetch(m0, m1, url, now1, r1),
        answered_from_cache(m1, m2, url, r2) || answered_by_fetch(m1, m2, url, now2, r2),
    ensures
        answered_from_cache(m1, m2, url, r2),
        r2 == r1,
        m2 == m1,
{
}

/// Querying a URL that is cached returns its resource again; querying one
/// that is not caches the new resource, so the next query returns it.
pub proof fn lemma_query_deduplicates<R>(m: Map<Seq<char>, QueryRecord<R>>, url: Seq<char>, resource: R, now: u64)
    ensures
        m.insert(url, QueryRecord { resource, fetched_at: now })[url].resource == resource,
        m.insert(url, QueryRecord { resource, fetched_at: now }).contains_key(url),
{
}

/// Whether some string of `urls` has the view `k`.
pub open spec fn url_listed(urls: Seq<String>, k: Seq<char>) -> bool {
    exists|j: int| 0 <= j < urls.len() && #[trigger] urls[j]@ == k
}

/// Whether one of the first `n` records has key `k` and is older than
/// `max_age_secs` at `now`.
pub open spec fn expired_among<R>(
    pairs: Seq<(Seq<char>, QueryRecord<R>)>,
    k: Seq<char>,
    n: int,
    max_age_secs: u64,
    now: u64,
) -> bool {
    exists|j: int|
        0 <= j < n && #[trigger] pairs[j].0 == k && elapsed_secs(pairs[j].1.fetched_at, now) > max_age_secs
}

/// The URLs of the records older than `max_age_secs` at `now`.
fn expired_urls<R: Copy>(cache: &QueryCache<R>, max_age_secs: u64, now: u64) -> (r: Vec<String>)
    ensures
        forall|k: Seq<char>|
            #[trigger] url_listed(r@, k) <==> (cache@.contains_key(k) && elapsed_secs(
                cache@[k].fetched_at,
                now,
            ) > max_age_secs),
{
    let entries = cache.records.entries();
    let ghost pairs = key_views(entries@);
    let mut out: Vec<String> = Vec::new();
    let mut i: usize = 0;
    while i < entries.len()
        invariant
            i <= entries@.len(),
            pairs == key_views(entries@),
            forall|k: Seq<char>|
                #[trigger] url_listed(out@, k) <==> expired_among(pairs, k, i as int, max_age_secs, now),
        decreases entries@.len() - i,
    {
        let e = &entries[i];
        let ghost before = out@;
        if now.saturating_sub(e.1.fetched_at) > max_age_secs {
            out.push(e.0.clone());
            assert forall|k: Seq<char>|
                #[trigger] url_listed(out@, k) <==> expired_among(pairs, k, i + 1, max_age_secs, now) by {
                if url_listed(out@, k) {
                    let j = choose|j: int| 0 <= j < out@.len() && #[trigger] out@[j]@ == k;
                    if j < before.len() {
                        assert(before[j]@ == k);
                        assert(url_listed(before, k));
                    } else {
                        assert(pairs[i as int].0 == k);
                    }
                }
                if expired_among(pairs, k, i + 1, max_age_secs, now) {
                    let j = choose|j: int|
                        0 <= j < i + 1 && #[trigger] pairs[j].0 == k && elapsed_secs(pairs[j].1.fetched_at, now)
                            > max_age_secs;
                    if j < i {
                        assert(expired_among(pairs, k, i as int, max_age_secs, now));
                        assert(url_listed(before, k));
                        let m = choose|m: int| 0 <= m < before.len() && #[trigger] before[m]@ == k;
                        assert(out@[m]@ == k);
                    } else {
                        assert(out@[before.len() as int]@ == k);
                    }
                }
            }
        } else {
            assert forall|k: Seq<char>|
                #[trigger] url_listed(out@, k) <==> expired_among(pairs, k, i + 1, max_age_secs, now) by {
                if expired_among(pairs, k, i + 1, max_age_secs, now) {
                    let j = choose|j: int|
                        0 <= j < i + 1 && #[trigger] pairs[j].0 == k && elapsed_secs(pairs[j].1.fetched_at, now)
                            > max_age_secs;
                    assert(j != i);
                    assert(expired_among(pairs, k, i as int, max_age_secs, now));
                }
                if url_listed(out@, k) {
                    assert(expired_among(pairs, k, i as int, max_age_secs, now));
                }
            }
        }
        i = i + 1;
    }
    proof {
        assert forall|k: Seq<char>|
            #[trigger] url_listed(out@, k) <==> (cache@.contains_key(k) && elapsed_secs(cache@[k].fetched_at, now)
                > max_age_secs) by {
            lemma_alist_dom(pairs, k);
            if expired_among(pairs, k, pairs.len() as int, max_age_secs, now) {
                let j = choose|j: int|
                    0 <= j < pairs.len() && #[trigger] pairs[j].0 == k && elapsed_secs(pairs[j].1.fetched_at, now)
                        > max_age_secs;
                lemma_alist_lookup(pairs, j);
            }
            if cache@.contains_key(k) && elapsed_secs(cache@[k].fetched_at, now) > max_age_secs {
                let j = choose|j: int| 0 <= j < pairs.len() && pairs[j].0 == k;
                lemma_alist_lookup(pairs, j);
                assert(expired_among(pairs, k, pairs.len() as int, max_age_secs, now));
            }
        }
    }
    out
}

/// Drops every cached resource fetched more than `max_age_secs` seconds
/// before `now`.
pub fn gc_query_cache<R: Copy>(cache: &mut QueryCache<R>, max_age_secs: u64, now: u64)
    ensures
        final(cache)@ == spec_gc(old(cache)@, max_age_secs, now),
{
    let expired = expired_urls(cache, max_age_secs, now);
    let ghost start = cache@;
    let mut i: usize = 0;
    while i < expired.len()
        invariant
            i <= expired@.len(),
            cache@ == start.remove_keys(Set::new(|k: Seq<char>| url_listed(expired@.take(i as int), k))),
        decreases expired@.len() - i,
    {
        invalidate_query(cache, expired[i].as_str());
        proof {
            let prev = expired@.take(i as int);
            let next = expired@.take(i + 1);
            assert forall|k: Seq<char>| url_listed(next, k) <==> (url_listed(prev, k) || k == expired@[i as int]@) by {
                if url_listed(next, k) {
                    let j = choose|j: int| 0 <= j < next.len() && #[trigger] next[j]@ == k;
                    if j < i {
                        assert(prev[j]@ == k);
                    }
                }
                if url_listed(prev, k) {
                    let j = choose|j: int| 0 <= j < prev.len() && #[trigger] prev[j]@ == k;
                    assert(next[j]@ == k);
                }
                if k == expired@[i as int]@ {
                    assert(next[i as int]@ == k);
                }
            }
            assert(cache@ =~= start.remove_keys(Set::new(|k: Seq<char>| url_listed(next, k))));
        }
        i = i + 1;
    }
    assert(expired@.take(i as int) == expired@);
    assert(cache@ =~= spec_gc(start, max_age_secs, now));
}

/// In-memory image bytes, keyed by URL.
#[derive(Debug)]
pub struct ImageCache {
    images: StrKeyMap<Vec<u8>>,
}

impl View for ImageCache {
    type V = Map<Seq<char>, Seq<u8>>;

    closed spec fn view(&self) -> Map<Seq<char>, Seq<u8>> {
        self.images@.map_values(|v: Vec<u8>| v@)
    }
}

impl ImageCache {
    /// An empty cache.
    pub fn new() -> (r: ImageCache)
        ensures
            r@ == Map::<Seq<char>, Seq<u8>>::empty(),
    {
        let r = ImageCache { images: StrKeyMap::new() };
        assert(r@ =~= Map::<Seq<char>, Seq<u8>>::empty());
        r
    }
}

/// Stores the bytes of an image under its URL.
pub fn cache_image(cache: &mut ImageCache, url: &str, data: Vec<u8>)
    ensures
        final(cache)@ == old(cache)@.insert(url@, data@),
{
    cache.images.insert(url.to_owned(), data);
    assert(cache@ =~= old(cache)@.insert(url@, data@));
}

/// A copy of the bytes cached for `url`, if any.
pub fn get_cached_image(cache: &ImageCache, url: &str) -> (r: Option<Vec<u8>>)
    ensures
        r matches Some(v) ==> cache@.contains_key(url@) && v@ == cache@[url@],
        r is None <==> !cache@.contains_key(url@),
{
    match cache.images.get(url) {
        Some(bytes) => {
            let mut copy: Vec<u8> = Vec::new();
            push_bytes(&mut copy, bytes.as_slice());
            assert(copy@ =~= bytes@);
            Some(copy)
        },
        None => None,
    }
}

/// Forgets every cached image.
pub fn clear_image_cache(cache: &mut ImageCache)
    ensures
        final(cache)@ == Map::<Seq<char>, Seq<u8>>::empty(),
{
    cache.images.clear();
    assert(cache@ =~= Map::<Seq<char>, Seq<u8>>::empty());
}

/// One server-sent event.
#[derive(Debug, Clone, PartialEq, Eq)]
pub struct SseEvent {
    /// The event type (`message` unless an `event:` field set it).
    pub event: String,
    /// The data lines, joined with `\n`.
    pub data: String,
    /// The last `id:` field of the event, if any.
    pub id: Option<String>,
}

/// The buffered fields of the server-sent event being read.
#[derive(Debug, Clone)]
pub struct SseParser {
    event_type: Vec<u8>,
    data: Vec<u8>,
    id: Option<Vec<u8>>,
}

/// The state of an event stream reader: event type, data, and id so far.
pub struct SseState {
    /// The event type.
    pub event_type: Seq<u8>,
    /// The data lines, joined with `\n`.
    pub data: Seq<u8>,
    /// The id, if one was given.
    pub id: Option<Seq<u8>>,
}

impl View for SseParser {
    type V = SseState;

    closed spec fn view(&self) -> SseState {
        SseState {
            event_type: self.event_type@,
            data: self.data@,
            id: match self.id {
                Some(v) => Some(v@),
                None => None,
            },
        }
    }
}

/// The bytes of the literal `message`.
pub open spec fn message_bytes() -> Seq<u8> {
    encode_utf8("message"@)
}

/// The reader state between events.
pub open spec fn sse_initial() -> SseState {
    SseState { event_type: message_bytes(), data: Seq::empty(), id: None }
}

/// A line without its trailing line break (`\n` runs, then `\r` runs).
pub open spec fn sse_line_content(line: Seq<u8>) -> Seq<u8> {
    strip_trailing(strip_trailing(line, 10u8), 13u8)
}

/// Whether `s` starts with `prefix`.
pub open spec fn has_prefix(s: Seq<u8>, prefix: Seq<u8>) -> bool {
    prefix.len() <= s.len() && s.subrange(0, prefix.len() as int) == prefix
}

/// The reader state after one line, and the event the line dispatches.
pub open spec fn sse_step(st: SseState, line: Seq<u8>) -> (SseState, Option<SseState>) {
    let l = sse_line_content(line);
    let data_prefix = encode_utf8("data:"@);
    let event_prefix = encode_utf8("event:"@);
    let id_prefix = encode_utf8("id:"@);
    if l.len() == 0 {
        (sse_initial(), if st.data.len() > 0 {
            Some(SseState { data: strip_trailing(st.data, 10u8), ..st })
        } else {
            None
        })
    } else if has_prefix(l, data_prefix) {
        let rest = spec_trim_start(l.subrange(data_prefix.len() as int, l.len() as int));
        (SseState {
            data: if st.data.len() > 0 { st.data.push(10u8) + rest } else { st.data + rest },
            ..st
        }, None)
    } else if has_prefix(l, event_prefix) {
        (SseState {
            event_type: spec_trim_start(l.subrange(event_prefix.len() as int, l.len() as int)),
            ..st
        }, None)
    } else if has_prefix(l, id_prefix) {
        (SseState {
            id: Some(spec_trim_start(l.subrange(id_prefix.len() as int, l.len() as int))),
            ..st
        }, None)
    } else {
        (st, None)
    }
}

/// Whether the event `e` carries the fields of `st`.
pub open spec fn sse_event_of(e: SseEvent, st: SseState) -> bool {
    &&& e.event@ == utf8_lossy(st.event_type)
    &&& e.data@ == utf8_lossy(st.data)
    &&& match st.id {
        Some(i) => e.id matches Some(x) && x@ == utf8_lossy(i),
        None => e.id is None,
    }
}

/// A blank line always ends the event being read: the reader returns to its
/// initial state, whatever it held.
pub proof fn lemma_blank_line_resets(st: SseState, line: Seq<u8>)
    requires
        sse_line_content(line).len() == 0,
    ensures
        sse_step(st, line).0 == sse_initial(),
{
}

/// An event is dispatched only by a blank line, and only when data was read.
pub proof fn lemma_dispatch_needs_data(st: SseState, line: Seq<u8>)
    ensures
        sse_step(st, line).1 is Some ==> sse_line_content(line).len() == 0 && st.data.len() > 0,
{
}

fn starts_with_bytes(s: &[u8], prefix: &[u8]) -> (r: bool)
    ensures
        r == has_prefix(s@, prefix@),
{
    if prefix.len() > s.len() {
        return false;
    }
    let head = slice_range(s, 0, prefix.len());
    bytes_eq(head, prefix)
}

fn copy_of(s: &[u8]) -> (r: Vec<u8>)
    ensures
        r@ == s@,
{
    let mut v: Vec<u8> = Vec::new();
    push_bytes(&mut v, s);
    assert(v@ =~= s@);
    v
}

impl SseParser {
    /// A reader between events.
    pub fn new() -> (r: SseParser)
        ensures
            r@ == sse_initial(),
    {
        SseParser { event_type: copy_of("message".as_bytes()), data: Vec::new(), id: None }
    }

    /// Reads one line of the stream (with or without its line break) and
    /// returns the event an empty line completes, if it has data.
    pub fn feed_line(&mut self, line: &str) -> (r: Option<SseEvent>)
        ensures
            final(self)@ == sse_step(old(self)@, encode_utf8(line@)).0,
            match sse_step(old(self)@, encode_utf8(line@)).1 {
                Some(st) => r matches Some(e) && sse_event_of(e, st),
                None => r is None,
            },
    {
        let raw = line.as_bytes();
        let n1 = strip_trailing_len(raw, 10u8);
        let l1 = slice_range(raw, 0, n1);
        let n2 = strip_trailing_len(l1, 13u8);
        let l = slice_range(l1, 0, n2);
        assert(l@ == sse_line_content(raw@));
        if l.len() == 0 {
            let out = if self.data.len() > 0 {
                let k = strip_trailing_len(self.data.as_slice(), 10u8);
                let data = slice_range(self.data.as_slice(), 0, k);
                let id = match &self.id {
                    Some(i) => Some(string_from_utf8_lossy(i.as_slice())),
                    None => None,
                };
                Some(SseEvent {
                    event: string_from_utf8_lossy(self.event_type.as_slice()),
                    data: string_from_utf8_lossy(data),
                    id,
                })
            } else {
                None
            };
            self.event_type = copy_of("message".as_bytes());
            self.data = Vec::new();
            self.id = None;
            return out;
        }
        let data_prefix = "data:".as_bytes();
        let event_prefix = "event:".as_bytes();
        let id_prefix = "id:".as_bytes();
        if starts_with_bytes(l, data_prefix) {
            let rest = trim_start(slice_range(l, data_prefix.len(), l.len()));
            if self.data.len() > 0 {
                self.data.push(10u8);
            }
            push_bytes(&mut self.data, rest);
        } else if starts_with_bytes(l, event_prefix) {
            let rest = trim_start(slice_range(l, event_prefix.len(), l.len()));
            self.event_type = copy_of(rest);
        } else if starts_with_bytes(l, id_prefix) {
            let rest = trim_start(slice_range(l, id_prefix.len(), l.len()));
            self.id = Some(copy_of(rest));
        }
        None
    }
}

} // verus!
