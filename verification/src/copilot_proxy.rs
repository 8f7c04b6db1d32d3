//! The local proxy for GitHub Copilot: reading a request, telling where it goes, and writing the
//! answer.
use vstd::prelude::*;

use crate::fault::Fault;
use crate::json::{Json, JsonV};
use crate::views::Views;

verus! {

/// What a proxy serves.
#[derive(Debug, Clone, Copy, PartialEq, Eq, Structural)]
pub enum ProxyMode {
    OpenaiResponses,
    OpenaiChat,
    AnthropicMessages,
}

// ---------------------------------------------------------------- where a request goes

/// Where a request goes.
#[derive(Debug)]
pub enum ProxyRoute {
    /// To a path of the provider.
    Forward {
        upstream_path: &'static str,
        anthropic: bool,
    },
    /// It is answered with the list of models.
    Models,
    /// It is answered with this error and the status 404.
    Unsupported(Json),
}

pub enum ProxyRouteV {
    Forward {
        upstream_path: Seq<char>,
        anthropic: bool,
    },
    Models,
    Unsupported(JsonV),
}

impl View for ProxyRoute {
    type V = ProxyRouteV;

    open spec fn view(&self) -> ProxyRouteV {
        match self {
            ProxyRoute::Forward { upstream_path, anthropic } => ProxyRouteV::Forward {
                upstream_path: upstream_path@,
                anthropic: *anthropic,
            },
            ProxyRoute::Models => ProxyRouteV::Models,
            ProxyRoute::Unsupported(body) => ProxyRouteV::Unsupported(body@),
        }
    }
}

/// The error that a path is not served.
pub open spec fn unsupported(path: Seq<char>) -> JsonV {
    JsonV::obj().with(
        "error"@,
        JsonV::obj().with("message"@, JsonV::Text("Unsupported proxy path "@ + path)),
    )
}

/// Where a request for a path goes: every path is served with and without its version part.
pub open spec fn route_of(mode: ProxyMode, path: Seq<char>) -> ProxyRouteV {
    match mode {
        ProxyMode::OpenaiResponses => if path == "/responses"@ || path == "/v1/responses"@ {
            ProxyRouteV::Forward { upstream_path: "/responses"@, anthropic: false }
        } else if path == "/models"@ || path == "/v1/models"@ {
            ProxyRouteV::Models
        } else {
            ProxyRouteV::Unsupported(unsupported(path))
        },
        ProxyMode::OpenaiChat => if path == "/chat/completions"@ || path
            == "/v1/chat/completions"@ {
            ProxyRouteV::Forward { upstream_path: "/chat/completions"@, anthropic: false }
        } else {
            ProxyRouteV::Unsupported(unsupported(path))
        },
        ProxyMode::AnthropicMessages => if path == "/messages"@ || path == "/v1/messages"@ {
            ProxyRouteV::Forward { upstream_path: "/v1/messages"@, anthropic: true }
        } else {
            ProxyRouteV::Unsupported(unsupported(path))
        },
    }
}

/// Tells where a request for a path goes.
pub fn route_request(mode: ProxyMode, path: &str) -> (r: ProxyRoute)
    ensures
        r@ == route_of(mode, path@),
{
    match mode {
        ProxyMode::OpenaiResponses => {
            if *path == *"/responses" || *path == *"/v1/responses" {
                return ProxyRoute::Forward { upstream_path: "/responses", anthropic: false };
            }
            if *path == *"/models" || *path == *"/v1/models" {
                return ProxyRoute::Models;
            }
        },
        ProxyMode::OpenaiChat => {
            if *path == *"/chat/completions" || *path == *"/v1/chat/completions" {
                return ProxyRoute::Forward {
                    upstream_path: "/chat/completions",
                    anthropic: false,
                };
            }
        },
        ProxyMode::AnthropicMessages => {
            if *path == *"/messages" || *path == *"/v1/messages" {
                return ProxyRoute::Forward { upstream_path: "/v1/messages", anthropic: true };
            }
        },
    }
    let message = crate::text::cat("Unsupported proxy path ", path);
    ProxyRoute::Unsupported(
        Json::object().with(
            "error",
            Json::object().with("message", Json::text(message.as_str())),
        ),
    )
}

/// The error with which a request is answered that could not be served.
pub open spec fn proxy_error(message: Seq<char>) -> JsonV {
    JsonV::obj().with(
        "error"@,
        JsonV::obj().with("message"@, JsonV::Text(message)).with(
            "type"@,
            JsonV::Text("swcli_github_copilot_proxy_error"@),
        ),
    )
}

pub fn error_body(message: &str) -> (r: Json)
    ensures
        r@ == proxy_error(message@),
{
    Json::object().with(
        "error",
        Json::object().with("message", Json::text(message)).with(
            "type",
            Json::text("swcli_github_copilot_proxy_error"),
        ),
    )
}

/// What `serde_json::from_slice` reads from bytes, if they are JSON.
pub uninterp spec fn json_read_slice(b: Seq<u8>) -> Option<JsonV>;

/// `serde_json::from_slice` into a value tree: a function of the bytes alone.
#[verifier::external_body]
fn read_slice(b: &Vec<u8>) -> (r: Option<serde_json::Value>)
    ensures
        match r {
            Some(v) => json_read_slice(b@) == Some(crate::json::value_content(v)),
            None => json_read_slice(b@) is None,
        },
{
    serde_json::from_slice::<serde_json::Value>(b).ok()
}

/// The body of a request: none where it is empty, and otherwise JSON.
pub open spec fn body_of(b: Seq<u8>) -> Result<Option<JsonV>, Seq<char>> {
    if b.len() == 0 {
        Ok(None)
    } else {
        match json_read_slice(b) {
            Some(v) => Ok(Some(v)),
            None => Err("Invalid proxy request JSON"@),
        }
    }
}

/// Reads the body of a request.
pub fn request_body(b: &Vec<u8>) -> (r: Result<Option<Json>, Fault>)
    ensures
        match r {
            Ok(o) => body_of(b@) == Ok::<_, Seq<char>>(o.views()),
            Err(e) => body_of(b@) == Err::<Option<JsonV>, _>(e@),
        },
{
    if b.len() == 0 {
        return Ok(None);
    }
    match read_slice(b) {
        Some(v) => Ok(Some(crate::json::json_of(&v))),
        None => Err(Fault::new("Invalid proxy request JSON")),
    }
}

// ---------------------------------------------------------------- reading a request

/// The blank line that ends the headers stands at a place.
pub open spec fn blank_at(b: Seq<u8>, i: int) -> bool {
    0 <= i && i + 4 <= b.len() && b[i] == 13 && b[i + 1] == 10 && b[i + 2] == 13 && b[i + 3] == 10
}

/// The first place from the `i`-th on where the headers end.
pub open spec fn end_from(b: Seq<u8>, i: int) -> Option<int>
    decreases b.len() - i,
{
    if i < 0 || i + 4 > b.len() {
        None
    } else if blank_at(b, i) {
        Some(i)
    } else {
        end_from(b, i + 1)
    }
}

/// Where the headers end.
pub fn find_header_end(buffer: &Vec<u8>) -> (r: Option<usize>)
    ensures
        match r {
            Some(i) => end_from(buffer@, 0) == Some(i as int) && blank_at(buffer@, i as int),
            None => end_from(buffer@, 0) is None,
        },
{
    let n: usize = buffer.len();
    let mut i: usize = 0;
    while n - i >= 4
        invariant
            n == buffer@.len(),
            i <= n,
            end_from(buffer@, 0) == end_from(buffer@, i as int),
        decreases n - i,
    {
        if buffer[i] == 13 && buffer[i + 1] == 10 && buffer[i + 2] == 13 && buffer[i + 3] == 10 {
            return Some(i);
        }
        i = i + 1;
    }
    None
}

/// The text that `String::from_utf8_lossy` makes of bytes.
pub uninterp spec fn lossy_text(b: Seq<u8>) -> Seq<char>;

/// `String::from_utf8_lossy`: a function of the bytes alone; valid UTF-8 is decoded as it is.
#[verifier::external_body]
fn text_of_bytes(b: &Vec<u8>) -> (r: String)
    ensures
        r@ == lossy_text(b@),
        vstd::utf8::valid_utf8(b@) ==> r@ == vstd::utf8::decode_utf8(b@),
{
    String::from_utf8_lossy(b).into_owned()
}

/// The first place from the `i`-th on with a blank, or the end.
pub open spec fn blank_from(s: Seq<char>, i: int) -> int
    decreases s.len() - i,
{
    if i < 0 || i >= s.len() || crate::text::is_white(s[i]) {
        i
    } else {
        blank_from(s, i + 1)
    }
}

/// The `n`-th word of a line.
pub open spec fn word(s: Seq<char>, n: nat) -> Option<Seq<char>>
    decreases n,
{
    let t = crate::text::trim_start(s);
    let e = blank_from(t, 0);
    if t.len() == 0 {
        None
    } else if n == 0 {
        Some(t.subrange(0, e))
    } else {
        word(t.subrange(e, t.len() as int), (n - 1) as nat)
    }
}

/// The path of a request: the second word of its first line.
pub open spec fn path_of(headers: Seq<char>) -> Seq<char> {
    let lines = crate::text::lines_of(headers);
    if lines.len() == 0 {
        "/"@
    } else {
        match word(lines[0], 1) {
            Some(path) => path,
            None => "/"@,
        }
    }
}

fn skip_white(v: &Vec<char>, from: usize) -> (r: usize)
    requires
        from <= v@.len(),
    ensures
        from <= r <= v@.len(),
        crate::text::trim_start(v@.subrange(from as int, v@.len() as int)) == v@.subrange(
            r as int,
            v@.len() as int,
        ),
{
    let n: usize = v.len();
    let mut i: usize = from;
    while i < n && crate::text::white(v[i])
        invariant
            n == v@.len(),
            from <= i <= n,
            crate::text::trim_start(v@.subrange(from as int, n as int))
                == crate::text::trim_start(v@.subrange(i as int, n as int)),
        ensures
            from <= i <= n,
            crate::text::trim_start(v@.subrange(from as int, n as int)) == v@.subrange(
                i as int,
                n as int,
            ),
        decreases n - i,
    {
        let ghost s = v@.subrange(i as int, n as int);
        assert(s.subrange(1, s.len() as int) =~= v@.subrange(i + 1, n as int));
        i = i + 1;
    }
    i
}

fn skip_word(v: &Vec<char>, from: usize) -> (r: usize)
    requires
        from <= v@.len(),
    ensures
        from <= r <= v@.len(),
        blank_from(v@.subrange(from as int, v@.len() as int), 0) == r - from,
{
    let n: usize = v.len();
    let mut i: usize = from;
    let ghost s = v@.subrange(from as int, v@.len() as int);
    while i < n && !crate::text::white(v[i])
        invariant
            n == v@.len(),
            from <= i <= n,
            s == v@.subrange(from as int, n as int),
            blank_from(s, 0) == blank_from(s, i - from),
        ensures
            from <= i <= n,
            blank_from(s, 0) == i - from,
        decreases n - i,
    {
        assert(s[i - from] == v@[i as int]);
        i = i + 1;
    }
    i
}

/// The path of a request.
pub fn request_path(headers: &str) -> (r: String)
    ensures
        r@ == path_of(headers@),
{
    let lines = crate::text::lines(headers);
    if lines.len() == 0 {
        return "/".to_string();
    }
    assert(lines.views()[0] == lines@[0]@);
    let v = crate::text::chars_of(lines[0].as_str());
    let n: usize = v.len();
    let ghost s = lines@[0]@;
    assert(v@.subrange(0, n as int) =~= s);
    let a = skip_white(&v, 0);
    let b = skip_word(&v, a);
    let c = skip_white(&v, b);
    let d = skip_word(&v, c);
    proof {
        reveal_with_fuel(word, 2);
        let t = v@.subrange(a as int, n as int);
        assert(t == crate::text::trim_start(s));
        assert(t.subrange(b - a, t.len() as int) =~= v@.subrange(b as int, n as int));
        let u = v@.subrange(c as int, n as int);
        assert(u.subrange(0, d - c) =~= v@.subrange(c as int, d as int));
        if a == n {
            assert(v@.subrange(b as int, n as int).len() == 0);
        }
    }
    if c == n {
        return "/".to_string();
    }
    crate::text::text_of(&v, c, d)
}

/// The value of the first line from the `i`-th on that says how long the body is.
pub open spec fn length_from(lines: Seq<Seq<char>>, i: int) -> Option<Seq<char>>
    decreases lines.len() - i,
{
    if i < 0 || i >= lines.len() {
        None
    } else {
        match crate::text::cut(lines[i], ":"@) {
            Some((name, value)) => if crate::text::lower_of(name) == crate::text::lower_of(
                "content-length"@,
            ) {
                Some(crate::text::trim_of(value))
            } else {
                length_from(lines, i + 1)
            },
            None => length_from(lines, i + 1),
        }
    }
}

/// How long the body is: zero where no line says it.
pub open spec fn length_of(headers: Seq<char>) -> Result<usize, Seq<char>> {
    match length_from(crate::text::lines_of(headers), 0) {
        None => Ok(0),
        Some(value) => match crate::text::parsed(value) {
            Some(n) => if n <= usize::MAX {
                Ok(n as usize)
            } else {
                Err("Invalid content-length"@)
            },
            None => Err("Invalid content-length"@),
        },
    }
}

/// How long the body of a request is.
pub fn content_length(headers: &str) -> (r: Result<usize, Fault>)
    ensures
        match r {
            Ok(n) => length_of(headers@) == Ok::<_, Seq<char>>(n),
            Err(e) => length_of(headers@) == Err::<usize, _>(e@),
        },
{
    proof {
        reveal_strlit(":");
    }
    let lines = crate::text::lines(headers);
    let n: usize = lines.len();
    let mut i: usize = 0;
    while i < n
        invariant
            n == lines@.len(),
            i <= n,
            lines.views() == crate::text::lines_of(headers@),
            ":"@.len() > 0,
            length_from(lines.views(), 0) == length_from(lines.views(), i as int),
        decreases n - i,
    {
        assert(lines.views()[i as int] == lines@[i as int]@);
        if let Some((name, value)) = crate::text::split_once(lines[i].as_str(), ":") {
            if crate::text::eq_ignore_ascii_case(name, "content-length") {
                return match crate::text::parse_u64(crate::text::trim(value)) {
                    Some(n) => if n <= usize::MAX as u64 {
                        Ok(n as usize)
                    } else {
                        Err(Fault::new("Invalid content-length"))
                    },
                    None => Err(Fault::new("Invalid content-length")),
                };
            }
        }
        i = i + 1;
    }
    Ok(0)
}

/// A request that was read.
#[derive(Debug)]
pub struct HttpRequest {
    pub path: String,
    pub body: Vec<u8>,
}

/// What reading a request comes to next.
#[derive(Debug)]
pub enum ReadStep {
    /// At most this many bytes are read.
    Read(usize),
    Done(HttpRequest),
    Failed(Fault),
}

pub enum ReadStepV {
    Read(int),
    Done {
        path: Seq<char>,
        body: Seq<u8>,
    },
    Failed(Seq<char>),
}

impl View for ReadStep {
    type V = ReadStepV;

    open spec fn view(&self) -> ReadStepV {
        match self {
            ReadStep::Read(n) => ReadStepV::Read(*n as int),
            ReadStep::Done(r) => ReadStepV::Done { path: r.path@, body: r.body@ },
            ReadStep::Failed(e) => ReadStepV::Failed(e@),
        }
    }
}

/// What comes next after some bytes were read. The headers may take a mebibyte. A body that is cut
/// short by the end of the connection counts as empty.
pub open spec fn read_of(b: Seq<u8>, closed: bool) -> ReadStepV {
    match end_from(b, 0) {
        None => if closed {
            ReadStepV::Failed("connection closed before headers"@)
        } else if b.len() > 1048576 {
            ReadStepV::Failed("request headers too large"@)
        } else {
            ReadStepV::Read(4096)
        },
        Some(end) => {
            let headers = lossy_text(b.take(end));
            match length_of(headers) {
                Err(e) => ReadStepV::Failed(e),
                Ok(len) => if end + 4 + len > usize::MAX {
                    ReadStepV::Failed("Invalid content-length"@)
                } else if b.len() >= end + 4 + len {
                    ReadStepV::Done {
                        path: path_of(headers),
                        body: b.subrange(end + 4, end + 4 + len),
                    }
                } else if closed {
                    ReadStepV::Done { path: path_of(headers), body: Seq::empty() }
                } else {
                    ReadStepV::Read(end + 4 + len - b.len())
                },
            }
        },
    }
}

fn bytes_between(b: &Vec<u8>, from: usize, to: usize) -> (r: Vec<u8>)
    requires
        from <= to <= b@.len(),
    ensures
        r@ == b@.subrange(from as int, to as int),
{
    let mut out: Vec<u8> = Vec::new();
    for i in from..to
        invariant
            to <= b@.len(),
            out@ == b@.subrange(from as int, i as int),
    {
        out.push(b[i]);
        assert(out@ =~= b@.subrange(from as int, i + 1));
    }
    out
}

/// Tells what comes next after some bytes of a request were read. `closed` is whether the
/// connection ended.
pub fn read_http_request(buffer: &Vec<u8>, closed: bool) -> (r: ReadStep)
    ensures
        r@ == read_of(buffer@, closed),
{
    match find_header_end(buffer) {
        None => if closed {
            ReadStep::Failed(Fault::new("connection closed before headers"))
        } else if buffer.len() > 1048576 {
            ReadStep::Failed(Fault::new("request headers too large"))
        } else {
            ReadStep::Read(4096)
        },
        Some(end) => {
            let head = bytes_between(buffer, 0, end);
            assert(head@ =~= buffer@.take(end as int));
            let headers = text_of_bytes(&head);
            match content_length(headers.as_str()) {
                Err(e) => ReadStep::Failed(e),
                Ok(len) => {
                    let n: usize = buffer.len();
                    let start: usize = end + 4;
                    if len > usize::MAX - start {
                        ReadStep::Failed(Fault::new("Invalid content-length"))
                    } else if n >= start + len {
                        ReadStep::Done(
                            HttpRequest {
                                path: request_path(headers.as_str()),
                                body: bytes_between(buffer, start, start + len),
                            },
                        )
                    } else if closed {
                        let empty: Vec<u8> = Vec::new();
                        assert(empty@ =~= Seq::<u8>::empty());
                        ReadStep::Done(
                            HttpRequest { path: request_path(headers.as_str()), body: empty },
                        )
                    } else {
                        ReadStep::Read(start + len - n)
                    }
                },
            }
        },
    }
}

// ---------------------------------------------------------------- writing an answer

/// The words that go with a status.
pub open spec fn status_words(status: u16) -> Seq<char> {
    if status == 200 {
        "OK"@
    } else if status == 404 {
        "Not Found"@
    } else if status == 500 {
        "Internal Server Error"@
    } else {
        "Upstream"@
    }
}

/// The text of an answer.
pub open spec fn answer_text(status: u16, content_type: Seq<char>, body: Seq<char>) -> Seq<char> {
    "HTTP/1.1 "@ + crate::text::decimal(status as nat) + " "@ + status_words(status)
        + "\r\ncontent-type: "@ + content_type + "\r\ncontent-length: "@
        + crate::text::decimal(vstd::utf8::encode_utf8(body).len())
        + "\r\nconnection: close\r\n\r\n"@ + body
}

/// The bytes of an answer.
pub fn http_text(status: u16, content_type: &str, body: &str) -> (r: Vec<u8>)
    ensures
        r@ == vstd::utf8::encode_utf8(answer_text(status, content_type@, body@)),
{
    let length: usize = body.as_bytes_vec().len();
    let mut out = "HTTP/1.1 ".to_string();
    out.append(crate::text::decimal_text(status as u64).as_str());
    out.append(" ");
    out.append(
        if status == 200 {
            "OK"
        } else if status == 404 {
            "Not Found"
        } else if status == 500 {
            "Internal Server Error"
        } else {
            "Upstream"
        },
    );
    out.append("\r\ncontent-type: ");
    out.append(content_type);
    out.append("\r\ncontent-length: ");
    out.append(crate::text::decimal_text(length as u64).as_str());
    out.append("\r\nconnection: close\r\n\r\n");
    out.append(body);
    out.as_str().as_bytes_vec()
}

/// The bytes of an answer in JSON.
pub fn http_json(status: u16, body: &Json) -> (r: Vec<u8>)
    ensures
        r@ == vstd::utf8::encode_utf8(
            answer_text(status, "application/json"@, crate::json::text_of(body@)),
        ),
{
    http_text(status, "application/json", body.to_text().as_str())
}

} // verus!
