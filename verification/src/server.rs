//! The local request API used by the browser extension and by a second
//! instance: which origins may call it, how a request's head is read, which
//! endpoint a request reaches, and the exact replies.
use vstd::prelude::*;
use crate::text::{
    Strip, chars_of, string_of, starts_with, has_prefix, strip_end, trim_end_by, eq_lit, trim,
    trim_by, strip, lower, eq_ignore_case, split_once_seq, split_once_char, parse_usize,
    parse_usize_spec, is_ws, is_ws_char, trim_start_by, strip_start, dec, dec_u64, append, append_str,
    split_seq, split_char,
};
use crate::probe::{parse_url, parsed_url, utf8_lossy, lossy_string};

verus! {

/// The port the local API listens on.
pub const DEFAULT_SERVER_PORT: u16 = 9191;

/// An origin text naming this machine over HTTP(S), with or without a port.
pub open spec fn local_origin_text(t: Seq<char>) -> bool {
    ||| t == "http://localhost"@
    ||| starts_with(t, "http://localhost:"@)
    ||| t == "https://localhost"@
    ||| starts_with(t, "https://localhost:"@)
    ||| t == "http://127.0.0.1"@
    ||| starts_with(t, "http://127.0.0.1:"@)
    ||| t == "https://127.0.0.1"@
    ||| starts_with(t, "https://127.0.0.1:"@)
}

/// Origins that may call the API: none at all (extension workers), a
/// browser extension, or a page served from this machine. Any other web
/// page is refused.
pub open spec fn origin_ok(o: Seq<char>) -> bool {
    if o.len() == 0 {
        true
    } else if starts_with(o, "chrome-extension://"@) || starts_with(o, "moz-extension://"@)
        || starts_with(o, "safari-extension://"@) {
        true
    } else {
        match parsed_url(o) {
            Some(u) => u.host == Some("localhost"@) || u.host == Some("127.0.0.1"@),
            None => local_origin_text(trim_end_by(o, Strip::One('/'))),
        }
    }
}

fn prefixed(v: &Vec<char>, p: &str) -> (r: bool)
    ensures
        r == starts_with(v@, p@),
{
    let pv = chars_of(p);
    has_prefix(v, &pv)
}

/// Whether a request from this origin may use the API (see `origin_ok`).
pub fn origin_allowed(origin: &str) -> (r: bool)
    ensures
        r == origin_ok(origin@),
{
    let v = chars_of(origin);
    if v.len() == 0 {
        return true;
    }
    if prefixed(&v, "chrome-extension://") || prefixed(&v, "moz-extension://") || prefixed(
        &v,
        "safari-extension://",
    ) {
        return true;
    }
    match parse_url(origin) {
        Some(u) => match u.host {
            Some(h) => {
                let hv = chars_of(h.as_str());
                eq_lit(&hv, "localhost") || eq_lit(&hv, "127.0.0.1")
            },
            None => false,
        },
        None => {
            let t = strip_end(&v, &Strip::One('/'));
            eq_lit(&t, "http://localhost") || prefixed(&t, "http://localhost:") || eq_lit(
                &t,
                "https://localhost",
            ) || prefixed(&t, "https://localhost:") || eq_lit(&t, "http://127.0.0.1") || prefixed(
                &t,
                "http://127.0.0.1:",
            ) || eq_lit(&t, "https://127.0.0.1") || prefixed(&t, "https://127.0.0.1:")
        },
    }
}


/// `p` is where the first blank line (`\r\n\r\n`) of a request starts.
pub open spec fn blank_line_at(b: Seq<u8>, p: int) -> bool {
    0 <= p && p + 4 <= b.len() && b[p] == 13 && b[p + 1] == 10 && b[p + 2] == 13 && b[p + 3] == 10
}

pub open spec fn first_blank_line(b: Seq<u8>, p: int) -> bool {
    blank_line_at(b, p) && forall|q: int| 0 <= q < p ==> !blank_line_at(b, q)
}

/// What one header line contributes: a `Content-Length` (its value parsed,
/// `0` when it does not parse) or an `Origin` (trimmed); a later line wins.
pub open spec fn header_step(acc: (usize, Seq<char>), line: Seq<char>) -> (usize, Seq<char>) {
    let (k, v) = split_once_seq(line, ':');
    match v {
        None => acc,
        Some(val) => {
            let key = lower(trim(k));
            if key == lower("content-length"@) {
                (
                    match parse_usize_spec(trim(val)) {
                        Some(n) => n,
                        None => 0,
                    },
                    acc.1,
                )
            } else if key == lower("origin"@) {
                (acc.0, trim(val))
            } else {
                acc
            }
        },
    }
}

/// The content length and origin the header lines announce.
pub open spec fn head_fold(lines: Seq<Seq<char>>) -> (usize, Seq<char>)
    decreases lines.len(),
{
    if lines.len() == 0 {
        (0, Seq::empty())
    } else {
        header_step(head_fold(lines.drop_last()), lines.last())
    }
}

/// The head of a request, once its blank line has arrived.
pub struct RequestHead {
    /// where the body starts (just past the blank line)
    pub header_end: usize,
    pub content_length: usize,
    pub origin: String,
}

fn find_blank_line(b: &Vec<u8>) -> (r: Option<usize>)
    ensures
        match r {
            Some(p) => first_blank_line(b@, p as int),
            None => forall|q: int| 0 <= q ==> !blank_line_at(b@, q),
        },
{
    let n = b.len();
    if n < 4 {
        return None;
    }
    let mut p: usize = 0;
    while p <= n - 4
        invariant
            n == b@.len(),
            4 <= n,
            p + 3 <= n,
            forall|q: int| 0 <= q < p ==> !blank_line_at(b@, q),
        decreases n - p,
    {
        if b[p] == 13 && b[p + 1] == 10 && b[p + 2] == 13 && b[p + 3] == 10 {
            return Some(p);
        }
        p = p + 1;
    }
    None
}

fn key_is(k: &Vec<char>, name: &str) -> (r: bool)
    ensures
        r == (lower(k@) == lower(name@)),
{
    let nv = chars_of(name);
    eq_ignore_case(k, &nv)
}

/// Read a request's head from what has arrived so far: `None` until the
/// blank line ending the headers is in; then where the body starts and the
/// content length and origin the header lines (the text before the blank
/// line, split at line feeds) announce.
pub fn scan_head(buffer: &Vec<u8>) -> (r: Option<RequestHead>)
    ensures
        match r {
            None => forall|q: int| 0 <= q ==> !blank_line_at(buffer@, q),
            Some(h) => {
                &&& first_blank_line(buffer@, h.header_end - 4)
                &&& h.header_end >= 4
                &&& (h.content_length, h.origin@) == head_fold(
                    split_seq(utf8_lossy(buffer@.take(h.header_end - 4)), '\n'),
                )
            },
        },
{
    let p = match find_blank_line(buffer) {
        Some(p) => p,
        None => return None,
    };
    let blen = buffer.len();
    let mut headb: Vec<u8> = Vec::new();
    for i in 0..p
        invariant
            blen == buffer@.len(),
            p + 4 <= buffer@.len(),
            headb@ == buffer@.take(i as int),
    {
        headb.push(buffer[i]);
        assert(buffer@.take(i + 1) =~= buffer@.take(i as int).push(buffer@[i as int]));
    }
    let text = lossy_string(&headb);
    let tv = chars_of(text.as_str());
    let lines = split_char(&tv, '\n');
    let ghost ls = lines.deep_view();
    let mut cl: usize = 0;
    let mut origin: Vec<char> = Vec::new();
    for i in 0..lines.len()
        invariant
            blen == buffer@.len(),
            p + 4 <= buffer@.len(),
            ls == lines.deep_view(),
            cl == head_fold(ls.take(i as int)).0,
            origin@ == head_fold(ls.take(i as int)).1,
    {
        proof {
            assert(ls.take(i + 1).drop_last() =~= ls.take(i as int));
            assert(ls.take(i + 1).last() == ls[i as int]);
            assert(lines[i as int]@ == ls[i as int]);
        }
        let (k, v) = split_once_char(&lines[i], ':');
        match v {
            Some(val) => {
                let key = strip(&k, &Strip::Ws);
                let value = strip(&val, &Strip::Ws);
                if key_is(&key, "content-length") {
                    cl = match parse_usize(&value) {
                        Some(n) => n,
                        None => 0,
                    };
                } else if key_is(&key, "origin") {
                    origin = value;
                }
            },
            None => {},
        }
    }
    proof {
        assert(ls.take(ls.len() as int) =~= ls);
    }
    Some(RequestHead { header_end: p + 4, content_length: cl, origin: string_of(&origin) })
}

/// The whole request has arrived: its head, and as many body bytes as it announced.
pub open spec fn request_complete(len: nat, head: Option<RequestHead>) -> bool {
    match head {
        Some(h) => len >= h.header_end + h.content_length,
        None => false,
    }
}

pub fn is_complete(buffer: &Vec<u8>, head: &Option<RequestHead>) -> (r: bool)
    ensures
        r == request_complete(buffer@.len(), *head),
{
    match head {
        Some(h) => buffer.len() >= h.header_end && buffer.len() - h.header_end >= h.content_length,
        None => false,
    }
}


/// Length of the run of non-whitespace characters `s` starts with.
pub open spec fn token_len(s: Seq<char>) -> nat
    decreases s.len(),
{
    if s.len() == 0 || is_ws(s[0]) {
        0
    } else {
        1 + token_len(s.skip(1))
    }
}

/// The first whitespace-separated word of a text (empty when there is none).
pub open spec fn first_token(s: Seq<char>) -> Seq<char> {
    let t = trim_start_by(s, Strip::Ws);
    t.take(token_len(t) as int)
}

/// What follows the first word.
pub open spec fn after_token(s: Seq<char>) -> Seq<char> {
    let t = trim_start_by(s, Strip::Ws);
    t.skip(token_len(t) as int)
}

proof fn lemma_token_len(t: Seq<char>, i: int)
    requires
        0 <= i <= t.len(),
        forall|j: int| 0 <= j < i ==> !is_ws(#[trigger] t[j]),
        i == t.len() || is_ws(t[i]),
    ensures
        token_len(t) == i,
    decreases i,
{
    if i > 0 {
        let u = t.skip(1);
        assert forall|j: int| 0 <= j < i - 1 implies !is_ws(#[trigger] u[j]) by {
            assert(u[j] == t[j + 1]);
        }
        if i < t.len() {
            assert(u[i - 1] == t[i]);
        }
        lemma_token_len(u, i - 1);
    }
}

fn split_token(v: &Vec<char>) -> (r: (Vec<char>, Vec<char>))
    ensures
        r.0@ == first_token(v@),
        r.1@ == after_token(v@),
{
    let t = strip_start(v, &Strip::Ws);
    let mut i: usize = 0;
    while i < t.len() && !is_ws_char(t[i])
        invariant
            i <= t.len(),
            forall|j: int| 0 <= j < i ==> !is_ws(#[trigger] t@[j]),
        decreases t.len() - i,
    {
        i = i + 1;
    }
    proof {
        lemma_token_len(t@, i as int);
    }
    let a = crate::text::slice(&t, 0, i);
    let b = crate::text::slice(&t, i, t.len());
    (a, b)
}

/// The endpoint a request reaches.
#[derive(Clone, Copy, Debug, PartialEq, Eq, Structural)]
pub enum Route {
    /// a CORS preflight
    Preflight,
    /// bring the window to the front
    Show,
    /// the same from a refused origin
    ShowForbidden,
    Health,
    /// hand a download over
    AddDownload,
    /// the same from a refused origin
    AddForbidden,
    NotFound,
}

pub open spec fn route_for(method: Seq<char>, path: Seq<char>, origin: Seq<char>) -> Route {
    if method == "OPTIONS"@ {
        Route::Preflight
    } else if (method == "GET"@ || method == "POST"@) && (path == "/show"@ || path == "/open"@) {
        if origin_ok(origin) {
            Route::Show
        } else {
            Route::ShowForbidden
        }
    } else if method == "GET"@ && (path == "/health"@ || path == "/status"@) {
        Route::Health
    } else if method == "POST"@ && path == "/add-download"@ {
        if origin_ok(origin) {
            Route::AddDownload
        } else {
            Route::AddForbidden
        }
    } else {
        Route::NotFound
    }
}

/// The route of a received request: read from the method and path of its
/// first line and the origin its head announced; `None` (no reply at all)
/// for an empty request.
pub open spec fn route_of_request(buffer: Seq<u8>, origin: Seq<char>) -> Option<Route> {
    let text = utf8_lossy(buffer);
    if buffer.len() == 0 || text.len() == 0 {
        None
    } else {
        let line = split_once_seq(text, '\n').0;
        Some(route_for(first_token(line), first_token(after_token(line)), origin))
    }
}

pub fn request_route(buffer: &Vec<u8>, head: &Option<RequestHead>) -> (r: Option<Route>)
    ensures
        r == route_of_request(buffer@, match head {
            Some(h) => h.origin@,
            None => Seq::empty(),
        }),
{
    if buffer.len() == 0 {
        return None;
    }
    let text = lossy_string(buffer);
    let tv = chars_of(text.as_str());
    if tv.len() == 0 {
        return None;
    }
    let (line, _) = split_once_char(&tv, '\n');
    let (method, rest) = split_token(&line);
    let (path, _) = split_token(&rest);
    let origin_ok_now = match head {
        Some(h) => origin_allowed(h.origin.as_str()),
        None => true,
    };
    let route = if eq_lit(&method, "OPTIONS") {
        Route::Preflight
    } else if (eq_lit(&method, "GET") || eq_lit(&method, "POST")) && (eq_lit(&path, "/show") || eq_lit(
        &path,
        "/open",
    )) {
        if origin_ok_now {
            Route::Show
        } else {
            Route::ShowForbidden
        }
    } else if eq_lit(&method, "GET") && (eq_lit(&path, "/health") || eq_lit(&path, "/status")) {
        Route::Health
    } else if eq_lit(&method, "POST") && eq_lit(&path, "/add-download") {
        if origin_ok_now {
            Route::AddDownload
        } else {
            Route::AddForbidden
        }
    } else {
        Route::NotFound
    };
    Some(route)
}

/// A download handed over by the browser extension.
#[derive(Clone, Debug)]
pub struct DownloadPayload {
    pub url: String,
    pub filename: String,
    pub referrer: String,
    pub cookies: String,
    pub user_agent: String,
    pub file_size: Option<u64>,
}

/// What a request asks the application to do.
#[derive(Clone, Debug)]
pub enum ServerEvent {
    AddDownload(DownloadPayload),
    ShowWindow,
}

/// The version the health endpoint reports.
pub open spec fn app_version() -> Seq<char> {
    "0.5.0"@
}

/// A JSON reply: status line, content type, the allowed origin, the body length.
pub open spec fn json_reply(status: Seq<char>, allow: Seq<char>, body: Seq<char>) -> Seq<char> {
    status + "\r\nContent-Type: application/json\r\nAccess-Control-Allow-Origin: "@ + allow
        + "\r\nContent-Length: "@ + dec(body.len()) + "\r\n\r\n"@ + body
}

pub open spec fn preflight_reply() -> Seq<char> {
    "HTTP/1.1 204 No Content\r\nAccess-Control-Allow-Origin: *\r\nAccess-Control-Allow-Methods: GET, POST, OPTIONS\r\nAccess-Control-Allow-Headers: Content-Type, Authorization\r\nAccess-Control-Max-Age: 86400\r\nContent-Length: 0\r\n\r\n"@
}

pub open spec fn show_forbidden_reply() -> Seq<char> {
    "HTTP/1.1 403 Forbidden\r\nAccess-Control-Allow-Origin: null\r\nContent-Length: 0\r\n\r\n"@
}

pub open spec fn not_found_reply() -> Seq<char> {
    "HTTP/1.1 404 Not Found\r\nAccess-Control-Allow-Origin: *\r\nContent-Length: 0\r\n\r\n"@
}

pub open spec fn show_body() -> Seq<char> {
    "{\"message\":\"Window shown\",\"success\":true}"@
}

pub open spec fn health_body() -> Seq<char> {
    "{\"app\":\"VDM\",\"status\":\"ok\",\"version\":\""@ + app_version() + "\"}"@
}

pub open spec fn forbidden_body() -> Seq<char> {
    "{\"error\":\"forbidden origin\",\"success\":false}"@
}

pub open spec fn accepted_body() -> Seq<char> {
    "{\"success\":true}"@
}

pub open spec fn invalid_body() -> Seq<char> {
    "{\"error\":\"Invalid payload\",\"success\":false}"@
}

/// A handed-over download is usable: it parsed, and its URL is not blank.
pub open spec fn payload_ok(p: Option<DownloadPayload>) -> bool {
    match p {
        Some(d) => trim(d.url@).len() > 0,
        None => false,
    }
}

/// The reply to a request on a route; for `AddDownload`, `payload` is the
/// body read as a download (`None` when it did not parse).
pub open spec fn reply_text(route: Route, payload: Option<DownloadPayload>) -> Seq<char> {
    match route {
        Route::Preflight => preflight_reply(),
        Route::Show => json_reply("HTTP/1.1 200 OK"@, "*"@, show_body()),
        Route::ShowForbidden => show_forbidden_reply(),
        Route::Health => json_reply("HTTP/1.1 200 OK"@, "*"@, health_body()),
        Route::AddDownload => if payload_ok(payload) {
            json_reply("HTTP/1.1 200 OK"@, "*"@, accepted_body())
        } else {
            json_reply("HTTP/1.1 400 Bad Request"@, "*"@, invalid_body())
        },
        Route::AddForbidden => json_reply("HTTP/1.1 403 Forbidden"@, "null"@, forbidden_body()),
        Route::NotFound => not_found_reply(),
    }
}

fn json_reply_text(status: &str, allow: &str, body: &Vec<char>) -> (r: Vec<char>)
    ensures
        r@ == json_reply(status@, allow@, body@),
{
    let mut out = chars_of(status);
    append_str(&mut out, "\r\nContent-Type: application/json\r\nAccess-Control-Allow-Origin: ");
    append_str(&mut out, allow);
    append_str(&mut out, "\r\nContent-Length: ");
    let n = dec_u64(body.len() as u64);
    append(&mut out, &n);
    append_str(&mut out, "\r\n\r\n");
    append(&mut out, body);
    out
}

fn health_text() -> (r: Vec<char>)
    ensures
        r@ == health_body(),
{
    let mut b = chars_of("{\"app\":\"VDM\",\"status\":\"ok\",\"version\":\"");
    append_str(&mut b, "0.5.0");
    append_str(&mut b, "\"}");
    b
}

/// The reply to send and the event to raise for a request (see `reply_text`).
pub fn reply(route: Route, payload: Option<DownloadPayload>) -> (r: (String, Option<ServerEvent>))
    ensures
        r.0@ == reply_text(route, payload),
        r.1 == match route {
            Route::Show => Some(ServerEvent::ShowWindow),
            Route::AddDownload => if payload_ok(payload) {
                Some(ServerEvent::AddDownload(payload->0))
            } else {
                None
            },
            _ => None,
        },
{
    match route {
        Route::Preflight => (
            owned_text("HTTP/1.1 204 No Content\r\nAccess-Control-Allow-Origin: *\r\nAccess-Control-Allow-Methods: GET, POST, OPTIONS\r\nAccess-Control-Allow-Headers: Content-Type, Authorization\r\nAccess-Control-Max-Age: 86400\r\nContent-Length: 0\r\n\r\n"),
            None,
        ),
        Route::Show => {
            let body = chars_of("{\"message\":\"Window shown\",\"success\":true}");
            (string_of(&json_reply_text("HTTP/1.1 200 OK", "*", &body)), Some(ServerEvent::ShowWindow))
        },
        Route::ShowForbidden => (
            owned_text("HTTP/1.1 403 Forbidden\r\nAccess-Control-Allow-Origin: null\r\nContent-Length: 0\r\n\r\n"),
            None,
        ),
        Route::Health => {
            let body = health_text();
            (string_of(&json_reply_text("HTTP/1.1 200 OK", "*", &body)), None)
        },
        Route::AddDownload => {
            let ok = match &payload {
                Some(d) => {
                    let u = chars_of(d.url.as_str());
                    let t = strip(&u, &Strip::Ws);
                    t.len() > 0
                },
                None => false,
            };
            if ok {
                let body = chars_of("{\"success\":true}");
                let text = string_of(&json_reply_text("HTTP/1.1 200 OK", "*", &body));
                match payload {
                    Some(d) => (text, Some(ServerEvent::AddDownload(d))),
                    None => (text, None),
                }
            } else {
                let body = chars_of("{\"error\":\"Invalid payload\",\"success\":false}");
                (string_of(&json_reply_text("HTTP/1.1 400 Bad Request", "*", &body)), None)
            }
        },
        Route::AddForbidden => {
            let body = chars_of("{\"error\":\"forbidden origin\",\"success\":false}");
            (string_of(&json_reply_text("HTTP/1.1 403 Forbidden", "null", &body)), None)
        },
        Route::NotFound => (
            owned_text("HTTP/1.1 404 Not Found\r\nAccess-Control-Allow-Origin: *\r\nContent-Length: 0\r\n\r\n"),
            None,
        ),
    }
}

fn owned_text(s: &str) -> (r: String)
    ensures
        r@ == s@,
{
    crate::text::owned(s)
}

/// The body of a request: what follows its head, read as lossy UTF-8
/// (empty when the head never completed).
pub fn body_text(buffer: &Vec<u8>, head: &Option<RequestHead>) -> (r: String)
    ensures
        r@ == match head {
            Some(h) => if buffer@.len() >= h.header_end {
                utf8_lossy(buffer@.skip(h.header_end as int))
            } else {
                Seq::empty()
            },
            None => Seq::empty(),
        },
{
    match head {
        Some(h) => {
            if buffer.len() >= h.header_end {
                let mut tail: Vec<u8> = Vec::new();
                let mut i = h.header_end;
                while i < buffer.len()
                    invariant
                        h.header_end <= i <= buffer@.len(),
                        tail@ == buffer@.subrange(h.header_end as int, i as int),
                    decreases buffer@.len() - i,
                {
                    tail.push(buffer[i]);
                    assert(buffer@.subrange(h.header_end as int, i + 1) =~= buffer@.subrange(
                        h.header_end as int,
                        i as int,
                    ).push(buffer@[i as int]));
                    i = i + 1;
                }
                assert(tail@ =~= buffer@.skip(h.header_end as int));
                lossy_string(&tail)
            } else {
                String::new()
            }
        },
        None => String::new(),
    }
}

} // verus!
