//! Routing and response construction.
//!
//! A parsed request is mapped to a response in this order: an unsupported
//! version yields 505, a method other than GET yields 501, the `/sleep`
//! probe yields 200 after a fixed delay, `/` and `/index` serve the index
//! page with `Server` and `Content-Length` headers, and every other path
//! falls back to the not-found page, or to a fixed text when that page is
//! missing too. The caller reads the static pages from disk and hands their
//! contents in; the library never touches the file system.

use vstd::prelude::*;
use vstd::utf8::encode_utf8;
use crate::request::{line_of, has_three_tokens, method_of, path_of, version_of, parse_request,
    str_eq};

verus! {

/// Seconds a worker blocks on the `/sleep` concurrency probe before replying.
pub const SLEEP_SECONDS: u64 = 5;

/// The decimal digit character for `d`.
pub open spec fn char_of_digit(d: nat) -> char
    recommends
        d < 10,
{
    if d == 0 {
        '0'
    } else if d == 1 {
        '1'
    } else if d == 2 {
        '2'
    } else if d == 3 {
        '3'
    } else if d == 4 {
        '4'
    } else if d == 5 {
        '5'
    } else if d == 6 {
        '6'
    } else if d == 7 {
        '7'
    } else if d == 8 {
        '8'
    } else {
        '9'
    }
}

/// The decimal rendering of `n`, most significant digit first, with no
/// leading zeros (a single `'0'` for zero).
pub open spec fn dec_digits(n: nat) -> Seq<char>
    decreases n,
{
    if n < 10 {
        seq![char_of_digit(n)]
    } else {
        dec_digits(n / 10).push(char_of_digit(n % 10))
    }
}

/// The static pages the router can serve, read from the asset root by the
/// caller; `None` stands for a page that could not be read.
pub struct StaticAssets {
    pub index_page: Option<String>,
    pub not_found_page: Option<String>,
}

impl StaticAssets {
    pub open spec fn index_view(&self) -> Option<Seq<char>> {
        match self.index_page {
            Some(s) => Some(s@),
            None => None,
        }
    }

    pub open spec fn not_found_view(&self) -> Option<Seq<char>> {
        match self.not_found_page {
            Some(s) => Some(s@),
            None => None,
        }
    }
}

/// The not-found response: the 404 page's content as body when that page
/// exists, a fixed plain-text body otherwise.
pub open spec fn spec_not_found_response(not_found: Option<Seq<char>>) -> Seq<char> {
    match not_found {
        Some(body) => "HTTP/1.1 404 Page not found\r\n\r\n"@ + body,
        None => "HTTP/1.1 404 Page not found\r\n\r\nPage not found."@,
    }
}

/// The index response: 200 with `Server` and `Content-Length` headers and
/// the index page as body, where `Content-Length` is the page's byte length;
/// falls back to the not-found response when the index page is missing.
pub open spec fn spec_index_response(
    index: Option<Seq<char>>,
    not_found: Option<Seq<char>>,
) -> Seq<char> {
    match index {
        Some(body) => "HTTP/1.1 200 OK\r\nServer: webserver/0.1\r\nContent-Length: "@ + dec_digits(
            encode_utf8(body).len(),
        ) + "\r\n\r\n"@ + body,
        None => spec_not_found_response(not_found),
    }
}

/// The response for a routed path, in evaluation order: the sleep probe,
/// then the index page, then the not-found fallback.
pub open spec fn spec_route_response(
    path: Seq<char>,
    index: Option<Seq<char>>,
    not_found: Option<Seq<char>>,
) -> Seq<char> {
    if path == "/sleep"@ {
        "HTTP/1.1 200 OK\r\n\r\nSlept for 3 seconds"@
    } else if path == "/"@ || path == "/index"@ {
        spec_index_response(index, not_found)
    } else {
        spec_not_found_response(not_found)
    }
}

/// The full response for raw request text: a malformed request line yields
/// 400, then version and method are checked before the path is routed.
pub open spec fn spec_response(
    req: Seq<char>,
    index: Option<Seq<char>>,
    not_found: Option<Seq<char>>,
) -> Seq<char> {
    let l = line_of(req);
    if !has_three_tokens(l) {
        "HTTP/1.1 400 Bad Request\r\n\r\n"@
    } else if version_of(l) != "HTTP/1.1"@ {
        "HTTP/1.1 505 HTTP Version Not Supported\r\n\r\n"@
    } else if method_of(l) != "GET"@ {
        "HTTP/1.1 501 Not Implemented\r\n\r\n"@
    } else {
        spec_route_response(path_of(l), index, not_found)
    }
}

/// Whether the request reaches the `/sleep` route, the only route answered
/// after a delay.
pub open spec fn spec_sleep_requested(req: Seq<char>) -> bool {
    let l = line_of(req);
    has_three_tokens(l) && version_of(l) == "HTTP/1.1"@ && method_of(l) == "GET"@ && path_of(l)
        == "/sleep"@
}

/// What a worker must do for one request: either write the response at
/// once, or block for the given number of seconds first (the `/sleep`
/// probe). The blocking itself is the caller's job; the library only
/// decides it.
pub enum Reply {
    Immediate(String),
    SleepThen(u64, String),
}

/// `r` is the correct reply for request text `req`: the right variant, the
/// fixed delay on the sleep route, and exactly the response text that
/// `spec_response` prescribes.
pub open spec fn reply_ok(
    r: Reply,
    req: Seq<char>,
    index: Option<Seq<char>>,
    not_found: Option<Seq<char>>,
) -> bool {
    match r {
        Reply::SleepThen(secs, text) => spec_sleep_requested(req) && secs == SLEEP_SECONDS
            && text@ == spec_response(req, index, not_found),
        Reply::Immediate(text) => !spec_sleep_requested(req) && text@ == spec_response(
            req,
            index,
            not_found,
        ),
    }
}

/// A request line with fewer than three space-separated tokens is answered
/// 400 with an empty body, whatever pages are available: it never faults.
pub proof fn lemma_malformed_request_rejected(
    req: Seq<char>,
    index: Option<Seq<char>>,
    not_found: Option<Seq<char>>,
)
    requires
        !has_three_tokens(line_of(req)),
    ensures
        spec_response(req, index, not_found) == "HTTP/1.1 400 Bad Request\r\n\r\n"@,
{
}

/// A request whose version token is not `HTTP/1.1` is answered 505 with an
/// empty body, before the method or the path is even looked at.
pub proof fn lemma_wrong_version_rejected(
    req: Seq<char>,
    index: Option<Seq<char>>,
    not_found: Option<Seq<char>>,
)
    requires
        has_three_tokens(line_of(req)),
        version_of(line_of(req)) != "HTTP/1.1"@,
    ensures
        spec_response(req, index, not_found) == "HTTP/1.1 505 HTTP Version Not Supported\r\n\r\n"@,
{
}

/// A request whose method is not GET is answered 501 with an empty body,
/// whatever its path.
pub proof fn lemma_non_get_rejected(
    req: Seq<char>,
    index: Option<Seq<char>>,
    not_found: Option<Seq<char>>,
)
    requires
        has_three_tokens(line_of(req)),
        version_of(line_of(req)) == "HTTP/1.1"@,
        method_of(line_of(req)) != "GET"@,
    ensures
        spec_response(req, index, not_found) == "HTTP/1.1 501 Not Implemented\r\n\r\n"@,
{
}

/// A GET for `/` or `/index` with a readable index page of byte length L is
/// answered 200, with `Content-Length: L` exactly and the page as body.
pub proof fn lemma_index_request_served(
    req: Seq<char>,
    body: Seq<char>,
    not_found: Option<Seq<char>>,
)
    requires
        has_three_tokens(line_of(req)),
        version_of(line_of(req)) == "HTTP/1.1"@,
        method_of(line_of(req)) == "GET"@,
        path_of(line_of(req)) == "/"@ || path_of(line_of(req)) == "/index"@,
    ensures
        spec_response(req, Some(body), not_found)
            == "HTTP/1.1 200 OK\r\nServer: webserver/0.1\r\nContent-Length: "@ + dec_digits(
            encode_utf8(body).len(),
        ) + "\r\n\r\n"@ + body,
{
    reveal_strlit("/");
    reveal_strlit("/index");
    reveal_strlit("/sleep");
    assert("/"@.len() != "/sleep"@.len());
    assert("/index"@[1] != "/sleep"@[1]);
    assert(path_of(line_of(req)) != "/sleep"@);
}

/// A GET for any path outside the routing table, and for the index route
/// when the index page is unreadable, is answered by the 404 fallback
/// chain: the 404 page when it is readable, a fixed plain text otherwise.
pub proof fn lemma_unrouted_path_not_found(
    req: Seq<char>,
    index: Option<Seq<char>>,
    not_found: Option<Seq<char>>,
)
    requires
        has_three_tokens(line_of(req)),
        version_of(line_of(req)) == "HTTP/1.1"@,
        method_of(line_of(req)) == "GET"@,
        path_of(line_of(req)) != "/sleep"@,
        path_of(line_of(req)) == "/"@ || path_of(line_of(req)) == "/index"@ ==> index is None,
    ensures
        spec_response(req, index, not_found) == spec_not_found_response(not_found),
{
}

/// The string slice holding the single decimal digit `d`.
fn digit_str(d: usize) -> (r: &'static str)
    requires
        d < 10,
    ensures
        r@ == seq![char_of_digit(d as nat)],
{
    proof {
        reveal_strlit("0");
        reveal_strlit("1");
        reveal_strlit("2");
        reveal_strlit("3");
        reveal_strlit("4");
        reveal_strlit("5");
        reveal_strlit("6");
        reveal_strlit("7");
        reveal_strlit("8");
        reveal_strlit("9");
    }
    let r: &'static str = if d == 0 {
        "0"
    } else if d == 1 {
        "1"
    } else if d == 2 {
        "2"
    } else if d == 3 {
        "3"
    } else if d == 4 {
        "4"
    } else if d == 5 {
        "5"
    } else if d == 6 {
        "6"
    } else if d == 7 {
        "7"
    } else if d == 8 {
        "8"
    } else {
        "9"
    };
    proof {
        assert(r@ =~= seq![char_of_digit(d as nat)]);
    }
    r
}

/// Renders `n` in decimal, matching `dec_digits`.
pub fn usize_to_string(n: usize) -> (r: String)
    ensures
        r@ == dec_digits(n as nat),
    decreases n,
{
    if n < 10 {
        String::from_str(digit_str(n))
    } else {
        let q = usize_to_string(n / 10);
        let r = q.concat(digit_str(n % 10));
        proof {
            assert(r@ =~= dec_digits(n as nat));
        }
        r
    }
}

/// Builds the not-found response from the 404 page, when it was readable.
fn not_found_response(assets: &StaticAssets) -> (r: String)
    ensures
        r@ == spec_not_found_response(assets.not_found_view()),
{
    match &assets.not_found_page {
        Some(content) => {
            let mut s = String::from_str("HTTP/1.1 404 Page not found\r\n\r\n");
            s.append(content.as_str());
            s
        },
        None => String::from_str("HTTP/1.1 404 Page not found\r\n\r\nPage not found."),
    }
}

/// Builds the index response, with `Content-Length` set to the page's byte
/// length; falls back to the not-found response when the page is missing.
fn index_response(assets: &StaticAssets) -> (r: String)
    ensures
        r@ == spec_index_response(assets.index_view(), assets.not_found_view()),
{
    match &assets.index_page {
        Some(content) => {
            let mut s = String::from_str(
                "HTTP/1.1 200 OK\r\nServer: webserver/0.1\r\nContent-Length: ",
            );
            let len_str = usize_to_string(content.as_str().as_bytes().len());
            s.append(len_str.as_str());
            s.append("\r\n\r\n");
            s.append(content.as_str());
            proof {
                assert(s@ =~= spec_index_response(assets.index_view(), assets.not_found_view()));
            }
            s
        },
        None => not_found_response(assets),
    }
}

/// Routes a path that already passed the version and method checks.
pub fn serve_route(path: &str, assets: &StaticAssets) -> (r: Reply)
    ensures
        (match r {
            Reply::SleepThen(secs, text) => path@ == "/sleep"@ && secs == SLEEP_SECONDS && text@
                == spec_route_response(path@, assets.index_view(), assets.not_found_view()),
            Reply::Immediate(text) => path@ != "/sleep"@ && text@ == spec_route_response(
                path@,
                assets.index_view(),
                assets.not_found_view(),
            ),
        }),
{
    if str_eq(path, "/sleep") {
        Reply::SleepThen(
            SLEEP_SECONDS,
            String::from_str("HTTP/1.1 200 OK\r\n\r\nSlept for 3 seconds"),
        )
    } else if str_eq(path, "/") || str_eq(path, "/index") {
        Reply::Immediate(index_response(assets))
    } else {
        Reply::Immediate(not_found_response(assets))
    }
}

/// Turns raw request text into the reply a worker must produce.
pub fn handle_http_request(request: &str, assets: &StaticAssets) -> (r: Reply)
    ensures
        reply_ok(r, request@, assets.index_view(), assets.not_found_view()),
{
    match parse_request(request) {
        None => Reply::Immediate(String::from_str("HTTP/1.1 400 Bad Request\r\n\r\n")),
        Some(p) => {
            if !str_eq(p.version.as_str(), "HTTP/1.1") {
                Reply::Immediate(
                    String::from_str("HTTP/1.1 505 HTTP Version Not Supported\r\n\r\n"),
                )
            } else if !str_eq(p.method.as_str(), "GET") {
                Reply::Immediate(String::from_str("HTTP/1.1 501 Not Implemented\r\n\r\n"))
            } else {
                serve_route(p.path.as_str(), assets)
            }
        },
    }
}

/// One connection's worth of work, after the raw bytes were read and
/// decoded: an empty read produces no reply at all, anything else is
/// answered.
pub fn handle_connection(input: &str, assets: &StaticAssets) -> (r: Option<Reply>)
    ensures
        match r {
            Some(rep) => input@.len() > 0 && reply_ok(
                rep,
                input@,
                assets.index_view(),
                assets.not_found_view(),
            ),
            None => input@.len() == 0,
        },
{
    if input.is_empty() {
        None
    } else {
        Some(handle_http_request(input, assets))
    }
}

} // verus!

