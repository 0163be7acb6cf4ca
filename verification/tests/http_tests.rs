use webserver::request::{parse_request, str_eq};
use webserver::response::{
    handle_connection, handle_http_request, serve_route, usize_to_string, Reply, StaticAssets,
};

fn assets(index: Option<&str>, not_found: Option<&str>) -> StaticAssets {
    StaticAssets {
        index_page: index.map(|s| s.to_string()),
        not_found_page: not_found.map(|s| s.to_string()),
    }
}

fn immediate_text(r: Reply) -> String {
    match r {
        Reply::Immediate(text) => text,
        Reply::SleepThen(_, _) => panic!("expected an immediate reply"),
    }
}

#[test]
fn index_served_with_content_length() {
    let a = assets(Some("hello"), Some("gone"));
    let r = handle_http_request("GET / HTTP/1.1\r\nHost: localhost\r\n\r\n", &a);
    assert_eq!(
        immediate_text(r),
        "HTTP/1.1 200 OK\r\nServer: webserver/0.1\r\nContent-Length: 5\r\n\r\nhello"
    );
}

#[test]
fn index_alias_path_served() {
    let a = assets(Some("hello"), None);
    let r = handle_http_request("GET /index HTTP/1.1\r\n", &a);
    assert_eq!(
        immediate_text(r),
        "HTTP/1.1 200 OK\r\nServer: webserver/0.1\r\nContent-Length: 5\r\n\r\nhello"
    );
}

#[test]
fn content_length_counts_bytes_not_chars() {
    // "héllo" is five characters but six UTF-8 bytes.
    let a = assets(Some("h\u{e9}llo"), None);
    let r = handle_http_request("GET / HTTP/1.1\r\n", &a);
    assert_eq!(
        immediate_text(r),
        "HTTP/1.1 200 OK\r\nServer: webserver/0.1\r\nContent-Length: 6\r\n\r\nh\u{e9}llo"
    );
}

#[test]
fn content_length_multi_digit() {
    let body = "a".repeat(1234);
    let a = assets(Some(&body), None);
    let r = handle_http_request("GET / HTTP/1.1\r\n", &a);
    let expected = format!(
        "HTTP/1.1 200 OK\r\nServer: webserver/0.1\r\nContent-Length: 1234\r\n\r\n{}",
        body
    );
    assert_eq!(immediate_text(r), expected);
}

#[test]
fn unknown_path_serves_not_found_page() {
    let a = assets(Some("hello"), Some("<h1>gone</h1>"));
    let r = handle_http_request("GET /unknown/path HTTP/1.1\r\n", &a);
    assert_eq!(
        immediate_text(r),
        "HTTP/1.1 404 Page not found\r\n\r\n<h1>gone</h1>"
    );
}

#[test]
fn unknown_path_without_not_found_page() {
    let a = assets(Some("hello"), None);
    let r = handle_http_request("GET /unknown/path HTTP/1.1\r\n", &a);
    assert_eq!(
        immediate_text(r),
        "HTTP/1.1 404 Page not found\r\n\r\nPage not found."
    );
}

#[test]
fn missing_index_falls_back_to_not_found_page() {
    let a = assets(None, Some("gone"));
    let r = handle_http_request("GET / HTTP/1.1\r\n", &a);
    assert_eq!(immediate_text(r), "HTTP/1.1 404 Page not found\r\n\r\ngone");
}

#[test]
fn missing_index_and_not_found_page() {
    let a = assets(None, None);
    let r = handle_http_request("GET /index HTTP/1.1\r\n", &a);
    assert_eq!(
        immediate_text(r),
        "HTTP/1.1 404 Page not found\r\n\r\nPage not found."
    );
}

#[test]
fn post_returns_not_implemented() {
    let a = assets(Some("hello"), Some("gone"));
    let r = handle_http_request("POST / HTTP/1.1\r\n", &a);
    assert_eq!(immediate_text(r), "HTTP/1.1 501 Not Implemented\r\n\r\n");
}

#[test]
fn put_on_any_path_returns_not_implemented() {
    let a = assets(Some("hello"), Some("gone"));
    let r = handle_http_request("PUT /sleep HTTP/1.1\r\n", &a);
    assert_eq!(immediate_text(r), "HTTP/1.1 501 Not Implemented\r\n\r\n");
}

#[test]
fn old_http_version_returns_505() {
    let a = assets(Some("hello"), Some("gone"));
    let r = handle_http_request("GET / HTTP/1.0\r\n", &a);
    assert_eq!(
        immediate_text(r),
        "HTTP/1.1 505 HTTP Version Not Supported\r\n\r\n"
    );
}

#[test]
fn version_is_checked_before_method() {
    let a = assets(None, None);
    let r = handle_http_request("POST / HTTP/1.0\r\n", &a);
    assert_eq!(
        immediate_text(r),
        "HTTP/1.1 505 HTTP Version Not Supported\r\n\r\n"
    );
}

#[test]
fn short_request_line_yields_bad_request() {
    let a = assets(Some("hello"), Some("gone"));
    let r = handle_http_request("GET /\r\n", &a);
    assert_eq!(immediate_text(r), "HTTP/1.1 400 Bad Request\r\n\r\n");
}

#[test]
fn single_token_line_yields_bad_request() {
    let a = assets(None, None);
    let r = handle_http_request("GET\r\n", &a);
    assert_eq!(immediate_text(r), "HTTP/1.1 400 Bad Request\r\n\r\n");
}

#[test]
fn sleep_route_replies_after_fixed_delay() {
    let a = assets(None, None);
    match handle_http_request("GET /sleep HTTP/1.1\r\n", &a) {
        Reply::SleepThen(secs, text) => {
            assert_eq!(secs, 5);
            assert_eq!(text, "HTTP/1.1 200 OK\r\n\r\nSlept for 3 seconds");
        }
        Reply::Immediate(_) => panic!("expected a delayed reply"),
    }
}

#[test]
fn empty_read_produces_no_reply() {
    let a = assets(Some("hello"), Some("gone"));
    assert!(handle_connection("", &a).is_none());
}

#[test]
fn nonempty_read_produces_a_reply() {
    let a = assets(Some("hello"), Some("gone"));
    match handle_connection("GET / HTTP/1.1\r\n", &a) {
        Some(Reply::Immediate(text)) => {
            assert_eq!(
                text,
                "HTTP/1.1 200 OK\r\nServer: webserver/0.1\r\nContent-Length: 5\r\n\r\nhello"
            );
        }
        _ => panic!("expected an immediate reply"),
    }
}

#[test]
fn parse_splits_request_line() {
    let p = parse_request("GET /path HTTP/1.1\r\nHost: localhost\r\n\r\n").unwrap();
    assert_eq!(p.method, "GET");
    assert_eq!(p.path, "/path");
    assert_eq!(p.version, "HTTP/1.1");
}

#[test]
fn parse_ignores_tokens_after_the_third() {
    let p = parse_request("GET / HTTP/1.1 extra junk\r\n").unwrap();
    assert_eq!(p.method, "GET");
    assert_eq!(p.path, "/");
    assert_eq!(p.version, "HTTP/1.1");
}

#[test]
fn parse_without_line_terminator() {
    let p = parse_request("GET / HTTP/1.1").unwrap();
    assert_eq!(p.method, "GET");
    assert_eq!(p.path, "/");
    assert_eq!(p.version, "HTTP/1.1");
}

#[test]
fn parse_rejects_short_lines() {
    assert!(parse_request("GET /\r\n").is_none());
    assert!(parse_request("GET").is_none());
    assert!(parse_request("").is_none());
}

#[test]
fn double_space_shifts_tokens() {
    // Splitting on single spaces keeps empty tokens, so the version slot
    // holds "/" here and the request is answered with 505.
    let a = assets(Some("hello"), None);
    let r = handle_http_request("GET  / HTTP/1.1\r\n", &a);
    assert_eq!(
        immediate_text(r),
        "HTTP/1.1 505 HTTP Version Not Supported\r\n\r\n"
    );
}

#[test]
fn sleep_route_ignores_missing_assets() {
    let a = assets(None, None);
    match handle_http_request("GET /sleep HTTP/1.1\r\n", &a) {
        Reply::SleepThen(secs, _) => assert_eq!(secs, 5),
        Reply::Immediate(_) => panic!("expected a delayed reply"),
    }
}

#[test]
fn serve_route_matches_paths_exactly() {
    let a = assets(Some("hello"), Some("gone"));
    let r = serve_route("/sleeping", &a);
    assert_eq!(immediate_text(r), "HTTP/1.1 404 Page not found\r\n\r\ngone");
}

#[test]
fn decimal_rendering() {
    assert_eq!(usize_to_string(0), "0");
    assert_eq!(usize_to_string(7), "7");
    assert_eq!(usize_to_string(10), "10");
    assert_eq!(usize_to_string(90210), "90210");
}

#[test]
fn str_eq_compares_contents() {
    assert!(str_eq("GET", "GET"));
    assert!(!str_eq("GET", "GE"));
    assert!(!str_eq("GET", "PUT"));
    assert!(str_eq("", ""));
}
