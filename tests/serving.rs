use web_server::bundle::Bundle;
use web_server::http::{Response, STATUS_NOT_FOUND, STATUS_OK};
use web_server::render::{inject_script, render_index, render_text, script_fragment};
use web_server::router::{handle_request, is_entry_request};
use web_server::text::{find, splice, strip_leading_slashes};

const URL: &str = "https://api.example.com";
const SCRIPT: &str = "<script>window.__SAPPHILLON_GRPC_BASE__ = \"https://api.example.com\";</script>";

fn sample_bundle(index: &str) -> Bundle {
    let mut b = Bundle::new();
    b.insert("index.html", "text/html", index.as_bytes().to_vec());
    b.insert("assets/app.js", "application/javascript", b"console.log(1);".to_vec());
    b.insert("/style.css", "text/css", b"body{}".to_vec());
    b
}

fn body_text(r: &Response) -> String {
    String::from_utf8(r.body.clone()).unwrap()
}

#[test]
fn find_reports_first_occurrence() {
    assert_eq!(find(b"a</head>b</head>", b"</head>"), Some(1));
    assert_eq!(find(b"abc", b"x"), None);
    assert_eq!(find(b"ab", b"abc"), None);
    assert_eq!(find(b"abc", b""), Some(0));
}

#[test]
fn splice_inserts_at_index() {
    assert_eq!(splice(b"abcd", 2, b"XY"), b"abXYcd".to_vec());
    assert_eq!(splice(b"abcd", 0, b"X"), b"Xabcd".to_vec());
    assert_eq!(splice(b"abcd", 4, b"X"), b"abcdX".to_vec());
}

#[test]
fn strip_removes_all_leading_slashes() {
    assert_eq!(strip_leading_slashes(b"//a/b"), b"a/b".to_vec());
    assert_eq!(strip_leading_slashes(b"a"), b"a".to_vec());
    assert_eq!(strip_leading_slashes(b"/"), Vec::<u8>::new());
}

#[test]
fn script_fragment_assigns_url_verbatim() {
    assert_eq!(script_fragment(URL), SCRIPT.as_bytes().to_vec());
    let raw = script_fragment("a\"<b>");
    assert_eq!(raw, b"<script>window.__SAPPHILLON_GRPC_BASE__ = \"a\"<b>\";</script>".to_vec());
}

#[test]
fn inject_prefers_head_then_body_then_start() {
    let s = b"<S>";
    assert_eq!(inject_script(b"<html><head></head><body></body>", s), b"<html><head><S></head><body></body>".to_vec());
    assert_eq!(inject_script(b"<html><body>x</body>", s), b"<html><body><S>x</body>".to_vec());
    assert_eq!(inject_script(b"plain", s), b"<S>plain".to_vec());
    assert_eq!(inject_script(b"</head></head>", s), b"<S></head></head>".to_vec());
    assert_eq!(inject_script(b"<BODY></HEAD>", s), b"<S><BODY></HEAD>".to_vec());
}

#[test]
fn render_text_without_url_is_unchanged() {
    let html = b"<head></head>".to_vec();
    assert_eq!(render_text(html.clone(), None), html);
    assert_eq!(render_text(html.clone(), Some("")), html);
}

#[test]
fn stored_assets_are_served_as_stored() {
    let b = sample_bundle("<html></html>");
    let r = handle_request(&b, "/assets/app.js", Some(URL));
    assert_eq!(r.status, STATUS_OK);
    assert_eq!(r.status, 200);
    assert_eq!(r.content_type.as_deref(), Some("application/javascript"));
    assert_eq!(r.body, b"console.log(1);".to_vec());
    let r = handle_request(&b, "/style.css", None);
    assert_eq!(r.status, 200);
    assert_eq!(r.content_type.as_deref(), Some("text/css"));
    assert_eq!(r.body, b"body{}".to_vec());
}

#[test]
fn missing_assets_are_not_found() {
    let b = sample_bundle("<html></html>");
    for p in ["/nope.js", "/assets/", "/assets/app.jsx", "/index.htm"] {
        let r = handle_request(&b, p, None);
        assert_eq!(r.status, STATUS_NOT_FOUND);
        assert_eq!(r.status, 404);
        assert!(r.body.is_empty());
        assert_eq!(r.content_type, None);
    }
}

#[test]
fn index_unchanged_without_url() {
    let html = "<html><head></head><body>hi</body></html>";
    let b = sample_bundle(html);
    for p in ["/", "/index.html"] {
        let r = handle_request(&b, p, None);
        assert_eq!(r.status, 200);
        assert_eq!(r.content_type.as_deref(), Some("text/html; charset=utf-8"));
        assert_eq!(r.body, html.as_bytes().to_vec());
    }
}

#[test]
fn index_invalid_utf8_is_replaced() {
    let mut b = Bundle::new();
    b.insert("index.html", "text/html", vec![b'a', 0xff, b'b']);
    let r = handle_request(&b, "/", None);
    assert_eq!(r.status, 200);
    assert_eq!(body_text(&r), "a\u{fffd}b");
}

#[test]
fn script_injected_before_head_close() {
    let b = sample_bundle("<html><head><title>t</title></head><body></body></html>");
    let r = handle_request(&b, "/", Some(URL));
    assert_eq!(r.status, 200);
    assert_eq!(
        body_text(&r),
        format!("<html><head><title>t</title>{}</head><body></body></html>", SCRIPT)
    );
}

#[test]
fn script_injected_after_body_open() {
    let b = sample_bundle("<html><body><div></div></body></html>");
    let r = handle_request(&b, "/index.html", Some(URL));
    assert_eq!(body_text(&r), format!("<html><body>{}<div></div></body></html>", SCRIPT));
}

#[test]
fn script_injected_at_start() {
    let b = sample_bundle("<p>hello</p>");
    let r = handle_request(&b, "/", Some(URL));
    assert_eq!(body_text(&r), format!("{}<p>hello</p>", SCRIPT));
}

#[test]
fn empty_url_is_not_injected() {
    let b = sample_bundle("<head></head>");
    let r = handle_request(&b, "/", Some(""));
    assert_eq!(body_text(&r), "<head></head>");
}

#[test]
fn no_index_gives_not_found() {
    let mut b = Bundle::new();
    b.insert("app.js", "application/javascript", b"x".to_vec());
    for p in ["/", "/index.html"] {
        let r = handle_request(&b, p, Some(URL));
        assert_eq!(r.status, 404);
        assert!(r.body.is_empty());
    }
    assert_eq!(render_index(&b, None).status, 404);
}

#[test]
fn entry_paths_recognised() {
    assert!(is_entry_request("/"));
    assert!(is_entry_request("/index.html"));
    assert!(!is_entry_request("index.html"));
    assert!(!is_entry_request("//"));
}

#[test]
fn interleaved_requests_are_independent() {
    let b = sample_bundle("<head></head>");
    let paths = ["/assets/app.js", "/style.css", "/", "/assets/app.js", "/missing", "/style.css"];
    let expected: Vec<(u16, Vec<u8>)> = vec![
        (200, b"console.log(1);".to_vec()),
        (200, b"body{}".to_vec()),
        (200, format!("{}</head>", format!("<head>{}", SCRIPT)).into_bytes()),
        (200, b"console.log(1);".to_vec()),
        (404, Vec::new()),
        (200, b"body{}".to_vec()),
    ];
    for (p, (status, body)) in paths.iter().zip(expected.iter()) {
        let r = handle_request(&b, p, Some(URL));
        assert_eq!(r.status, *status);
        assert_eq!(&r.body, body);
    }
}

#[test]
fn insert_replaces_same_logical_path() {
    let mut b = Bundle::new();
    b.insert("a.txt", "text/plain", b"one".to_vec());
    b.insert("/a.txt", "text/csv", b"two".to_vec());
    assert_eq!(b.len(), 1);
    let a = b.lookup(b"a.txt").unwrap();
    assert_eq!(a.data, b"two".to_vec());
    assert_eq!(a.content_type, "text/csv");
    assert!(b.lookup(b"/a.txt").is_none());
}
