use shtml_dev::Response;
use shtml_dev::html_escape;
use shtml_dev::parse_request;
use shtml_dev::render_response;

fn last_header(resp: &Response, key: &str) -> Option<String> {
    resp.headers
        .iter()
        .rev()
        .find(|(k, _)| k == key)
        .map(|(_, v)| v.clone())
}

#[test]
fn parse_request_line_and_headers() {
    let lines = vec![
        String::from("GET /index.html HTTP/1.1"),
        String::from("Host: localhost:3000"),
        String::from("  X-Spaced :  padded value  "),
        String::from("not a header line"),
    ];
    let req = parse_request(&lines).expect("a well-formed head parses");
    assert_eq!(req.method, "GET");
    assert_eq!(req.path, "/index.html");
    assert_eq!(req.headers.len(), 2);
    assert_eq!(req.headers[0], (String::from("host"), String::from("localhost:3000")));
    assert_eq!(req.headers[1], (String::from("x-spaced"), String::from("padded value")));
}

#[test]
fn parse_request_duplicate_key_keeps_both_last_wins() {
    let lines = vec![
        String::from("GET / HTTP/1.1"),
        String::from("X-Dup: a"),
        String::from("X-Dup: b"),
    ];
    let req = parse_request(&lines).unwrap();
    let v = req
        .headers
        .iter()
        .rev()
        .find(|(k, _)| k == "x-dup")
        .map(|(_, v)| v.clone());
    assert_eq!(v.as_deref(), Some("b"));
}

#[test]
fn parse_request_rejects_malformed_heads() {
    assert!(parse_request(&Vec::new()).is_none());
    assert!(parse_request(&vec![String::new()]).is_none());
    assert!(parse_request(&vec![String::from("GET")]).is_none());
    assert!(parse_request(&vec![String::from("   ")]).is_none());
}

#[test]
fn render_fills_in_length_and_connection() {
    let mut resp = Response::new(200).text("hi");
    let head = render_response(&mut resp);
    assert!(head.starts_with("HTTP/1.1 200 OK\r\n"));
    assert!(head.contains("Content-Type: text/plain\r\n"));
    assert!(head.contains("Content-Length: 2\r\n"));
    assert!(head.contains("Connection: close\r\n"));
    assert!(head.ends_with("\r\n\r\n"));
    assert_eq!(resp.body, b"hi".to_vec());
}

#[test]
fn render_replaces_a_preset_content_length() {
    // Content-Length always comes from the actual body size; a value the
    // caller preset does not survive.
    let mut resp = Response::new(200);
    resp.set_header("Content-Length", "999");
    let head = render_response(&mut resp);
    assert!(head.contains("Content-Length: 0\r\n"));
    assert!(!head.contains("Content-Length: 999"));
}

#[test]
fn render_keeps_an_explicit_connection_header() {
    let mut resp = Response::new(200).text("x");
    resp.set_header("Connection", "keep-alive");
    let head = render_response(&mut resp);
    assert!(head.contains("Connection: keep-alive\r\n"));
    assert!(!head.contains("Connection: close\r\n"));
}

#[test]
fn render_reason_phrases() {
    let mut nf = Response::new(404);
    assert!(render_response(&mut nf).starts_with("HTTP/1.1 404 Not Found\r\n"));
    let mut bad = Response::new(400);
    assert!(render_response(&mut bad).starts_with("HTTP/1.1 400 Bad Request\r\n"));
    assert_eq!(last_header(&nf, "Content-Length").as_deref(), Some("0"));
}

#[test]
fn escape_rewrites_every_special_character() {
    assert_eq!(html_escape("<&\"'>"), "&lt;&amp;&quot;&#x27;&gt;");
    assert_eq!(html_escape("plain text"), "plain text");
    assert_eq!(html_escape(""), "");
    assert_eq!(html_escape("a<b>c"), "a&lt;b&gt;c");
}
