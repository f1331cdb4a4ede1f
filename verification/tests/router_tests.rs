use shtml_dev::AppState;
use shtml_dev::BuildState;
use shtml_dev::NOT_FOUND_PAGE;
use shtml_dev::RELOAD_SNIPPET;
use shtml_dev::Request;
use shtml_dev::Response;
use shtml_dev::ReloadHub;
use shtml_dev::ServeContext;
use shtml_dev::StepOutput;
use shtml_dev::classify_build;
use shtml_dev::content_type_for;
use shtml_dev::finish_build;
use shtml_dev::handle_request;
use shtml_dev::inject_reload_script;
use shtml_dev::serve_generated_html;
use shtml_dev::serve_static_file;
use shtml_dev::set_build_status;
use shtml_dev::static_target;
use shtml_dev::wants_static_file;

fn get(path: &str) -> Request {
    Request { method: String::from("GET"), path: String::from(path), headers: Vec::new() }
}

fn ctx(status: BuildState, artifact: Option<&str>, file: Option<Vec<u8>>) -> ServeContext {
    ServeContext { status, artifact: artifact.map(String::from), static_file: file }
}

fn last_header(resp: &Response, key: &str) -> Option<String> {
    resp.headers
        .iter()
        .rev()
        .find(|(k, _)| k == key)
        .map(|(_, v)| v.clone())
}

#[test]
fn build_status_of_a_failure_is_the_bare_tag() {
    let c = ctx(BuildState::Failed { message: String::from("boom") }, None, None);
    let r = handle_request(&get("/build-status"), &c);
    assert_eq!(r.status, 200);
    assert_eq!(r.body, b"failed".to_vec());
    assert_eq!(last_header(&r, "Cache-Control").as_deref(), Some("no-cache"));
    assert_eq!(last_header(&r, "Content-Type").as_deref(), Some("text/plain"));
}

#[test]
fn build_status_tags_by_state() {
    let building = ctx(BuildState::Building, None, None);
    assert_eq!(handle_request(&get("/build-status"), &building).body, b"building".to_vec());
    let idle = ctx(BuildState::Idle, None, None);
    assert_eq!(handle_request(&get("/build-status"), &idle).body, b"unknown".to_vec());
    let ok = ctx(BuildState::Success { duration_ms: 1, artifact_size: 2 }, None, None);
    assert_eq!(handle_request(&get("/build-status"), &ok).body, b"success".to_vec());
}

#[test]
fn traversal_paths_never_serve_file_contents() {
    let secret = b"root:x:0:0".to_vec();
    let c = ctx(
        BuildState::Success { duration_ms: 1, artifact_size: 2 },
        Some("<html><body>Hi</body></html>"),
        Some(secret.clone()),
    );
    let r = handle_request(&get("/../../etc/passwd"), &c);
    assert_eq!(r.status, 404);
    assert_eq!(r.body, NOT_FOUND_PAGE.as_bytes().to_vec());
    assert_eq!(last_header(&r, "Content-Type").as_deref(), Some("text/html; charset=utf-8"));
    assert_ne!(r.body, secret);

    let direct = serve_static_file("/../../etc/passwd", &Some(secret.clone()));
    assert_eq!(direct.status, 404);
    assert_ne!(direct.body, secret);
}

#[test]
fn injection_round_trip_keeps_body_and_markup() {
    let artifact = "<html><body>Hi</body></html>";
    let c = ctx(
        BuildState::Success { duration_ms: 1, artifact_size: 2 },
        Some(artifact),
        None,
    );
    let r = handle_request(&get("/"), &c);
    assert_eq!(r.status, 200);
    assert_eq!(last_header(&r, "Content-Type").as_deref(), Some("text/html; charset=utf-8"));
    let body = String::from_utf8(r.body).unwrap();
    let expected = format!("<html><body>Hi{}</body></html>", RELOAD_SNIPPET);
    assert_eq!(body, expected);
    assert!(body.contains("Hi"));
    assert!(body.contains("/live-reload.js"));
    assert!(body.contains("/status-bar.js"));
    assert!(body.contains("</body>"));
}

#[test]
fn injection_inserts_before_the_first_close_tag_only() {
    let injected = inject_reload_script("<body>a</body><body>b</body>");
    let expected = format!("<body>a{}</body><body>b</body>", RELOAD_SNIPPET);
    assert_eq!(injected, expected);
}

#[test]
fn injection_appends_when_no_body_tag_exists() {
    let injected = inject_reload_script("bare fragment");
    assert_eq!(injected, format!("bare fragment\n{}", RELOAD_SNIPPET));
}

#[test]
fn missing_artifact_after_success_reports_no_output() {
    let c = ctx(BuildState::Success { duration_ms: 1, artifact_size: 0 }, None, None);
    let r = handle_request(&get("/"), &c);
    assert_eq!(r.status, 200);
    let body = String::from_utf8(r.body).unwrap();
    assert!(body.contains("no output produced"));
}

#[test]
fn building_state_serves_the_wait_page() {
    let c = ctx(BuildState::Building, Some("<html><body>old</body></html>"), None);
    let r = handle_request(&get("/"), &c);
    assert_eq!(r.status, 200);
    let body = String::from_utf8(r.body).unwrap();
    assert!(body.contains("Building"));
    assert!(body.contains("/live-reload.js"));
}

#[test]
fn failed_build_serves_the_escaped_diagnostic() {
    let r = serve_generated_html(
        &BuildState::Failed { message: String::from("expected <tag> & more") },
        &None,
    );
    assert_eq!(r.status, 200);
    let body = String::from_utf8(r.body).unwrap();
    assert!(body.contains("expected &lt;tag&gt; &amp; more"));
    assert!(!body.contains("expected <tag>"));
}

#[test]
fn compile_failure_flows_to_state_stream_and_page() {
    // The compile step exits non-zero with a diagnostic on stderr.
    let outcome = classify_build(
        &StepOutput {
            ok: false,
            stdout: String::new(),
            stderr: String::from("syntax error line 4"),
        },
        &None,
    );
    let mut s = AppState::new(3000, String::from("127.0.0.1"));
    let mut hub = ReloadHub::new();
    let rx = hub.subscribe();
    set_build_status(&mut s, BuildState::Building);
    finish_build(&mut s, &mut hub, &outcome, 7, 0);

    // The state carries the captured diagnostic.
    let message = match &s.build_state {
        BuildState::Failed { message } => message.clone(),
        other => panic!("unexpected state {:?}", other),
    };
    assert!(message.contains("syntax error line 4"));

    // Subscribers hear about the failed build too.
    assert_eq!(rx.try_recv().unwrap(), "reload");

    // The root page renders the diagnostic, escaped.
    let c = ServeContext { status: s.build_state, artifact: None, static_file: None };
    let r = handle_request(&get("/"), &c);
    assert_eq!(r.status, 200);
    let body = String::from_utf8(r.body).unwrap();
    assert!(body.contains("syntax error line 4"));
}

#[test]
fn extensionless_paths_fall_back_to_the_generated_page() {
    let c = ctx(
        BuildState::Success { duration_ms: 1, artifact_size: 2 },
        Some("<html><body>App</body></html>"),
        None,
    );
    let r = handle_request(&get("/some/client/route"), &c);
    assert_eq!(r.status, 200);
    assert!(String::from_utf8(r.body).unwrap().contains("App"));
    let with_query = handle_request(&get("/route?tab=2"), &c);
    assert!(String::from_utf8(with_query.body).unwrap().contains("App"));
}

#[test]
fn static_files_serve_bytes_with_their_content_type() {
    let c = ctx(BuildState::Idle, None, Some(vec![1, 2, 3]));
    let r = handle_request(&get("/img.png"), &c);
    assert_eq!(r.status, 200);
    assert_eq!(r.body, vec![1, 2, 3]);
    let direct = serve_static_file("/img.png", &Some(vec![1, 2, 3]));
    assert_eq!(last_header(&direct, "Content-Type").as_deref(), Some("image/png"));
}

#[test]
fn missing_static_file_gets_the_themed_page() {
    let c = ctx(BuildState::Idle, None, None);
    let r = handle_request(&get("/missing.css"), &c);
    assert_eq!(r.status, 404);
    assert_eq!(r.body, NOT_FOUND_PAGE.as_bytes().to_vec());
}

#[test]
fn content_types_by_extension() {
    assert_eq!(content_type_for("/a.html"), "text/html; charset=utf-8");
    assert_eq!(content_type_for("/a.css"), "text/css; charset=utf-8");
    assert_eq!(content_type_for("/a.js"), "application/javascript; charset=utf-8");
    assert_eq!(content_type_for("/a.json"), "application/json; charset=utf-8");
    assert_eq!(content_type_for("/a.jpeg"), "image/jpeg");
    assert_eq!(content_type_for("/a.svg"), "image/svg+xml");
    assert_eq!(content_type_for("/a.woff2"), "font/woff2");
    assert_eq!(content_type_for("/a.woff"), "font/woff");
    assert_eq!(content_type_for("/a.bin"), "application/octet-stream");
}

#[test]
fn static_route_and_target() {
    assert!(wants_static_file("/style.css"));
    assert!(!wants_static_file("/"));
    assert!(!wants_static_file("/events"));
    assert!(!wants_static_file("/build-status"));
    assert!(!wants_static_file("/../style.css"));
    assert!(!wants_static_file("/client/route"));
    assert_eq!(static_target("/style.css"), "output/style.css");
}

#[test]
fn client_scripts_are_served_verbatim() {
    let c = ctx(BuildState::Idle, None, None);
    let reload = handle_request(&get("/live-reload.js"), &c);
    assert_eq!(reload.status, 200);
    assert_eq!(last_header(&reload, "Content-Type").as_deref(), Some("application/javascript"));
    let body = String::from_utf8(reload.body).unwrap();
    assert!(body.contains("EventSource('/events')"));
    assert!(body.contains("location.reload()"));
    let bar = handle_request(&get("/status-bar.js"), &c);
    assert_eq!(bar.status, 200);
    assert!(String::from_utf8(bar.body).unwrap().contains("/build-status"));
}

#[test]
fn events_route_is_marked_for_upgrade() {
    let c = ctx(BuildState::Idle, None, None);
    let r = handle_request(&get("/events"), &c);
    assert_eq!(r.status, 200);
    assert!(r.body.is_empty());
}
