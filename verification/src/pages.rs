//! The synthesized pages and client scripts, and the reload-script
//! injection: the one string transform applied to the generated artifact
//! before it is served.

use vstd::prelude::*;
use vstd::string::StringExecFns;

use crate::http::Response;
use crate::text::contains_seq;
use crate::text::escape_text;
use crate::text::find_sub;
use crate::text::first_index;
use crate::text::first_match_at;
use crate::text::from_chars;
use crate::text::html_escape;
use crate::text::lemma_first_index_of;
use crate::text::match_at;
use crate::text::subvec;
use crate::text::to_chars;
use vstd::string::StringSliceAdditionalSpecFns;

verus! {

/// The closing tag the reload script is injected before.
pub const CLOSE_BODY: &'static str = "</body>";

/// What is injected into the served artifact: the reload client and the
/// status badge, each loaded from its own route.
pub const RELOAD_SNIPPET: &'static str = "<script src=\"/live-reload.js\"></script><script src=\"/status-bar.js\"></script>";

/// The self-contained page served while a build is in flight.
pub const BUILDING_PAGE: &'static str = "<!DOCTYPE html>\n<html>\n<head>\n<meta charset=\"UTF-8\">\n<title>Building</title>\n</head>\n<body>\n<h1>Building</h1>\n<p>Compiling the project. This page will refresh when the build is ready.</p>\n<script src=\"/live-reload.js\"></script>\n</body>\n</html>\n";

/// The page served when the build succeeded but no artifact exists.
pub const NO_OUTPUT_PAGE: &'static str = "<!DOCTYPE html>\n<html>\n<head>\n<meta charset=\"UTF-8\">\n<title>No Output</title>\n</head>\n<body>\n<h1>No HTML output</h1>\n<p>The build succeeded but no output page was found: no output produced at output/index.html.</p>\n<p>Make sure the project generates its page.</p>\n<script src=\"/live-reload.js\"></script>\n</body>\n</html>\n";

/// The minimal themed page for a missing static file.
pub const NOT_FOUND_PAGE: &'static str = "<!DOCTYPE html>\n<html>\n<head>\n<meta charset=\"UTF-8\">\n<title>404 - Not Found</title>\n</head>\n<body>\n<h1>404</h1>\n<p>File Not Found</p>\n</body>\n</html>\n";

/// What stands before the escaped diagnostic on the error page.
pub const ERROR_PAGE_PRE: &'static str = "<!DOCTYPE html>\n<html>\n<head>\n<meta charset=\"UTF-8\">\n<title>Build Error</title>\n</head>\n<body>\n<h1>Build failed</h1>\n<p>Fix the errors below and save to rebuild.</p>\n<pre>";

/// What stands after the escaped diagnostic on the error page.
pub const ERROR_PAGE_POST: &'static str = "</pre>\n<p>Watching for changes - the page will rebuild and refresh.</p>\n<script src=\"/live-reload.js\"></script>\n</body>\n</html>\n";

/// The reload client, served verbatim: opens the event stream, reloads on
/// the `reload` token, and keeps a small status bar polling the status
/// endpoint.
pub const LIVE_RELOAD_SCRIPT: &'static str = "(function() {\n  var source = new EventSource('/events');\n  source.onmessage = function(e) {\n    if (e.data === 'reload') { location.reload(); }\n  };\n  source.onerror = function() {\n    setTimeout(function() { location.reload(); }, 1000);\n  };\n})();\n";

/// The status bar client, served verbatim: polls the status endpoint and
/// paints a fixed badge with the current build state.
pub const STATUS_BAR_SCRIPT: &'static str = "(function() {\n  var bar = document.createElement('div');\n  bar.id = 'dev-status';\n  bar.textContent = 'Live';\n  document.body.appendChild(bar);\n  setInterval(function() {\n    fetch('/build-status').then(function(res) { return res.text(); }).then(function(s) {\n      if (s === 'building') { bar.textContent = 'Building...'; }\n      else if (s === 'success') { bar.textContent = 'Live'; }\n      else if (s === 'failed') { bar.textContent = 'Error'; }\n    });\n  }, 500);\n})();\n";

/// The error page around an escaped diagnostic.
pub open spec fn error_page_text(escaped: Seq<char>) -> Seq<char> {
    ERROR_PAGE_PRE@ + escaped + ERROR_PAGE_POST@
}

/// The artifact with the reload-script reference injected: before the
/// first closing body tag, or appended when there is none.
pub open spec fn injected_text(html: Seq<char>) -> Seq<char> {
    if contains_seq(html, CLOSE_BODY@) {
        let i = first_index(html, CLOSE_BODY@);
        html.subrange(0, i) + RELOAD_SNIPPET@ + html.subrange(i, html.len() as int)
    } else {
        html + "\n"@ + RELOAD_SNIPPET@
    }
}

/// Injects the reload-script reference into a generated page: before the
/// first closing body tag, or appended when no body tag exists.
pub fn inject_reload_script(html: &str) -> (r: String)
    ensures
        r@ == injected_text(html@),
{
    let chars = to_chars(html);
    let pat = to_chars(CLOSE_BODY);
    let found = find_sub(&chars, &pat);
    match found {
        Some(i) => {
            proof {
                lemma_first_index_of(chars@, pat@, i as int);
            }
            let n: usize = chars.len();
            let before = subvec(&chars, 0, i);
            let after = subvec(&chars, i, n);
            let mut page = from_chars(&before);
            page.append(RELOAD_SNIPPET);
            let tail = from_chars(&after);
            page.append(tail.as_str());
            page
        },
        None => {
            let mut page = String::from_str(html);
            page.append("\n");
            page.append(RELOAD_SNIPPET);
            page
        },
    }
}

/// The "please wait" page shown while a build is in flight.
pub fn serve_building_page() -> (r: Response)
    ensures
        r.status == 200,
        r.body@ == BUILDING_PAGE.spec_bytes(),
        r.headers@.len() == 1,
        r.headers@.last().0@ == "Content-Type"@,
        r.headers@.last().1@ == "text/html; charset=utf-8"@,
{
    Response::new(200).html(BUILDING_PAGE)
}

/// The error page: the captured diagnostic, escaped, inside the themed
/// wrapper.
pub fn serve_error_page(error: &str) -> (r: Response)
    ensures
        r.status == 200,
        r.body@ == vstd::utf8::encode_utf8(error_page_text(escape_text(error@))),
        r.headers@.len() == 1,
        r.headers@.last().0@ == "Content-Type"@,
        r.headers@.last().1@ == "text/html; charset=utf-8"@,
{
    let mut page = String::from_str(ERROR_PAGE_PRE);
    let escaped = html_escape(error);
    page.append(escaped.as_str());
    page.append(ERROR_PAGE_POST);
    Response::new(200).html(page.as_str())
}

/// The explanation page when the build succeeded but no artifact exists.
pub fn serve_no_output_page() -> (r: Response)
    ensures
        r.status == 200,
        r.body@ == NO_OUTPUT_PAGE.spec_bytes(),
        r.headers@.len() == 1,
        r.headers@.last().0@ == "Content-Type"@,
        r.headers@.last().1@ == "text/html; charset=utf-8"@,
{
    Response::new(200).html(NO_OUTPUT_PAGE)
}

/// The status bar client as a script response.
pub fn serve_status_bar_script() -> (r: Response)
    ensures
        r.status == 200,
        r.body@ == STATUS_BAR_SCRIPT.spec_bytes(),
        r.headers@.len() == 1,
        r.headers@.last().0@ == "Content-Type"@,
        r.headers@.last().1@ == "application/javascript"@,
{
    Response::new(200).js(STATUS_BAR_SCRIPT)
}

/// The reload client as a script response.
pub fn serve_live_reload_script() -> (r: Response)
    ensures
        r.status == 200,
        r.body@ == LIVE_RELOAD_SCRIPT.spec_bytes(),
        r.headers@.len() == 1,
        r.headers@.last().0@ == "Content-Type"@,
        r.headers@.last().1@ == "application/javascript"@,
{
    Response::new(200).js(LIVE_RELOAD_SCRIPT)
}

/// One event-stream data frame carrying `msg`.
pub fn sse_frame(msg: &str) -> (r: String)
    ensures
        r@ == "data: "@ + msg@ + "\n\n"@,
{
    let mut r = String::from_str("data: ");
    r.append(msg);
    r.append("\n\n");
    r
}

/// The comment-only keepalive frame written when no message arrives
/// within the keepalive interval.
pub fn sse_keepalive_frame() -> (r: &'static str)
    ensures
        r@ == ": keepalive\n\n"@,
{
    ": keepalive\n\n"
}

/// The response head that upgrades a connection to an event stream.
pub fn sse_preamble() -> (r: &'static str)
    ensures
        r@
            == "HTTP/1.1 200 OK\r\nContent-Type: text/event-stream\r\nCache-Control: no-cache\r\nConnection: keep-alive\r\n\r\n"@,
{
    "HTTP/1.1 200 OK\r\nContent-Type: text/event-stream\r\nCache-Control: no-cache\r\nConnection: keep-alive\r\n\r\n"
}

/// Injection keeps the page well formed and visible: the result still
/// holds a closing body tag, carries the reload-script reference, and
/// shows everything the artifact showed before and after the injection
/// point.
pub proof fn lemma_injection_wellformed(html: Seq<char>)
    requires
        contains_seq(html, CLOSE_BODY@),
    ensures
        contains_seq(injected_text(html), CLOSE_BODY@),
        contains_seq(injected_text(html), RELOAD_SNIPPET@),
        forall|pat: Seq<char>, j: int|
            #![trigger match_at(html, pat, j)]
            match_at(html, pat, j) && j + pat.len() <= first_index(html, CLOSE_BODY@)
                ==> contains_seq(injected_text(html), pat),
        forall|pat: Seq<char>, j: int|
            #![trigger match_at(html, pat, j)]
            match_at(html, pat, j) && j >= first_index(html, CLOSE_BODY@) ==> contains_seq(
                injected_text(html),
                pat,
            ),
{
    let i = first_index(html, CLOSE_BODY@);
    let any = choose|w: int| match_at(html, CLOSE_BODY@, w);
    crate::text::lemma_first_match_exists(html, CLOSE_BODY@, any);
    let witness = choose|w: int| first_match_at(html, CLOSE_BODY@, w);
    assert(first_match_at(html, CLOSE_BODY@, witness));
    lemma_first_index_of(html, CLOSE_BODY@, witness);
    let r = injected_text(html);
    let snip = RELOAD_SNIPPET@;
    assert(r == html.subrange(0, i) + snip + html.subrange(i, html.len() as int));
    assert(r.subrange(i, i + snip.len() as int) =~= snip);
    assert(contains_seq(r, RELOAD_SNIPPET@)) by {
        assert(match_at(r, snip, i));
    }
    assert forall|pat: Seq<char>, j: int|
        match_at(html, pat, j) && j + pat.len() <= i implies contains_seq(r, pat) by {
        assert(r.subrange(j, j + pat.len() as int) =~= html.subrange(j, j + pat.len() as int));
        assert(match_at(r, pat, j));
    }
    assert forall|pat: Seq<char>, j: int|
        match_at(html, pat, j) && j >= i implies contains_seq(r, pat) by {
        let k = j + snip.len() as int;
        assert(r.subrange(k, k + pat.len() as int) =~= html.subrange(j, j + pat.len() as int));
        assert(match_at(r, pat, k));
    }
    assert(match_at(html, CLOSE_BODY@, i));
    assert(contains_seq(r, CLOSE_BODY@));
}

} // verus!
