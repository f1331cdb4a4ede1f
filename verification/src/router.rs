//! Routing: from a parsed request and a snapshot of the world — build
//! state, artifact contents, static-file contents — to the response.
//! First match wins: the event-stream path, the status path, the
//! traversal rejection, the generated page for the root and extensionless
//! paths, and static files for the rest.

use vstd::prelude::*;
use vstd::string::StringExecFns;
use vstd::string::StringSliceAdditionalSpecFns;
use vstd::utf8::encode_utf8;

use crate::http::Request;
use crate::http::Response;
use crate::http::header_lookup;
use crate::pages::BUILDING_PAGE;
use crate::pages::NOT_FOUND_PAGE;
use crate::pages::NO_OUTPUT_PAGE;
use crate::pages::error_page_text;
use crate::pages::inject_reload_script;
use crate::pages::injected_text;
use crate::pages::LIVE_RELOAD_SCRIPT;
use crate::pages::STATUS_BAR_SCRIPT;
use crate::pages::serve_building_page;
use crate::pages::serve_error_page;
use crate::pages::serve_live_reload_script;
use crate::pages::serve_no_output_page;
use crate::pages::serve_status_bar_script;
use crate::state::BuildState;
use crate::state::build_status_text;
use crate::state::status_text;
use crate::text::contains_seq;
use crate::text::contains_sub;
use crate::text::ends_with_text;
use crate::text::escape_text;
use crate::text::eq_at;
use crate::text::find_sub;
use crate::text::first_index;
use crate::text::lemma_first_index_of;
use crate::text::match_at;
use crate::text::str_eq;
use crate::text::to_chars;

verus! {

broadcast use vstd::string::group_string_axioms;

/// Where the generated artifact is expected on disk.
pub const ARTIFACT_PATH: &'static str = "output/index.html";

/// The directory static files are served from.
pub const OUTPUT_DIR: &'static str = "output";

/// The directory whose contents are mirrored into the output directory
/// after a successful build.
pub const ASSETS_DIR: &'static str = "Assets";

/// What the server knows at the moment it answers one request: a
/// point-in-time build state, the artifact contents if readable, and the
/// contents of the static file this request names, if one was read.
pub struct ServeContext {
    pub status: BuildState,
    pub artifact: Option<String>,
    pub static_file: Option<Vec<u8>>,
}

/// The path contains a parent-directory segment.
pub open spec fn has_dotdot(path: Seq<char>) -> bool {
    contains_seq(path, seq!['.', '.'])
}

/// The path up to its query string, if it has one.
pub open spec fn strip_query(path: Seq<char>) -> Seq<char> {
    if contains_seq(path, seq!['?']) {
        path.subrange(0, first_index(path, seq!['?']))
    } else {
        path
    }
}

/// The segment after the last slash.
pub open spec fn last_segment(s: Seq<char>) -> Seq<char>
    decreases s.len(),
{
    if s.len() == 0 {
        Seq::empty()
    } else if s.last() == '/' {
        Seq::empty()
    } else {
        last_segment(s.drop_last()).push(s.last())
    }
}

/// The root, and any path whose last segment has no file extension, are
/// served the generated page: the client-side-route fallback.
pub open spec fn spa_route(path: Seq<char>) -> bool {
    path == "/"@ || !contains_seq(last_segment(strip_query(path)), seq!['.'])
}

/// The content type chosen for a file path, by its extension.
pub open spec fn content_type_text(path: Seq<char>) -> Seq<char> {
    if ends_with_text(path, ".html"@) {
        "text/html; charset=utf-8"@
    } else if ends_with_text(path, ".css"@) {
        "text/css; charset=utf-8"@
    } else if ends_with_text(path, ".js"@) {
        "application/javascript; charset=utf-8"@
    } else if ends_with_text(path, ".json"@) {
        "application/json; charset=utf-8"@
    } else if ends_with_text(path, ".png"@) {
        "image/png"@
    } else if ends_with_text(path, ".jpg"@) || ends_with_text(path, ".jpeg"@) {
        "image/jpeg"@
    } else if ends_with_text(path, ".gif"@) {
        "image/gif"@
    } else if ends_with_text(path, ".svg"@) {
        "image/svg+xml"@
    } else if ends_with_text(path, ".webp"@) {
        "image/webp"@
    } else if ends_with_text(path, ".woff"@) {
        "font/woff"@
    } else if ends_with_text(path, ".woff2"@) {
        "font/woff2"@
    } else if ends_with_text(path, ".ttf"@) {
        "font/ttf"@
    } else if ends_with_text(path, ".otf"@) {
        "font/otf"@
    } else {
        "application/octet-stream"@
    }
}

/// The body served for the root and for client-side routes, given the
/// build state and the artifact: the wait page while building, the error
/// page after a failure, else the artifact with the reload script
/// injected, or the no-output explanation when the artifact is missing.
pub open spec fn generated_body_text(status: BuildState, artifact: Option<String>) -> Seq<char> {
    match status {
        BuildState::Building => BUILDING_PAGE@,
        BuildState::Failed { message } => error_page_text(escape_text(message@)),
        _ => match artifact {
            Some(html) => injected_text(html@),
            None => NO_OUTPUT_PAGE@,
        },
    }
}

/// Whether the file path ends with the given suffix.
fn has_suffix(chars: &Vec<char>, sfx: &str) -> (r: bool)
    ensures
        r == ends_with_text(chars@, sfx@),
{
    let s = to_chars(sfx);
    if chars.len() >= s.len() {
        eq_at(chars, &s, chars.len() - s.len())
    } else {
        false
    }
}

/// The content type for a file path, from the fixed extension table;
/// unknown extensions get the generic binary type.
pub fn content_type_for(path: &str) -> (r: &'static str)
    ensures
        r@ == content_type_text(path@),
{
    let chars = to_chars(path);
    if has_suffix(&chars, ".html") {
        "text/html; charset=utf-8"
    } else if has_suffix(&chars, ".css") {
        "text/css; charset=utf-8"
    } else if has_suffix(&chars, ".js") {
        "application/javascript; charset=utf-8"
    } else if has_suffix(&chars, ".json") {
        "application/json; charset=utf-8"
    } else if has_suffix(&chars, ".png") {
        "image/png"
    } else if has_suffix(&chars, ".jpg") {
        "image/jpeg"
    } else if has_suffix(&chars, ".jpeg") {
        "image/jpeg"
    } else if has_suffix(&chars, ".gif") {
        "image/gif"
    } else if has_suffix(&chars, ".svg") {
        "image/svg+xml"
    } else if has_suffix(&chars, ".webp") {
        "image/webp"
    } else if has_suffix(&chars, ".woff") {
        "font/woff"
    } else if has_suffix(&chars, ".woff2") {
        "font/woff2"
    } else if has_suffix(&chars, ".ttf") {
        "font/ttf"
    } else if has_suffix(&chars, ".otf") {
        "font/otf"
    } else {
        "application/octet-stream"
    }
}

/// The last segment of a slash-free suffix is that suffix.
proof fn lemma_last_segment_after_slash(s: Seq<char>, j: int)
    requires
        0 <= j <= s.len(),
        forall|k: int| j <= k < s.len() ==> s[k] != '/',
        j > 0 ==> s[j - 1] == '/',
    ensures
        last_segment(s) == s.subrange(j, s.len() as int),
    decreases s.len() - j,
{
    if j == s.len() {
        assert(s.subrange(j, s.len() as int) =~= Seq::<char>::empty());
    } else {
        assert(s.last() != '/');
        lemma_last_segment_after_slash(s.drop_last(), j);
        assert(s.drop_last().subrange(j, s.len() - 1).push(s.last()) =~= s.subrange(
            j,
            s.len() as int,
        ));
    }
}

/// Whether a request path is served the generated page.
pub fn is_spa_route(path: &str) -> (r: bool)
    ensures
        r == spa_route(path@),
{
    if str_eq(path, "/") {
        return true;
    }
    let chars = to_chars(path);
    let n: usize = chars.len();
    let mut qmark: Vec<char> = Vec::new();
    qmark.push('?');
    assert(qmark@ =~= seq!['?']);
    let query = find_sub(&chars, &qmark);
    let end: usize = match query {
        Some(i) => {
            proof {
                lemma_first_index_of(chars@, qmark@, i as int);
            }
            i
        },
        None => {
            assert(chars@.subrange(0, n as int) =~= chars@);
            n
        },
    };
    assert(strip_query(path@) == chars@.subrange(0, end as int));
    let ghost stripped = chars@.subrange(0, end as int);
    let mut j: usize = end;
    while j > 0 && chars[j - 1] != '/'
        invariant
            j <= end <= n,
            n == chars@.len(),
            forall|k: int| j <= k < end ==> chars@[k] != '/',
        decreases j,
    {
        j = j - 1;
    }
    proof {
        assert forall|k: int| j <= k < stripped.len() implies stripped[k] != '/' by {
            assert(stripped[k] == chars@[k]);
        }
        lemma_last_segment_after_slash(stripped, j as int);
        assert(stripped.subrange(j as int, stripped.len() as int) =~= chars@.subrange(
            j as int,
            end as int,
        ));
    }
    let ghost segment = chars@.subrange(j as int, end as int);
    let mut k: usize = j;
    while k < end
        invariant
            j <= k <= end <= n,
            n == chars@.len(),
            chars@ == path@,
            path@ != "/"@,
            segment == chars@.subrange(j as int, end as int),
            last_segment(strip_query(path@)) == segment,
            forall|m: int| j <= m < k ==> chars@[m] != '.',
        decreases end - k,
    {
        if chars[k] == '.' {
            assert(contains_seq(segment, seq!['.'])) by {
                assert(segment.subrange(k - j, k - j + 1) =~= seq!['.']);
                assert(match_at(segment, seq!['.'], k - j));
            }
            return false;
        }
        k = k + 1;
    }
    assert(!contains_seq(segment, seq!['.'])) by {
        assert forall|i: int| !match_at(segment, seq!['.'], i) by {
            if 0 <= i && i + 1 <= segment.len() {
                assert(segment.subrange(i, i + 1)[0] == segment[i]);
                assert(segment[i] == chars@[j + i]);
            }
        }
    }
    true
}

/// Serves a static file: a path with a parent-directory segment is
/// rejected outright as not found, never served; otherwise the given
/// contents are served under the extension-derived content type, and
/// missing contents get the minimal themed not-found page.
pub fn serve_static_file(path: &str, contents: &Option<Vec<u8>>) -> (r: Response)
    ensures
        has_dotdot(path@) ==> r.status == 404 && r.body@ == "Not Found".spec_bytes(),
        !has_dotdot(path@) ==> match contents {
            Some(bytes) => {
                &&& r.status == 200
                &&& r.body@ == bytes@
                &&& r.headers@.len() == 1
                &&& r.headers@.last().0@ == "Content-Type"@
                &&& r.headers@.last().1@ == content_type_text(path@)
            },
            None => {
                &&& r.status == 404
                &&& r.body@ == NOT_FOUND_PAGE.spec_bytes()
                &&& r.headers@.len() == 1
                &&& r.headers@.last().0@ == "Content-Type"@
                &&& r.headers@.last().1@ == "text/html; charset=utf-8"@
            },
        },
{
    let chars = to_chars(path);
    let mut dotdot: Vec<char> = Vec::new();
    dotdot.push('.');
    dotdot.push('.');
    assert(dotdot@ =~= seq!['.', '.']);
    if contains_sub(&chars, &dotdot) {
        return Response::new(404).text("Not Found");
    }
    match contents {
        Some(bytes) => {
            let mut resp = Response::new(200);
            resp.body = clone_bytes(bytes);
            let ct = content_type_for(path);
            resp.set_header("Content-Type", ct);
            resp
        },
        None => Response::new(404).html(NOT_FOUND_PAGE),
    }
}

/// Copies a byte vector.
fn clone_bytes(bytes: &Vec<u8>) -> (r: Vec<u8>)
    ensures
        r@ == bytes@,
{
    let n: usize = bytes.len();
    let mut r: Vec<u8> = Vec::new();
    let mut i: usize = 0;
    while i < n
        invariant
            n == bytes@.len(),
            i <= n,
            r@ == bytes@.subrange(0, i as int),
        decreases n - i,
    {
        r.push(bytes[i]);
        i = i + 1;
        assert(r@ =~= bytes@.subrange(0, i as int));
    }
    assert(r@ =~= bytes@);
    r
}

/// Serves the generated page for the current build state: the wait page
/// while building, the error page after a failure, else the artifact with
/// the reload script injected, or the no-output explanation.
pub fn serve_generated_html(status: &BuildState, artifact: &Option<String>) -> (r: Response)
    ensures
        r.status == 200,
        r.body@ == encode_utf8(generated_body_text(*status, *artifact)),
        r.headers@.len() == 1,
        r.headers@.last().0@ == "Content-Type"@,
        r.headers@.last().1@ == "text/html; charset=utf-8"@,
{
    match status {
        BuildState::Building => serve_building_page(),
        BuildState::Failed { message } => serve_error_page(message.as_str()),
        _ => match artifact {
            Some(html) => {
                let injected = inject_reload_script(html.as_str());
                Response::new(200).html(injected.as_str())
            },
            None => serve_no_output_page(),
        },
    }
}

/// A path the router answers by itself, before any look at the disk: the
/// event-stream path, the status path, and the two client scripts the
/// synthesized pages reference.
pub open spec fn special_route(path: Seq<char>) -> bool {
    ||| path == "/events"@
    ||| path == "/build-status"@
    ||| path == "/live-reload.js"@
    ||| path == "/status-bar.js"@
}

/// Routes one request to its response, given the snapshot the handler
/// took: first match wins among the event-stream path, the status path,
/// the two client scripts, the rejection of parent-directory segments,
/// the generated page for the root and extensionless paths, and static
/// files for the rest. The event-stream branch only marks the route; the
/// connection handler upgrades such a connection before building a
/// response.
pub fn handle_request(req: &Request, ctx: &ServeContext) -> (r: Response)
    ensures
        req.path@ == "/events"@ ==> r.status == 200 && r.body@.len() == 0,
        req.path@ != "/events"@ && req.path@ == "/build-status"@ ==> {
            &&& r.status == 200
            &&& r.body@ == encode_utf8(status_text(ctx.status))
            &&& header_lookup(r.headers@, "Cache-Control"@) == Some("no-cache"@)
            &&& header_lookup(r.headers@, "Content-Type"@) == Some("text/plain"@)
        },
        req.path@ != "/events"@ && req.path@ != "/build-status"@ && req.path@
            == "/live-reload.js"@ ==> r.status == 200 && r.body@ == LIVE_RELOAD_SCRIPT.spec_bytes()
            && header_lookup(r.headers@, "Content-Type"@) == Some("application/javascript"@),
        req.path@ != "/events"@ && req.path@ != "/build-status"@ && req.path@
            != "/live-reload.js"@ && req.path@ == "/status-bar.js"@ ==> r.status == 200 && r.body@
            == STATUS_BAR_SCRIPT.spec_bytes() && header_lookup(r.headers@, "Content-Type"@)
            == Some("application/javascript"@),
        !special_route(req.path@) && has_dotdot(req.path@) ==> r.status == 404 && r.body@
            == NOT_FOUND_PAGE.spec_bytes() && header_lookup(r.headers@, "Content-Type"@) == Some(
            "text/html; charset=utf-8"@,
        ),
        !special_route(req.path@) && !has_dotdot(req.path@) && spa_route(req.path@) ==> r.status
            == 200 && r.body@ == encode_utf8(generated_body_text(ctx.status, ctx.artifact))
            && header_lookup(r.headers@, "Content-Type"@) == Some("text/html; charset=utf-8"@),
        !special_route(req.path@) && !has_dotdot(req.path@) && !spa_route(req.path@)
            ==> match ctx.static_file {
            Some(bytes) => r.status == 200 && r.body@ == bytes@ && r.headers@.len() == 1
                && r.headers@.last().0@ == "Content-Type"@ && r.headers@.last().1@
                == content_type_text(req.path@),
            None => r.status == 404 && r.body@ == NOT_FOUND_PAGE.spec_bytes(),
        },
{
    if str_eq(req.path.as_str(), "/events") {
        let r = Response::new(200);
        return r;
    }
    if str_eq(req.path.as_str(), "/build-status") {
        let tag = build_status_text(&ctx.status);
        let mut resp = Response::new(200).text(tag);
        resp.set_header("Cache-Control", "no-cache");
        proof {
            // The two header names differ (their lengths do), so the
            // appended cache directive leaves the content type readable.
            reveal_strlit("Content-Type");
            reveal_strlit("Cache-Control");
            assert("Content-Type"@.len() == 12);
            assert("Cache-Control"@.len() == 13);
            assert(resp.headers@.last().0@ == "Cache-Control"@);
            assert(resp.headers@.drop_last().last().0@ == "Content-Type"@);
            assert(header_lookup(resp.headers@, "Content-Type"@) == header_lookup(
                resp.headers@.drop_last(),
                "Content-Type"@,
            ));
            assert(header_lookup(resp.headers@.drop_last(), "Content-Type"@) == Some(
                "text/plain"@,
            ));
        }
        return resp;
    }
    if str_eq(req.path.as_str(), "/live-reload.js") {
        return serve_live_reload_script();
    }
    if str_eq(req.path.as_str(), "/status-bar.js") {
        return serve_status_bar_script();
    }
    let chars = to_chars(req.path.as_str());
    let mut dotdot: Vec<char> = Vec::new();
    dotdot.push('.');
    dotdot.push('.');
    assert(dotdot@ =~= seq!['.', '.']);
    if contains_sub(&chars, &dotdot) {
        return Response::new(404).html(NOT_FOUND_PAGE);
    }
    if is_spa_route(req.path.as_str()) {
        return serve_generated_html(&ctx.status, &ctx.artifact);
    }
    serve_static_file(req.path.as_str(), &ctx.static_file)
}

/// Whether answering this request takes a static file's contents: what
/// the connection handler checks before reading from disk.
pub fn wants_static_file(path: &str) -> (r: bool)
    ensures
        r == (!special_route(path@) && !has_dotdot(path@) && !spa_route(path@)),
{
    if str_eq(path, "/events") {
        return false;
    }
    if str_eq(path, "/build-status") {
        return false;
    }
    if str_eq(path, "/live-reload.js") {
        return false;
    }
    if str_eq(path, "/status-bar.js") {
        return false;
    }
    let chars = to_chars(path);
    let mut dotdot: Vec<char> = Vec::new();
    dotdot.push('.');
    dotdot.push('.');
    assert(dotdot@ =~= seq!['.', '.']);
    if contains_sub(&chars, &dotdot) {
        return false;
    }
    !is_spa_route(path)
}

/// The on-disk path a static request is served from: the request path
/// under the output directory.
pub fn static_target(path: &str) -> (r: String)
    ensures
        r@ == OUTPUT_DIR@ + path@,
{
    let mut r = String::from_str(OUTPUT_DIR);
    r.append(path);
    r
}

} // verus!
