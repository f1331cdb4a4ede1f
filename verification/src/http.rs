//! Minimal HTTP/1.1 requests and responses: parsing the request head from
//! its lines, and rendering a response head with the `Content-Length` and
//! `Connection` defaults filled in.

use vstd::prelude::*;
use vstd::string::StrSliceExecFns;
use vstd::string::StringExecFns;
use vstd::string::StringSliceAdditionalSpecFns;

use crate::text::dec_rep;
use crate::text::drop_token;
use crate::text::first_index;
use crate::text::contains_seq;
use crate::text::find_sub;
use crate::text::from_chars;
use crate::text::lemma_first_index_of;
use crate::text::lower_text;
use crate::text::next_token;
use crate::text::push_char;
use crate::text::skip_spaces;
use crate::text::subvec;
use crate::text::take_token;
use crate::text::to_chars;
use crate::text::to_lower;
use crate::text::trim_chars;
use crate::text::trim_text;
use crate::text::u64_to_string;

verus! {

broadcast use vstd::string::group_string_axioms;

/// One parsed request head: method, path, and the header mapping with
/// keys lowercased — lookups are case-insensitive, and on a duplicate key
/// the last entry wins.
pub struct Request {
    pub method: String,
    pub path: String,
    pub headers: Vec<(String, String)>,
}

/// One response: status code, header mapping, body bytes.
pub struct Response {
    pub status: u16,
    pub headers: Vec<(String, String)>,
    pub body: Vec<u8>,
}

/// What a header mapping binds `key` to: the value of the last entry
/// under that key, if any.
pub open spec fn header_lookup(hs: Seq<(String, String)>, key: Seq<char>) -> Option<Seq<char>>
    decreases hs.len(),
{
    if hs.len() == 0 {
        None
    } else if hs.last().0@ == key {
        Some(hs.last().1@)
    } else {
        header_lookup(hs.drop_last(), key)
    }
}

impl Response {
    /// An empty response carrying only a status code.
    pub fn new(status: u16) -> (r: Response)
        ensures
            r.status == status,
            r.headers@.len() == 0,
            r.body@.len() == 0,
    {
        Response { status, headers: Vec::new(), body: Vec::new() }
    }

    /// The response with `content` as its body and an HTML content type.
    pub fn html(self, content: &str) -> (r: Response)
        ensures
            r.status == self.status,
            r.body@ == content.spec_bytes(),
            r.headers@.len() == self.headers@.len() + 1,
            r.headers@.drop_last() == self.headers@,
            r.headers@.last().0@ == "Content-Type"@,
            r.headers@.last().1@ == "text/html; charset=utf-8"@,
    {
        let ghost orig_headers = self.headers@;
        let mut r = self;
        r.body = content.as_bytes_vec();
        r.headers.push(
            (String::from_str("Content-Type"), String::from_str("text/html; charset=utf-8")),
        );
        assert(r.headers@.drop_last() =~= orig_headers);
        r
    }

    /// The response with `content` as its body and a script content type.
    pub fn js(self, content: &str) -> (r: Response)
        ensures
            r.status == self.status,
            r.body@ == content.spec_bytes(),
            r.headers@.len() == self.headers@.len() + 1,
            r.headers@.drop_last() == self.headers@,
            r.headers@.last().0@ == "Content-Type"@,
            r.headers@.last().1@ == "application/javascript"@,
    {
        let ghost orig_headers = self.headers@;
        let mut r = self;
        r.body = content.as_bytes_vec();
        r.headers.push(
            (String::from_str("Content-Type"), String::from_str("application/javascript")),
        );
        assert(r.headers@.drop_last() =~= orig_headers);
        r
    }

    /// The response with `content` as its body and a plain-text content
    /// type.
    pub fn text(self, content: &str) -> (r: Response)
        ensures
            r.status == self.status,
            r.body@ == content.spec_bytes(),
            r.headers@.len() == self.headers@.len() + 1,
            r.headers@.drop_last() == self.headers@,
            r.headers@.last().0@ == "Content-Type"@,
            r.headers@.last().1@ == "text/plain"@,
    {
        let ghost orig_headers = self.headers@;
        let mut r = self;
        r.body = content.as_bytes_vec();
        r.headers.push((String::from_str("Content-Type"), String::from_str("text/plain")));
        assert(r.headers@.drop_last() =~= orig_headers);
        r
    }

    /// Appends a header entry; under last-wins lookup this sets `key` to
    /// `value` and leaves every other key unchanged.
    pub fn set_header(&mut self, key: &str, value: &str)
        ensures
            final(self).status == old(self).status,
            final(self).body@ == old(self).body@,
            final(self).headers@.len() == old(self).headers@.len() + 1,
            final(self).headers@.drop_last() == old(self).headers@,
            final(self).headers@.last().0@ == key@,
            final(self).headers@.last().1@ == value@,
    {
        self.headers.push((String::from_str(key), String::from_str(value)));
        assert(self.headers@.drop_last() =~= old(self).headers@);
    }
}

/// The method token of a request line: its first whitespace-separated
/// token.
pub open spec fn method_text(line: Seq<char>) -> Seq<char> {
    take_token(skip_spaces(line))
}

/// The path token of a request line: its second whitespace-separated
/// token.
pub open spec fn path_text(line: Seq<char>) -> Seq<char> {
    take_token(skip_spaces(drop_token(skip_spaces(line))))
}

/// A request line parses exactly when both the method and the path token
/// are present.
pub open spec fn request_line_ok(line: Seq<char>) -> bool {
    method_text(line).len() > 0 && path_text(line).len() > 0
}

/// What one header line contributes: split at the first colon, the key
/// trimmed and lowercased, the value trimmed; a line without a colon
/// contributes nothing.
pub open spec fn split_header_line(line: Seq<char>) -> Option<(Seq<char>, Seq<char>)> {
    if contains_seq(line, seq![':']) {
        let i = first_index(line, seq![':']);
        Some(
            (
                lower_text(trim_text(line.subrange(0, i))),
                trim_text(line.subrange(i + 1, line.len() as int)),
            ),
        )
    } else {
        None
    }
}

/// The header mapping contributed by the lines from `from` on.
pub open spec fn parsed_headers(lines: Seq<String>, from: int) -> Seq<(Seq<char>, Seq<char>)>
    decreases lines.len() - from,
{
    if from < 0 || from >= lines.len() {
        Seq::empty()
    } else {
        match split_header_line(lines[from]@) {
            None => parsed_headers(lines, from + 1),
            Some(kv) => seq![kv] + parsed_headers(lines, from + 1),
        }
    }
}

/// The views of an exec header mapping's entries.
pub open spec fn header_views(hs: Seq<(String, String)>) -> Seq<(Seq<char>, Seq<char>)> {
    hs.map_values(|p: (String, String)| (p.0@, p.1@))
}

/// Parses a request head from its lines: the request line followed by the
/// header lines, without the blank terminator. Fails exactly when there is
/// no request line or it lacks a method or path token; header lines
/// without a colon are skipped.
pub fn parse_request(lines: &Vec<String>) -> (r: Option<Request>)
    ensures
        (r is Some) == (lines@.len() > 0 && request_line_ok(lines@[0]@)),
        r matches Some(req) ==> {
            &&& req.method@ == method_text(lines@[0]@)
            &&& req.path@ == path_text(lines@[0]@)
            &&& header_views(req.headers@) == parsed_headers(lines@, 1)
        },
{
    if lines.len() == 0 {
        return None;
    }
    let line0 = to_chars(lines[0].as_str());
    let n0: usize = line0.len();
    assert(line0@.subrange(0, n0 as int) =~= line0@);
    let first = next_token(&line0, 0);
    let (a1, b1) = match first {
        None => {
            return None;
        },
        Some(pair) => pair,
    };
    let second = next_token(&line0, b1);
    let (a2, b2) = match second {
        None => {
            return None;
        },
        Some(pair) => pair,
    };
    let method_chars = subvec(&line0, a1, b1);
    let method = from_chars(&method_chars);
    let path_chars = subvec(&line0, a2, b2);
    let path = from_chars(&path_chars);
    let mut headers: Vec<(String, String)> = Vec::new();
    let mut colon: Vec<char> = Vec::new();
    colon.push(':');
    assert(colon@ =~= seq![':']);
    let count: usize = lines.len();
    let mut i: usize = 1;
    while i < count
        invariant
            1 <= i <= count,
            count == lines@.len(),
            colon@ == seq![':'],
            parsed_headers(lines@, 1) =~= header_views(headers@) + parsed_headers(lines@, i as int),
        decreases count - i,
    {
        let lc = to_chars(lines[i].as_str());
        let found = find_sub(&lc, &colon);
        match found {
            None => {
                assert(split_header_line(lines@[i as int]@) is None);
            },
            Some(ci) => {
                proof {
                    lemma_first_index_of(lc@, colon@, ci as int);
                }
                let nl: usize = lc.len();
                let key_part = subvec(&lc, 0, ci);
                let key_trimmed = trim_chars(&key_part);
                let key_lower = to_lower(&key_trimmed);
                let key = from_chars(&key_lower);
                let val_part = subvec(&lc, ci + 1, nl);
                let val_trimmed = trim_chars(&val_part);
                let value = from_chars(&val_trimmed);
                let ghost prev = headers@;
                headers.push((key, value));
                proof {
                    assert(split_header_line(lines@[i as int]@) matches Some(kv) && kv == (
                        key@,
                        value@,
                    ));
                    assert(header_views(headers@) =~= header_views(prev).push((key@, value@)));
                    assert(header_views(prev).push((key@, value@)) + parsed_headers(
                        lines@,
                        i as int + 1,
                    ) =~= header_views(prev) + (seq![(key@, value@)] + parsed_headers(
                        lines@,
                        i as int + 1,
                    )));
                }
            },
        }
        i = i + 1;
    }
    assert(parsed_headers(lines@, count as int) =~= Seq::<(Seq<char>, Seq<char>)>::empty());
    assert(header_views(headers@) =~= parsed_headers(lines@, 1));
    Some(Request { method, path, headers })
}

/// The reason phrase of a status code; codes outside the table fall back
/// to `OK`.
pub open spec fn reason_text(status: u16) -> Seq<char> {
    if status == 400 {
        "Bad Request"@
    } else if status == 404 {
        "Not Found"@
    } else {
        "OK"@
    }
}

/// The reason phrase written after the status code.
pub fn reason_phrase(status: u16) -> (r: &'static str)
    ensures
        r@ == reason_text(status),
{
    if status == 400 {
        "Bad Request"
    } else if status == 404 {
        "Not Found"
    } else {
        "OK"
    }
}

/// The serialized header block: one `key: value` line per entry, in
/// order.
pub open spec fn headers_block_text(hs: Seq<(String, String)>) -> Seq<char>
    decreases hs.len(),
{
    if hs.len() == 0 {
        Seq::empty()
    } else {
        headers_block_text(hs.drop_last()) + hs.last().0@ + ": "@ + hs.last().1@ + "\r\n"@
    }
}

/// The serialized response head: status line, header block, blank line.
pub open spec fn head_text(status: u16, hs: Seq<(String, String)>) -> Seq<char> {
    "HTTP/1.1 "@ + dec_rep(status as nat) + seq![' '] + reason_text(status) + "\r\n"@
        + headers_block_text(hs) + "\r\n"@
}

/// Whether the mapping binds `key`.
fn has_header(hs: &Vec<(String, String)>, key: &str) -> (r: bool)
    ensures
        r == (header_lookup(hs@, key@) is Some),
{
    let n: usize = hs.len();
    assert(hs@.subrange(0, n as int) =~= hs@);
    let mut i: usize = n;
    while i > 0
        invariant
            i <= n,
            n == hs@.len(),
            header_lookup(hs@, key@) == header_lookup(hs@.subrange(0, i as int), key@),
        decreases i,
    {
        if crate::text::str_eq(hs[i - 1].0.as_str(), key) {
            assert(hs@.subrange(0, i as int).last() == hs@[i as int - 1]);
            return true;
        }
        assert(hs@.subrange(0, i as int).drop_last() =~= hs@.subrange(0, i as int - 1));
        i = i - 1;
    }
    assert(hs@.subrange(0, 0) =~= Seq::<(String, String)>::empty());
    false
}

/// The mapping with every entry under `key` removed.
pub open spec fn drop_header(hs: Seq<(String, String)>, key: Seq<char>) -> Seq<(String, String)>
    decreases hs.len(),
{
    if hs.len() == 0 {
        Seq::empty()
    } else {
        let rest = drop_header(hs.drop_last(), key);
        if hs.last().0@ == key {
            rest
        } else {
            rest.push(hs.last())
        }
    }
}

/// Removing a key unbinds it and leaves every other key unchanged.
proof fn lemma_lookup_drop_at(hs: Seq<(String, String)>, key: Seq<char>, q: Seq<char>)
    ensures
        header_lookup(drop_header(hs, key), q) == (if q == key {
            None
        } else {
            header_lookup(hs, q)
        }),
    decreases hs.len(),
{
    if hs.len() > 0 {
        lemma_lookup_drop_at(hs.drop_last(), key, q);
        if hs.last().0@ != key {
            lemma_lookup_push_at(drop_header(hs.drop_last(), key), hs.last().0, hs.last().1, q);
        }
    }
}

/// Removes every entry under `key`.
fn remove_header_entries(hs: &mut Vec<(String, String)>, key: &str)
    ensures
        final(hs)@ == drop_header(old(hs)@, key@),
{
    let mut pending: Vec<(String, String)> = Vec::new();
    core::mem::swap(&mut pending, hs);
    let ghost orig: Seq<(String, String)> = pending@;
    let mut kept: Vec<(String, String)> = Vec::new();
    let ghost mut done: int = 0;
    while pending.len() > 0
        invariant
            0 <= done,
            done + pending@.len() == orig.len(),
            pending@ == orig.subrange(done, orig.len() as int),
            kept@ == drop_header(orig.subrange(0, done), key@),
        decreases pending@.len(),
    {
        let entry = pending.remove(0);
        assert(entry == orig[done]);
        assert(pending@ =~= orig.subrange(done + 1, orig.len() as int));
        if !crate::text::str_eq(entry.0.as_str(), key) {
            kept.push(entry);
        }
        proof {
            assert(orig.subrange(0, done + 1).drop_last() =~= orig.subrange(0, done));
            assert(orig.subrange(0, done + 1).last() == orig[done]);
            done = done + 1;
        }
        assert(kept@ == drop_header(orig.subrange(0, done), key@));
    }
    *hs = kept;
    assert(orig.subrange(0, orig.len() as int) =~= orig);
}

/// Fills in the response framing before writing: `Content-Length` is
/// always derived from the actual body size, replacing whatever the
/// caller set, and `Connection` defaults to `close` unless already set;
/// everything else is left alone.
pub fn finalize_response(resp: &mut Response)
    ensures
        final(resp).status == old(resp).status,
        final(resp).body@ == old(resp).body@,
        header_lookup(final(resp).headers@, "Content-Length"@) == Some(
            dec_rep(final(resp).body@.len() as nat),
        ),
        header_lookup(final(resp).headers@, "Connection"@) == (match header_lookup(
            old(resp).headers@,
            "Connection"@,
        ) {
            Some(v) => Some(v),
            None => Some("close"@),
        }),
        forall|k: Seq<char>|
            k != "Content-Length"@ && k != "Connection"@ ==> #[trigger] header_lookup(
                final(resp).headers@,
                k,
            ) == header_lookup(old(resp).headers@, k),
{
    remove_header_entries(&mut resp.headers, "Content-Length");
    let ghost stripped = resp.headers@;
    let key = String::from_str("Content-Length");
    let value = u64_to_string(resp.body.len() as u64);
    let ghost kk = key;
    let ghost vv = value;
    resp.headers.push((key, value));
    proof {
        // The two framing keys differ (their lengths do), so setting one
        // does not disturb the other.
        reveal_strlit("Content-Length");
        reveal_strlit("Connection");
        assert("Content-Length"@.len() == 14);
        assert("Connection"@.len() == 10);
        assert(resp.headers@ == stripped.push((kk, vv)));
        lemma_lookup_push_at(stripped, kk, vv, "Content-Length"@);
        assert forall|q: Seq<char>| q != "Content-Length"@ implies #[trigger] header_lookup(
            resp.headers@,
            q,
        ) == header_lookup(old(resp).headers@, q) by {
            lemma_lookup_push_at(stripped, kk, vv, q);
            lemma_lookup_drop_at(old(resp).headers@, "Content-Length"@, q);
        }
    }
    let ghost mid = resp.headers@;
    if !has_header(&resp.headers, "Connection") {
        let ghost before = resp.headers@;
        let key = String::from_str("Connection");
        let value = String::from_str("close");
        let ghost kk = key;
        let ghost vv = value;
        resp.headers.push((key, value));
        proof {
            reveal_strlit("Content-Length");
            reveal_strlit("Connection");
            assert("Content-Length"@.len() == 14);
            assert("Connection"@.len() == 10);
            assert(resp.headers@ == before.push((kk, vv)));
            lemma_lookup_push_at(before, kk, vv, "Connection"@);
            assert forall|q: Seq<char>| q != "Connection"@ implies #[trigger] header_lookup(
                resp.headers@,
                q,
            ) == header_lookup(before, q) by {
                lemma_lookup_push_at(before, kk, vv, q);
            }
        }
    }
    proof {
        reveal_strlit("Content-Length");
        reveal_strlit("Connection");
        assert(header_lookup(mid, "Connection"@) == header_lookup(
            old(resp).headers@,
            "Connection"@,
        ));
        assert(header_lookup(resp.headers@, "Content-Length"@) == header_lookup(
            mid,
            "Content-Length"@,
        ));
    }
}

/// Appending an entry sets its key and leaves every other key unchanged.
proof fn lemma_lookup_push_at(hs: Seq<(String, String)>, k: String, v: String, q: Seq<char>)
    ensures
        header_lookup(hs.push((k, v)), q) == (if q == k@ {
            Some(v@)
        } else {
            header_lookup(hs, q)
        }),
{
    assert(hs.push((k, v)).drop_last() =~= hs);
    assert(hs.push((k, v)).last() == (k, v));
}

/// Renders the response head: status line, each header entry in order,
/// blank line. The body is written separately, after this head.
pub fn render_head(resp: &Response) -> (head: String)
    ensures
        head@ == head_text(resp.status, resp.headers@),
{
    let mut head = String::new();
    head.append("HTTP/1.1 ");
    let status_text = u64_to_string(resp.status as u64);
    head.append(status_text.as_str());
    push_char(&mut head, ' ');
    head.append(reason_phrase(resp.status));
    head.append("\r\n");
    let ghost prefix = head@;
    let n: usize = resp.headers.len();
    let mut i: usize = 0;
    while i < n
        invariant
            i <= n,
            n == resp.headers@.len(),
            head@ == prefix + headers_block_text(resp.headers@.subrange(0, i as int)),
        decreases n - i,
    {
        head.append(resp.headers[i].0.as_str());
        head.append(": ");
        head.append(resp.headers[i].1.as_str());
        head.append("\r\n");
        i = i + 1;
        proof {
            let sub = resp.headers@.subrange(0, i as int);
            assert(sub.drop_last() =~= resp.headers@.subrange(0, i as int - 1));
            assert(sub.last() == resp.headers@[i as int - 1]);
            assert(head@ =~= prefix + headers_block_text(sub));
        }
    }
    assert(resp.headers@.subrange(0, n as int) =~= resp.headers@);
    head.append("\r\n");
    assert(head@ =~= head_text(resp.status, resp.headers@));
    head
}

/// Fills in the response framing and renders the head: what the
/// connection handler writes before the body bytes.
pub fn render_response(resp: &mut Response) -> (head: String)
    ensures
        final(resp).status == old(resp).status,
        final(resp).body@ == old(resp).body@,
        header_lookup(final(resp).headers@, "Content-Length"@) == Some(
            dec_rep(final(resp).body@.len() as nat),
        ),
        header_lookup(final(resp).headers@, "Connection"@) == (match header_lookup(
            old(resp).headers@,
            "Connection"@,
        ) {
            Some(v) => Some(v),
            None => Some("close"@),
        }),
        forall|k: Seq<char>|
            k != "Content-Length"@ && k != "Connection"@ ==> #[trigger] header_lookup(
                final(resp).headers@,
                k,
            ) == header_lookup(old(resp).headers@, k),
        head@ == head_text(final(resp).status, final(resp).headers@),
{
    finalize_response(resp);
    render_head(resp)
}

} // verus!
