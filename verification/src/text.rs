//! Character-sequence utilities shared by the parser, the router and the
//! page builders: substring search, HTML escaping, and decimal formatting.

use vstd::prelude::*;
use vstd::string::StrSliceExecFns;
use vstd::string::StringExecFns;

verus! {

/// ASCII whitespace, the characters trimmed from request-line tokens and
/// header fields.
pub open spec fn is_space(c: char) -> bool {
    c == ' ' || c == '\t' || c == '\r' || c == '\n'
}

/// `pat` occurs in `text` starting at index `i`.
pub open spec fn match_at(text: Seq<char>, pat: Seq<char>, i: int) -> bool {
    0 <= i && i + pat.len() <= text.len() && text.subrange(i, i + pat.len() as int) == pat
}

/// `pat` occurs somewhere in `text`.
pub open spec fn contains_seq(text: Seq<char>, pat: Seq<char>) -> bool {
    exists|i: int| match_at(text, pat, i)
}

/// `i` is the first index at which `pat` occurs in `text`.
pub open spec fn first_match_at(text: Seq<char>, pat: Seq<char>, i: int) -> bool {
    match_at(text, pat, i) && forall|j: int| 0 <= j < i ==> !match_at(text, pat, j)
}

/// Relies on `String::push`: appends the given character to the end of the
/// string.
#[verifier::external_body]
pub(crate) fn push_char(s: &mut String, c: char)
    ensures
        final(s)@ == old(s)@.push(c),
{
    s.push(c);
}

/// Collects the characters of a string slice into a vector.
pub fn to_chars(s: &str) -> (v: Vec<char>)
    ensures
        v@ == s@,
{
    let n: usize = s.unicode_len();
    let mut v: Vec<char> = Vec::new();
    let mut i: usize = 0;
    while i < n
        invariant
            n == s@.len(),
            i <= n,
            v@ == s@.subrange(0, i as int),
        decreases n - i,
    {
        v.push(s.get_char(i));
        i = i + 1;
        assert(v@ =~= s@.subrange(0, i as int));
    }
    assert(v@ =~= s@);
    v
}

/// Builds a string out of a vector of characters.
pub fn from_chars(v: &Vec<char>) -> (s: String)
    ensures
        s@ == v@,
{
    let mut s = String::new();
    let mut i: usize = 0;
    while i < v.len()
        invariant
            i <= v@.len(),
            s@ == v@.subrange(0, i as int),
        decreases v@.len() - i,
    {
        push_char(&mut s, v[i]);
        i = i + 1;
        assert(s@ =~= v@.subrange(0, i as int));
    }
    assert(s@ =~= v@);
    s
}

/// Compares `pat` against the characters of `text` starting at `i`.
pub fn eq_at(text: &Vec<char>, pat: &Vec<char>, i: usize) -> (r: bool)
    requires
        i + pat@.len() <= text@.len(),
    ensures
        r == match_at(text@, pat@, i as int),
{
    let m: usize = pat.len();
    let tlen: usize = text.len();
    let mut j: usize = 0;
    while j < m
        invariant
            m == pat@.len(),
            tlen == text@.len(),
            i + m <= tlen,
            j <= m,
            forall|k: int| 0 <= k < j ==> text@[i + k] == pat@[k],
        decreases m - j,
    {
        if text[i + j] != pat[j] {
            assert(!match_at(text@, pat@, i as int)) by {
                assert(text@.subrange(i as int, i as int + m as int)[j as int] == text@[i + j]);
            }
            return false;
        }
        j = j + 1;
    }
    assert(text@.subrange(i as int, i as int + m as int) =~= pat@);
    true
}

/// Finds the first occurrence of `pat` in `text`, if any.
pub fn find_sub(text: &Vec<char>, pat: &Vec<char>) -> (r: Option<usize>)
    ensures
        match r {
            Some(i) => first_match_at(text@, pat@, i as int),
            None => !contains_seq(text@, pat@),
        },
{
    if pat.len() > text.len() {
        assert(forall|i: int| !match_at(text@, pat@, i));
        return None;
    }
    let last: usize = text.len() - pat.len();
    let mut i: usize = 0;
    loop
        invariant_except_break
            pat@.len() <= text@.len(),
            last == text@.len() - pat@.len(),
            i <= last,
            forall|j: int| 0 <= j < i ==> !match_at(text@, pat@, j),
        ensures
            forall|j: int| 0 <= j <= last ==> !match_at(text@, pat@, j),
        decreases last - i,
    {
        if eq_at(text, pat, i) {
            return Some(i);
        }
        if i == last {
            break;
        }
        i = i + 1;
    }
    assert(forall|j: int| 0 <= j ==> !match_at(text@, pat@, j));
    None
}

/// `pat` occurs somewhere in `text`.
pub fn contains_sub(text: &Vec<char>, pat: &Vec<char>) -> (r: bool)
    ensures
        r == contains_seq(text@, pat@),
{
    let found = find_sub(text, pat);
    match found {
        Some(i) => {
            assert(match_at(text@, pat@, i as int));
            true
        },
        None => false,
    }
}

/// `s` ends with `sfx`.
pub open spec fn ends_with_text(s: Seq<char>, sfx: Seq<char>) -> bool {
    sfx.len() <= s.len() && match_at(s, sfx, s.len() - sfx.len())
}

/// Compares two string slices by their characters.
pub fn str_eq(a: &str, b: &str) -> (r: bool)
    ensures
        r == (a@ == b@),
{
    let na: usize = a.unicode_len();
    let nb: usize = b.unicode_len();
    if na != nb {
        return false;
    }
    let mut i: usize = 0;
    while i < na
        invariant
            na == a@.len(),
            na == b@.len(),
            i <= na,
            forall|k: int| 0 <= k < i ==> a@[k] == b@[k],
        decreases na - i,
    {
        if a.get_char(i) != b.get_char(i) {
            return false;
        }
        i = i + 1;
    }
    assert(a@ =~= b@);
    true
}

/// The index of the first occurrence of `pat` in `text`; meaningful only
/// where `text` contains `pat`.
pub open spec fn first_index(text: Seq<char>, pat: Seq<char>) -> int {
    choose|i: int| first_match_at(text, pat, i)
}

/// Where `pat` occurs at all, a first occurrence exists.
pub proof fn lemma_first_match_exists(text: Seq<char>, pat: Seq<char>, i: int)
    requires
        match_at(text, pat, i),
    ensures
        exists|k: int| first_match_at(text, pat, k),
    decreases i,
{
    if forall|j: int| 0 <= j < i ==> !match_at(text, pat, j) {
        assert(first_match_at(text, pat, i));
    } else {
        let j = choose|j: int| 0 <= j < i && match_at(text, pat, j);
        lemma_first_match_exists(text, pat, j);
    }
}

/// At most one index is the first occurrence.
pub proof fn lemma_first_match_unique(text: Seq<char>, pat: Seq<char>, i: int, j: int)
    requires
        first_match_at(text, pat, i),
        first_match_at(text, pat, j),
    ensures
        i == j,
{
}

/// A known first occurrence pins `first_index` down.
pub proof fn lemma_first_index_of(text: Seq<char>, pat: Seq<char>, i: int)
    requires
        first_match_at(text, pat, i),
    ensures
        first_index(text, pat) == i,
{
    let j = choose|j: int| first_match_at(text, pat, j);
    lemma_first_match_unique(text, pat, i, j);
}

/// What one character becomes in HTML text: the five special characters
/// turn into entities, everything else stays itself.
pub open spec fn escape_char(c: char) -> Seq<char> {
    if c == '&' {
        "&amp;"@
    } else if c == '<' {
        "&lt;"@
    } else if c == '>' {
        "&gt;"@
    } else if c == '"' {
        "&quot;"@
    } else if c == '\'' {
        "&#x27;"@
    } else {
        seq![c]
    }
}

/// The HTML-escaped form of a character sequence.
pub open spec fn escape_text(s: Seq<char>) -> Seq<char>
    decreases s.len(),
{
    if s.len() == 0 {
        Seq::empty()
    } else {
        escape_text(s.drop_last()) + escape_char(s.last())
    }
}

/// Escapes the HTML special characters of `s`, so that a diagnostic can be
/// rendered verbatim inside a page.
pub fn html_escape(s: &str) -> (r: String)
    ensures
        r@ == escape_text(s@),
{
    let n: usize = s.unicode_len();
    let mut r = String::new();
    let mut i: usize = 0;
    while i < n
        invariant
            n == s@.len(),
            i <= n,
            r@ == escape_text(s@.subrange(0, i as int)),
        decreases n - i,
    {
        let c = s.get_char(i);
        if c == '&' {
            r.append("&amp;");
        } else if c == '<' {
            r.append("&lt;");
        } else if c == '>' {
            r.append("&gt;");
        } else if c == '"' {
            r.append("&quot;");
        } else if c == '\'' {
            r.append("&#x27;");
        } else {
            push_char(&mut r, c);
        }
        i = i + 1;
        assert(r@ =~= escape_text(s@.subrange(0, i as int - 1)) + escape_char(c));
        assert(s@.subrange(0, i as int).drop_last() =~= s@.subrange(0, i as int - 1));
        assert(s@.subrange(0, i as int).last() == c);
        assert(r@ == escape_text(s@.subrange(0, i as int)));
    }
    assert(s@.subrange(0, n as int) =~= s@);
    r
}

/// The decimal digit character for a value below ten.
pub open spec fn dec_digit(d: int) -> char {
    ((48 + d) as u8) as char
}

/// The decimal representation of a natural number, most significant digit
/// first, with no leading zeros.
pub open spec fn dec_rep(n: nat) -> Seq<char>
    decreases n,
{
    if n < 10 {
        seq![dec_digit(n as int)]
    } else {
        dec_rep(n / 10) + seq![dec_digit((n % 10) as int)]
    }
}

fn dec_into(n: u64, out: &mut String)
    ensures
        final(out)@ == old(out)@ + dec_rep(n as nat),
    decreases n,
{
    if n < 10 {
        push_char(out, (48 + n as u8) as char);
        assert(final(out)@ =~= old(out)@ + dec_rep(n as nat));
    } else {
        dec_into(n / 10, out);
        push_char(out, (48 + (n % 10) as u8) as char);
        assert(final(out)@ =~= old(out)@ + dec_rep(n as nat));
    }
}

/// Formats a number in decimal.
pub fn u64_to_string(n: u64) -> (s: String)
    ensures
        s@ == dec_rep(n as nat),
{
    let mut s = String::new();
    dec_into(n, &mut s);
    assert(s@ =~= dec_rep(n as nat));
    s
}

/// A value below one hundred, zero-padded to two digits.
pub open spec fn two_dec(n: int) -> Seq<char> {
    seq![dec_digit(n / 10), dec_digit(n % 10)]
}

/// A wall-clock time rendered as `HH:MM:SS`.
pub open spec fn clock_text(h: int, m: int, s: int) -> Seq<char> {
    two_dec(h) + seq![':'] + two_dec(m) + seq![':'] + two_dec(s)
}

/// Formats an hour-minute-second triple as `HH:MM:SS`.
pub fn format_clock(h: u8, m: u8, s: u8) -> (r: String)
    requires
        h < 24,
        m < 60,
        s < 60,
    ensures
        r@ == clock_text(h as int, m as int, s as int),
{
    let mut r = String::new();
    push_char(&mut r, (48 + h / 10) as char);
    push_char(&mut r, (48 + h % 10) as char);
    push_char(&mut r, ':');
    push_char(&mut r, (48 + m / 10) as char);
    push_char(&mut r, (48 + m % 10) as char);
    push_char(&mut r, ':');
    push_char(&mut r, (48 + s / 10) as char);
    push_char(&mut r, (48 + s % 10) as char);
    assert(r@ =~= clock_text(h as int, m as int, s as int));
    r
}

/// The sequence holds nothing but whitespace.
pub open spec fn blank_text(s: Seq<char>) -> bool {
    forall|i: int| 0 <= i < s.len() ==> is_space(s[i])
}

/// Whether a captured output stream is empty up to whitespace.
pub fn is_blank(s: &str) -> (r: bool)
    ensures
        r == blank_text(s@),
{
    let n: usize = s.unicode_len();
    let mut i: usize = 0;
    while i < n
        invariant
            n == s@.len(),
            i <= n,
            forall|k: int| 0 <= k < i ==> is_space(s@[k]),
        decreases n - i,
    {
        let c = s.get_char(i);
        if !(c == ' ' || c == '\t' || c == '\r' || c == '\n') {
            return false;
        }
        i = i + 1;
    }
    true
}

/// The sequence with leading whitespace removed.
pub open spec fn trim_front(s: Seq<char>) -> Seq<char>
    decreases s.len(),
{
    if s.len() > 0 && is_space(s[0]) {
        trim_front(s.drop_first())
    } else {
        s
    }
}

/// The sequence with trailing whitespace removed.
pub open spec fn trim_back(s: Seq<char>) -> Seq<char>
    decreases s.len(),
{
    if s.len() > 0 && is_space(s.last()) {
        trim_back(s.drop_last())
    } else {
        s
    }
}

/// The sequence with whitespace removed from both ends.
pub open spec fn trim_text(s: Seq<char>) -> Seq<char> {
    trim_back(trim_front(s))
}

/// Copies the characters of `v` between `a` and `b`.
pub fn subvec(v: &Vec<char>, a: usize, b: usize) -> (r: Vec<char>)
    requires
        a <= b <= v@.len(),
    ensures
        r@ == v@.subrange(a as int, b as int),
{
    let mut r: Vec<char> = Vec::new();
    let mut i: usize = a;
    while i < b
        invariant
            a <= i <= b <= v@.len(),
            r@ == v@.subrange(a as int, i as int),
        decreases b - i,
    {
        r.push(v[i]);
        i = i + 1;
        assert(r@ =~= v@.subrange(a as int, i as int));
    }
    r
}

/// Removes whitespace from both ends of `v`.
pub fn trim_chars(v: &Vec<char>) -> (r: Vec<char>)
    ensures
        r@ == trim_text(v@),
{
    let n: usize = v.len();
    assert(v@.subrange(0, n as int) =~= v@);
    let mut start: usize = 0;
    while start < n && (v[start] == ' ' || v[start] == '\t' || v[start] == '\r' || v[start]
        == '\n')
        invariant
            n == v@.len(),
            start <= n,
            trim_front(v@) == trim_front(v@.subrange(start as int, n as int)),
        decreases n - start,
    {
        assert(v@.subrange(start as int, n as int).drop_first() =~= v@.subrange(
            start as int + 1,
            n as int,
        ));
        start = start + 1;
    }
    assert(trim_front(v@) == v@.subrange(start as int, n as int));
    let mut end: usize = n;
    while end > start && (v[end - 1] == ' ' || v[end - 1] == '\t' || v[end - 1] == '\r' || v[end
        - 1] == '\n')
        invariant
            n == v@.len(),
            start <= end <= n,
            trim_front(v@) == v@.subrange(start as int, n as int),
            trim_back(v@.subrange(start as int, n as int)) == trim_back(
                v@.subrange(start as int, end as int),
            ),
        decreases end,
    {
        assert(v@.subrange(start as int, end as int).drop_last() =~= v@.subrange(
            start as int,
            end as int - 1,
        ));
        end = end - 1;
    }
    assert(trim_back(v@.subrange(start as int, end as int)) == v@.subrange(
        start as int,
        end as int,
    ));
    subvec(v, start, end)
}

/// The sequence after its leading whitespace.
pub open spec fn skip_spaces(s: Seq<char>) -> Seq<char>
    decreases s.len(),
{
    if s.len() > 0 && is_space(s[0]) {
        skip_spaces(s.drop_first())
    } else {
        s
    }
}

/// The maximal whitespace-free prefix of the sequence.
pub open spec fn take_token(s: Seq<char>) -> Seq<char>
    decreases s.len(),
{
    if s.len() > 0 && !is_space(s[0]) {
        seq![s[0]] + take_token(s.drop_first())
    } else {
        Seq::empty()
    }
}

/// The sequence after its maximal whitespace-free prefix.
pub open spec fn drop_token(s: Seq<char>) -> Seq<char>
    decreases s.len(),
{
    if s.len() > 0 && !is_space(s[0]) {
        drop_token(s.drop_first())
    } else {
        s
    }
}

/// Scans for the first whitespace-separated token at or after `from`:
/// the half-open index range of the token, or nothing when only
/// whitespace is left.
pub fn next_token(v: &Vec<char>, from: usize) -> (r: Option<(usize, usize)>)
    requires
        from <= v@.len(),
    ensures
        match r {
            Option::None => take_token(skip_spaces(v@.subrange(from as int, v@.len() as int))).len()
                == 0,
            Option::Some((a, b)) => {
                &&& from <= a < b <= v@.len()
                &&& take_token(skip_spaces(v@.subrange(from as int, v@.len() as int)))
                    == v@.subrange(a as int, b as int)
                &&& drop_token(skip_spaces(v@.subrange(from as int, v@.len() as int)))
                    == v@.subrange(b as int, v@.len() as int)
            },
        },
{
    let n: usize = v.len();
    let mut a: usize = from;
    while a < n && (v[a] == ' ' || v[a] == '\t' || v[a] == '\r' || v[a] == '\n')
        invariant
            n == v@.len(),
            from <= a <= n,
            skip_spaces(v@.subrange(from as int, n as int)) == skip_spaces(
                v@.subrange(a as int, n as int),
            ),
        decreases n - a,
    {
        assert(v@.subrange(a as int, n as int).drop_first() =~= v@.subrange(a as int + 1, n as int));
        a = a + 1;
    }
    if a == n {
        assert(v@.subrange(a as int, n as int) =~= Seq::<char>::empty());
        return None;
    }
    assert(skip_spaces(v@.subrange(from as int, n as int)) == v@.subrange(a as int, n as int));
    let mut b: usize = a;
    assert(v@.subrange(a as int, a as int) =~= Seq::<char>::empty());
    while b < n && !(v[b] == ' ' || v[b] == '\t' || v[b] == '\r' || v[b] == '\n')
        invariant
            n == v@.len(),
            from <= a <= b <= n,
            take_token(v@.subrange(a as int, n as int)) == v@.subrange(a as int, b as int)
                + take_token(v@.subrange(b as int, n as int)),
            drop_token(v@.subrange(a as int, n as int)) == drop_token(
                v@.subrange(b as int, n as int),
            ),
            a < n && !is_space(v@[a as int]),
        decreases n - b,
    {
        assert(v@.subrange(b as int, n as int).drop_first() =~= v@.subrange(b as int + 1, n as int));
        assert(v@.subrange(a as int, b as int) + seq![v@[b as int]] =~= v@.subrange(
            a as int,
            b as int + 1,
        ));
        b = b + 1;
    }
    if b == n {
        assert(v@.subrange(b as int, n as int) =~= Seq::<char>::empty());
    }
    assert(take_token(v@.subrange(b as int, n as int)) =~= Seq::<char>::empty());
    assert(drop_token(v@.subrange(b as int, n as int)) == v@.subrange(b as int, n as int));
    assert(take_token(v@.subrange(a as int, n as int)) =~= v@.subrange(a as int, b as int));
    Some((a, b))
}

/// The ASCII-lowercase form of a character.
pub open spec fn lower_char(c: char) -> char {
    if 'A' <= c && c <= 'Z' {
        (((c as u32) + 32) as u8) as char
    } else {
        c
    }
}

/// The ASCII-lowercase form of a character sequence.
pub open spec fn lower_text(s: Seq<char>) -> Seq<char> {
    s.map_values(|c: char| lower_char(c))
}

/// Lowercases the ASCII letters of `v`.
pub fn to_lower(v: &Vec<char>) -> (r: Vec<char>)
    ensures
        r@ == lower_text(v@),
{
    let mut r: Vec<char> = Vec::new();
    let mut i: usize = 0;
    while i < v.len()
        invariant
            i <= v@.len(),
            r@ == lower_text(v@.subrange(0, i as int)),
        decreases v@.len() - i,
    {
        let c = v[i];
        if 'A' <= c && c <= 'Z' {
            r.push((((c as u32) + 32) as u8) as char);
        } else {
            r.push(c);
        }
        i = i + 1;
        assert(r@ =~= lower_text(v@.subrange(0, i as int)));
    }
    assert(v@.subrange(0, v@.len() as int) =~= v@);
    r
}

} // verus!

