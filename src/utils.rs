//! URL extraction from noisy command output.
//!
//! A match is `http://` or `https://` followed by a maximal non-empty run of
//! characters that are neither white space nor one of `) ] } < > ,`. The
//! URL is the first match longer than ten characters, with any trailing run
//! of `. , ) ] } "` removed.
use crate::text::{
    chars_of, copy_range, find, first_occurrence, fold_ascii, fold_ascii_chars, is_space,
    is_space_char, string_of,
};
use vstd::prelude::*;

verus! {

/// A character that may stand inside a URL.
pub open spec fn is_url_char(c: char) -> bool {
    !is_space(c) && c != ')' && c != ']' && c != '}' && c != '<' && c != '>' && c != ','
}

pub open spec fn https_prefix() -> Seq<char> {
    seq!['h', 't', 't', 'p', 's', ':', '/', '/']
}

pub open spec fn http_prefix() -> Seq<char> {
    seq!['h', 't', 't', 'p', ':', '/', '/']
}

/// `p` stands in `t` at position `i`.
pub open spec fn prefix_at(t: Seq<char>, p: Seq<char>, i: int) -> bool {
    0 <= i && i + p.len() <= t.len() && forall|k: int| 0 <= k < p.len() ==> t[i + k] == #[trigger] p[k]
}

/// Length of the scheme (`https://` or `http://`) at position `i`, or 0.
pub open spec fn scheme_len(t: Seq<char>, i: int) -> int {
    if prefix_at(t, https_prefix(), i) {
        8
    } else if prefix_at(t, http_prefix(), i) {
        7
    } else {
        0
    }
}

/// A URL starts at position `i`: a scheme followed by at least one URL character.
pub open spec fn url_starts_at(t: Seq<char>, i: int) -> bool {
    scheme_len(t, i) > 0 && i + scheme_len(t, i) < t.len() && is_url_char(t[i + scheme_len(t, i)])
}

/// The end of the run of URL characters that starts at `k`.
pub open spec fn run_end(t: Seq<char>, k: int) -> int
    decreases t.len() - k,
{
    if 0 <= k < t.len() && is_url_char(t[k]) {
        run_end(t, k + 1)
    } else {
        k
    }
}

/// A match at position `i` that is long enough to count: more than ten
/// characters.
pub open spec fn qualifies_at(t: Seq<char>, i: int) -> bool {
    url_starts_at(t, i) && run_end(t, i + scheme_len(t, i)) - i > 10
}

pub open spec fn is_trailing_punct(c: char) -> bool {
    c == '.' || c == ',' || c == ')' || c == ']' || c == '}' || c == '"'
}

/// `s` without its trailing run of `. , ) ] } "`.
pub open spec fn strip_punct(s: Seq<char>) -> Seq<char>
    decreases s.len(),
{
    if s.len() > 0 && is_trailing_punct(s.last()) {
        strip_punct(s.drop_last())
    } else {
        s
    }
}

/// The URL of the first match at or after `k` that counts, cleaned of
/// trailing punctuation.
pub open spec fn url_from(t: Seq<char>, k: int) -> Option<Seq<char>>
    decreases t.len() - k,
{
    if k < 0 || k >= t.len() {
        None
    } else if qualifies_at(t, k) {
        Some(strip_punct(t.subrange(k, run_end(t, k + scheme_len(t, k)))))
    } else {
        url_from(t, k + 1)
    }
}

/// The URL found in `t`.
pub open spec fn url_in(t: Seq<char>) -> Option<Seq<char>> {
    url_from(t, 0)
}

proof fn lemma_url_from(t: Seq<char>, k: int)
    requires
        0 <= k,
    ensures
        url_from(t, k) is None ==> forall|j: int| k <= j < t.len() ==> !#[trigger] qualifies_at(t, j),
        url_from(t, k) is Some ==> exists|i: int|
            #![trigger qualifies_at(t, i)]
            k <= i < t.len() && qualifies_at(t, i) && (forall|j: int|
                k <= j < i ==> !#[trigger] qualifies_at(t, j)) && url_from(t, k)->0 == strip_punct(
                t.subrange(i, run_end(t, i + scheme_len(t, i))),
            ),
    decreases t.len() - k,
{
    if k < t.len() && !qualifies_at(t, k) {
        lemma_url_from(t, k + 1);
    }
}

/// Extraction takes the first match that counts: the URL found comes from
/// the leftmost match longer than ten characters (shorter ones before it are
/// passed over), and there is none only when no match counts.
pub proof fn lemma_url_is_leftmost(t: Seq<char>)
    ensures
        url_in(t) is None ==> forall|j: int| 0 <= j < t.len() ==> !#[trigger] qualifies_at(t, j),
        url_in(t) is Some ==> exists|i: int|
            #![trigger qualifies_at(t, i)]
            0 <= i < t.len() && qualifies_at(t, i) && (forall|j: int|
                0 <= j < i ==> !#[trigger] qualifies_at(t, j)) && url_in(t)->0 == strip_punct(
                t.subrange(i, run_end(t, i + scheme_len(t, i))),
            ),
{
    lemma_url_from(t, 0);
}

/// The URL found never ends with `. , ) ] } "`.
pub proof fn lemma_url_has_no_trailing_punct(t: Seq<char>)
    ensures
        url_in(t) matches Some(u) ==> u.len() == 0 || !is_trailing_punct(u.last()),
{
    lemma_url_from(t, 0);
    if url_in(t) is Some {
        let i = choose|i: int|
            #![trigger qualifies_at(t, i)]
            0 <= i < t.len() && qualifies_at(t, i) && (forall|j: int|
                0 <= j < i ==> !#[trigger] qualifies_at(t, j)) && url_in(t)->0 == strip_punct(
                t.subrange(i, run_end(t, i + scheme_len(t, i))),
            );
        lemma_strip_punct_clean(t.subrange(i, run_end(t, i + scheme_len(t, i))));
    }
}

proof fn lemma_strip_punct_clean(s: Seq<char>)
    ensures
        strip_punct(s).len() == 0 || !is_trailing_punct(strip_punct(s).last()),
    decreases s.len(),
{
    if s.len() > 0 && is_trailing_punct(s.last()) {
        lemma_strip_punct_clean(s.drop_last());
    }
}

/// The URL found after the first of the patterns, from the `k`-th on, that
/// yields one. A pattern is looked for without regard to ASCII case, and the
/// search for the URL resumes in `t` right after it.
pub open spec fn url_after_patterns(t: Seq<char>, pats: Seq<Seq<char>>, k: int) -> Option<
    Seq<char>,
>
    decreases pats.len() - k,
{
    if k < 0 || k >= pats.len() {
        None
    } else {
        let found = match first_occurrence(fold_ascii(t), fold_ascii(pats[k])) {
            Some(pos) => if pos + pats[k].len() < t.len() {
                url_in(t.subrange(pos + pats[k].len(), t.len() as int))
            } else {
                None
            },
            None => None,
        };
        if found is Some {
            found
        } else {
            url_after_patterns(t, pats, k + 1)
        }
    }
}

/// The URL near one of the patterns, in their order, else anywhere in `t`.
pub open spec fn url_near(t: Seq<char>, pats: Seq<Seq<char>>) -> Option<Seq<char>> {
    match url_after_patterns(t, pats, 0) {
        Some(u) => Some(u),
        None => url_in(t),
    }
}

/// The character sequences of a list of patterns.
pub open spec fn pattern_views(pats: Seq<&str>) -> Seq<Seq<char>> {
    pats.map_values(|p: &str| p@)
}

/// The view of an optional text.
pub open spec fn opt_view(o: Option<String>) -> Option<Seq<char>> {
    match o {
        Some(s) => Some(s@),
        None => None,
    }
}

/// The view of an optional character vector.
pub open spec fn opt_chars(o: Option<Vec<char>>) -> Option<Seq<char>> {
    match o {
        Some(v) => Some(v@),
        None => None,
    }
}

/// Length of the scheme at position `i` of `t`, or 0.
fn scheme_at(t: &[char], i: usize) -> (r: usize)
    requires
        i < t@.len(),
    ensures
        r == scheme_len(t@, i as int),
{
    let n = t.len();
    if n - i >= 8 && t[i] == 'h' && t[i + 1] == 't' && t[i + 2] == 't' && t[i + 3] == 'p' && t[i
        + 4] == 's' && t[i + 5] == ':' && t[i + 6] == '/' && t[i + 7] == '/' {
        assert(prefix_at(t@, https_prefix(), i as int));
        8
    } else if n - i >= 7 && t[i] == 'h' && t[i + 1] == 't' && t[i + 2] == 't' && t[i + 3] == 'p'
        && t[i + 4] == ':' && t[i + 5] == '/' && t[i + 6] == '/' {
        assert(!prefix_at(t@, https_prefix(), i as int)) by {
            if prefix_at(t@, https_prefix(), i as int) {
                assert(t@[i + 4] == https_prefix()[4]);
            }
        };
        assert(prefix_at(t@, http_prefix(), i as int));
        7
    } else {
        assert(!prefix_at(t@, https_prefix(), i as int)) by {
            if prefix_at(t@, https_prefix(), i as int) {
                assert(t@[i + 0] == https_prefix()[0]);
                assert(t@[i + 1] == https_prefix()[1]);
                assert(t@[i + 2] == https_prefix()[2]);
                assert(t@[i + 3] == https_prefix()[3]);
                assert(t@[i + 4] == https_prefix()[4]);
                assert(t@[i + 5] == https_prefix()[5]);
                assert(t@[i + 6] == https_prefix()[6]);
                assert(t@[i + 7] == https_prefix()[7]);
            }
        };
        assert(!prefix_at(t@, http_prefix(), i as int)) by {
            if prefix_at(t@, http_prefix(), i as int) {
                assert(t@[i + 0] == http_prefix()[0]);
                assert(t@[i + 1] == http_prefix()[1]);
                assert(t@[i + 2] == http_prefix()[2]);
                assert(t@[i + 3] == http_prefix()[3]);
                assert(t@[i + 4] == http_prefix()[4]);
                assert(t@[i + 5] == http_prefix()[5]);
                assert(t@[i + 6] == http_prefix()[6]);
            }
        };
        0
    }
}

fn is_url_char_exec(c: char) -> (r: bool)
    ensures
        r == is_url_char(c),
{
    !is_space_char(c) && c != ')' && c != ']' && c != '}' && c != '<' && c != '>' && c != ','
}

/// The end of the run of URL characters that starts at `k`.
fn scan_run(t: &[char], k: usize) -> (r: usize)
    requires
        k <= t@.len(),
    ensures
        r == run_end(t@, k as int),
        k <= r <= t@.len(),
{
    let mut j: usize = k;
    while j < t.len() && is_url_char_exec(t[j])
        invariant
            k <= j <= t@.len(),
            run_end(t@, k as int) == run_end(t@, j as int),
        decreases t.len() - j,
    {
        j += 1;
    }
    j
}

proof fn lemma_run_end_bounds(t: Seq<char>, k: int)
    requires
        0 <= k <= t.len(),
    ensures
        k <= run_end(t, k) <= t.len(),
    decreases t.len() - k,
{
    if 0 <= k < t.len() && is_url_char(t[k]) {
        lemma_run_end_bounds(t, k + 1);
    }
}

/// `s` cleaned of its trailing run of punctuation.
fn clean_url(s: &[char]) -> (r: Vec<char>)
    ensures
        r@ == strip_punct(s@),
{
    let mut hi: usize = s.len();
    assert(s@.subrange(0, hi as int) =~= s@);
    while hi > 0 && (s[hi - 1] == '.' || s[hi - 1] == ',' || s[hi - 1] == ')' || s[hi - 1] == ']'
        || s[hi - 1] == '}' || s[hi - 1] == '"')
        invariant
            hi <= s@.len(),
            strip_punct(s@) == strip_punct(s@.subrange(0, hi as int)),
        decreases hi,
    {
        assert(s@.subrange(0, hi as int).drop_last() =~= s@.subrange(0, hi - 1));
        hi -= 1;
    }
    copy_range(s, 0, hi)
}

/// The URL found in a character sequence.
pub fn url_in_chars(t: &[char]) -> (r: Option<Vec<char>>)
    ensures
        opt_chars(r) == url_in(t@),
{
    let n = t.len();
    let mut i: usize = 0;
    while i < n
        invariant
            n == t@.len(),
            i <= n,
            url_from(t@, 0) == url_from(t@, i as int),
        decreases n - i,
    {
        let sl = scheme_at(t, i);
        if sl > 0 && sl < n - i && is_url_char_exec(t[i + sl]) {
            let end = scan_run(t, i + sl);
            if end - i > 10 {
                let m = copy_range(t, i, end);
                return Some(clean_url(m.as_slice()));
            }
        }
        i += 1;
    }
    None
}

/// Extract the first URL found in the text.
pub fn extract_url_from_text(text: &str) -> (r: Option<String>)
    ensures
        opt_view(r) == url_in(text@),
{
    let t = chars_of(text);
    match url_in_chars(t.as_slice()) {
        Some(u) => Some(string_of(u.as_slice())),
        None => None,
    }
}

/// Extract the first URL found in a single line.
pub fn extract_url_from_line(line: &str) -> (r: Option<String>)
    ensures
        opt_view(r) == url_in(line@),
{
    extract_url_from_text(line)
}

/// The URL near one of the patterns, in their order, else anywhere in `t`.
pub fn url_near_chars(t: &[char], patterns: &[&str]) -> (r: Option<Vec<char>>)
    ensures
        opt_chars(r) == url_near(t@, pattern_views(patterns@)),
{
    let folded = fold_ascii_chars(t);
    let ghost pats = pattern_views(patterns@);
    let n = t.len();
    let mut k: usize = 0;
    while k < patterns.len()
        invariant
            folded@ == fold_ascii(t@),
            n == t@.len(),
            k <= patterns@.len(),
            pats == pattern_views(patterns@),
            url_after_patterns(t@, pats, 0) == url_after_patterns(t@, pats, k as int),
        decreases patterns.len() - k,
    {
        let p = chars_of(patterns[k]);
        assert(p@ == pats[k as int]);
        let fp = fold_ascii_chars(p.as_slice());
        match find(folded.as_slice(), fp.as_slice()) {
            Some(pos) => {
                if pos <= n && p.len() < n - pos {
                    let start = pos + p.len();
                    let rest = copy_range(t, start, n);
                    match url_in_chars(rest.as_slice()) {
                        Some(u) => {
                            return Some(u);
                        },
                        None => {},
                    }
                }
            },
            None => {},
        }
        k += 1;
    }
    url_in_chars(t)
}

/// Extract a URL, looking first after each pattern in turn (matched without
/// regard to ASCII case), then anywhere in the text.
pub fn extract_url_with_pattern(text: &str, patterns: &[&str]) -> (r: Option<String>)
    ensures
        opt_view(r) == url_near(text@, pattern_views(patterns@)),
{
    let t = chars_of(text);
    match url_near_chars(t.as_slice(), patterns) {
        Some(u) => Some(string_of(u.as_slice())),
        None => None,
    }
}

} // verus!
