//! Character-sequence helpers used by the parsers of this crate.
//!
//! Strings are handled as sequences of `char`s: the spec functions below say
//! what `str::trim`, `str::find`, `str::rfind`, `str::replace` and friends
//! compute, and the executable functions compute the same on `&[char]`.
use vstd::prelude::*;

verus! {

// ---------------------------------------------------------------------------
// Specifications
// ---------------------------------------------------------------------------

/// Unicode `White_Space`, which is what `char::is_whitespace` tests.
pub open spec fn is_ws(c: char) -> bool {
    ||| c == ' '
    ||| ('\u{9}' <= c && c <= '\u{d}')
    ||| c == '\u{85}'
    ||| c == '\u{a0}'
    ||| c == '\u{1680}'
    ||| ('\u{2000}' <= c && c <= '\u{200a}')
    ||| c == '\u{2028}'
    ||| c == '\u{2029}'
    ||| c == '\u{202f}'
    ||| c == '\u{205f}'
    ||| c == '\u{3000}'
}

/// Number of leading whitespace characters.
pub open spec fn lead_ws(s: Seq<char>) -> nat
    decreases s.len(),
{
    if s.len() > 0 && is_ws(s[0]) {
        1 + lead_ws(s.drop_first())
    } else {
        0
    }
}

/// Number of trailing whitespace characters.
pub open spec fn trail_ws(s: Seq<char>) -> nat
    decreases s.len(),
{
    if s.len() > 0 && is_ws(s.last()) {
        1 + trail_ws(s.drop_last())
    } else {
        0
    }
}

/// `s` without leading whitespace.
pub open spec fn trim_start(s: Seq<char>) -> Seq<char> {
    s.skip(lead_ws(s) as int)
}

/// `s` without trailing whitespace.
pub open spec fn trim_end(s: Seq<char>) -> Seq<char> {
    s.take(s.len() - trail_ws(s))
}

/// `s` without leading and trailing whitespace (`str::trim`).
pub open spec fn trim(s: Seq<char>) -> Seq<char> {
    trim_end(trim_start(s))
}

/// `p` occurs in `s` at position `i`.
pub open spec fn match_at(s: Seq<char>, p: Seq<char>, i: int) -> bool {
    0 <= i && i + p.len() <= s.len() && s.subrange(i, i + p.len()) == p
}

/// The first position at or after `i` where `p` occurs in `s`.
pub open spec fn find_from(s: Seq<char>, p: Seq<char>, i: int) -> Option<int>
    decreases s.len() + 1 - i,
{
    if i < 0 || i + p.len() > s.len() {
        None
    } else if match_at(s, p, i) {
        Some(i)
    } else {
        find_from(s, p, i + 1)
    }
}

/// The first position where `p` occurs in `s` (`str::find`).
pub open spec fn find(s: Seq<char>, p: Seq<char>) -> Option<int> {
    find_from(s, p, 0)
}

/// The last position below `k` where `p` occurs in `s`.
pub open spec fn rfind_below(s: Seq<char>, p: Seq<char>, k: int) -> Option<int>
    decreases k,
{
    if k <= 0 {
        None
    } else if match_at(s, p, k - 1) {
        Some(k - 1)
    } else {
        rfind_below(s, p, k - 1)
    }
}

/// The last position where `p` occurs in `s` (`str::rfind`).
pub open spec fn rfind(s: Seq<char>, p: Seq<char>) -> Option<int> {
    rfind_below(s, p, s.len() - p.len() + 1)
}

/// `p` occurs somewhere in `s` (`str::contains`).
pub open spec fn contains(s: Seq<char>, p: Seq<char>) -> bool {
    find(s, p) is Some
}

/// `s` begins with `p` (`str::starts_with`).
pub open spec fn starts_with(s: Seq<char>, p: Seq<char>) -> bool {
    p.len() <= s.len() && s.take(p.len() as int) == p
}

/// `s` ends with `p` (`str::ends_with`).
pub open spec fn ends_with(s: Seq<char>, p: Seq<char>) -> bool {
    p.len() <= s.len() && s.skip(s.len() - p.len()) == p
}

/// `s` from position `i` on, with every non-overlapping occurrence of `p`
/// (searched from the left) replaced by `r`.
pub open spec fn replace_from(s: Seq<char>, p: Seq<char>, r: Seq<char>, i: int) -> Seq<char>
    decreases s.len() - i,
{
    if p.len() == 0 || i < 0 || i > s.len() {
        s.skip(i)
    } else {
        match find_from(s, p, i) {
            None => s.skip(i),
            Some(j) => {
                proof {
                    lemma_find_from_bounds(s, p, i);
                }
                s.subrange(i, j) + r + replace_from(s, p, r, j + p.len())
            },
        }
    }
}

/// `s` with every occurrence of the non-empty `p` replaced by `r` (`str::replace`).
pub open spec fn replace(s: Seq<char>, p: Seq<char>, r: Seq<char>) -> Seq<char> {
    replace_from(s, p, r, 0)
}

/// `s` with trailing copies of the non-empty `p` removed (`str::trim_end_matches`).
pub open spec fn trim_end_matches(s: Seq<char>, p: Seq<char>) -> Seq<char>
    decreases s.len(),
{
    if p.len() > 0 && ends_with(s, p) {
        trim_end_matches(s.take(s.len() - p.len()), p)
    } else {
        s
    }
}

/// The part of `s` before the first occurrence of `p`, or all of `s`
/// (the first item of `str::split`).
pub open spec fn before_first(s: Seq<char>, p: Seq<char>) -> Seq<char> {
    match find(s, p) {
        Some(i) => s.take(i),
        None => s,
    }
}

/// The pieces of `s` from position `i` on, between occurrences of `c`.
pub open spec fn split_from(s: Seq<char>, c: char, i: int) -> Seq<Seq<char>>
    decreases s.len() - i,
{
    if i < 0 || i > s.len() {
        seq![]
    } else {
        match find_from(s, seq![c], i) {
            None => seq![s.skip(i)],
            Some(j) => {
                proof {
                    lemma_find_from_bounds(s, seq![c], i);
                }
                seq![s.subrange(i, j)] + split_from(s, c, j + 1)
            },
        }
    }
}

/// The pieces of `s` between occurrences of `c` (`str::split` with a `char`).
pub open spec fn split(s: Seq<char>, c: char) -> Seq<Seq<char>> {
    split_from(s, c, 0)
}

// ---------------------------------------------------------------------------
// Lemmas
// ---------------------------------------------------------------------------

/// A position found from `i` lies at or after `i` and leaves room for `p`.
pub proof fn lemma_find_from_bounds(s: Seq<char>, p: Seq<char>, i: int)
    ensures
        find_from(s, p, i) matches Some(j) ==> i <= j && j + p.len() <= s.len() && match_at(s, p, j),
    decreases s.len() + 1 - i,
{
    if i < 0 || i + p.len() > s.len() {
    } else if match_at(s, p, i) {
    } else {
        lemma_find_from_bounds(s, p, i + 1);
    }
}

/// A search from `i` finds the first occurrence at or after `i`.
pub proof fn law_find_gives_first_occurrence(s: Seq<char>, p: Seq<char>, i: int)
    requires
        0 <= i,
    ensures
        find_from(s, p, i) matches Some(j) ==> forall|k: int| i <= k < j ==> !match_at(s, p, k),
        find_from(s, p, i) is None ==> forall|k: int| i <= k ==> !match_at(s, p, k),
    decreases s.len() + 1 - i,
{
    if i + p.len() > s.len() {
    } else if match_at(s, p, i) {
    } else {
        law_find_gives_first_occurrence(s, p, i + 1);
    }
}

/// The last occurrence below `k` is an occurrence, and nothing between it and `k` is.
pub proof fn lemma_rfind_below(s: Seq<char>, p: Seq<char>, k: int)
    ensures
        rfind_below(s, p, k) matches Some(j) ==> 0 <= j < k && match_at(s, p, j) && forall|m: int|
            j < m < k ==> !match_at(s, p, m),
        rfind_below(s, p, k) is None ==> forall|m: int| 0 <= m < k ==> !match_at(s, p, m),
    decreases k,
{
    if k <= 0 {
    } else if match_at(s, p, k - 1) {
    } else {
        lemma_rfind_below(s, p, k - 1);
    }
}

/// What `rfind` returns is the last occurrence.
pub proof fn lemma_rfind(s: Seq<char>, p: Seq<char>)
    ensures
        rfind(s, p) matches Some(j) ==> 0 <= j && j + p.len() <= s.len() && match_at(s, p, j)
            && forall|m: int| j < m ==> !match_at(s, p, m),
        rfind(s, p) is None ==> forall|m: int| !match_at(s, p, m),
{
    lemma_rfind_below(s, p, s.len() - p.len() + 1);
}

/// `lead_ws` counts exactly the whitespace run that begins `s`.
pub proof fn lemma_lead_ws(s: Seq<char>, k: int)
    requires
        0 <= k <= s.len(),
        forall|j: int| 0 <= j < k ==> is_ws(#[trigger] s[j]),
        k == s.len() || !is_ws(s[k]),
    ensures
        lead_ws(s) == k,
    decreases k,
{
    if k > 0 {
        let t = s.drop_first();
        assert forall|j: int| 0 <= j < k - 1 implies is_ws(#[trigger] t[j]) by {
            assert(t[j] == s[j + 1]);
        }
        if k < s.len() {
            assert(t[k - 1] == s[k]);
        }
        lemma_lead_ws(t, k - 1);
    }
}

/// `trail_ws` counts exactly the whitespace run that ends `s`.
pub proof fn lemma_trail_ws(s: Seq<char>, k: int)
    requires
        0 <= k <= s.len(),
        forall|j: int| s.len() - k <= j < s.len() ==> is_ws(#[trigger] s[j]),
        k == s.len() || !is_ws(s[s.len() - k - 1]),
    ensures
        trail_ws(s) == k,
    decreases k,
{
    if k > 0 {
        let t = s.drop_last();
        assert forall|j: int| t.len() - (k - 1) <= j < t.len() implies is_ws(#[trigger] t[j]) by {
            assert(t[j] == s[j]);
        }
        if k < s.len() {
            assert(t[t.len() - (k - 1) - 1] == s[s.len() - k - 1]);
        }
        lemma_trail_ws(t, k - 1);
    }
}

/// A trimmed sequence neither begins nor ends with whitespace.
pub proof fn lemma_trim_edges(s: Seq<char>)
    ensures
        trim(s).len() > 0 ==> !is_ws(trim(s)[0]) && !is_ws(trim(s).last()),
        trim(s).len() <= s.len(),
{
    lemma_lead_ws_bound(s);
    let t = trim_start(s);
    lemma_trail_ws_bound(t);
    if trim(s).len() > 0 {
        lemma_lead_ws_stop(s);
        lemma_trail_ws_stop(t);
        assert(trim(s)[0] == t[0]);
        assert(trim(s).last() == t[t.len() - trail_ws(t) - 1]);
    }
}

proof fn lemma_lead_ws_bound(s: Seq<char>)
    ensures
        lead_ws(s) <= s.len(),
    decreases s.len(),
{
    if s.len() > 0 && is_ws(s[0]) {
        lemma_lead_ws_bound(s.drop_first());
    }
}

proof fn lemma_trail_ws_bound(s: Seq<char>)
    ensures
        trail_ws(s) <= s.len(),
    decreases s.len(),
{
    if s.len() > 0 && is_ws(s.last()) {
        lemma_trail_ws_bound(s.drop_last());
    }
}

proof fn lemma_lead_ws_stop(s: Seq<char>)
    ensures
        lead_ws(s) < s.len() ==> !is_ws(s[lead_ws(s) as int]),
    decreases s.len(),
{
    if s.len() > 0 && is_ws(s[0]) {
        let t = s.drop_first();
        lemma_lead_ws_stop(t);
        if lead_ws(s) < s.len() {
            assert(s[lead_ws(s) as int] == t[lead_ws(t) as int]);
        }
    }
}

proof fn lemma_trail_ws_stop(s: Seq<char>)
    ensures
        trail_ws(s) < s.len() ==> !is_ws(s[s.len() - trail_ws(s) - 1]),
    decreases s.len(),
{
    if s.len() > 0 && is_ws(s.last()) {
        let t = s.drop_last();
        lemma_trail_ws_stop(t);
        if trail_ws(s) < s.len() {
            assert(s[s.len() - trail_ws(s) - 1] == t[t.len() - trail_ws(t) - 1]);
        }
    }
}

// ---------------------------------------------------------------------------
// Executable functions
// ---------------------------------------------------------------------------

/// Appends one character to a string (`String::push`).
#[verifier::external_body]
fn push_char(s: &mut String, c: char)
    ensures
        final(s)@ == old(s)@.push(c),
{
    s.push(c);
}

/// The characters of a string slice, in order.
pub fn chars_of(s: &str) -> (v: Vec<char>)
    ensures
        v@ == s@,
{
    let mut v: Vec<char> = Vec::new();
    for c in it: s.chars()
        invariant
            v@ == it.seq().take(it.index() as int),
    {
        v.push(c);
    }
    v
}

/// A string made of the given characters, in order.
pub fn string_of(v: &[char]) -> (s: String)
    ensures
        s@ == v@,
{
    let mut s = String::new();
    let mut i: usize = 0;
    while i < v.len()
        invariant
            i <= v.len(),
            s@ == v@.take(i as int),
        decreases v.len() - i,
    {
        push_char(&mut s, v[i]);
        assert(v@.take(i + 1) == v@.take(i as int).push(v@[i as int]));
        i = i + 1;
    }
    assert(v@.take(v.len() as int) == v@);
    s
}

/// `char::is_whitespace`.
pub fn is_whitespace(c: char) -> (b: bool)
    ensures
        b == is_ws(c),
{
    c == ' ' || ('\u{9}' <= c && c <= '\u{d}') || c == '\u{85}' || c == '\u{a0}' || c
        == '\u{1680}' || ('\u{2000}' <= c && c <= '\u{200a}') || c == '\u{2028}' || c
        == '\u{2029}' || c == '\u{202f}' || c == '\u{205f}' || c == '\u{3000}'
}

/// The characters `s[from..to]`.
pub fn slice(s: &[char], from: usize, to: usize) -> (v: Vec<char>)
    requires
        from <= to <= s.len(),
    ensures
        v@ == s@.subrange(from as int, to as int),
{
    let mut v: Vec<char> = Vec::new();
    let mut i = from;
    while i < to
        invariant
            from <= i <= to <= s.len(),
            v@ == s@.subrange(from as int, i as int),
        decreases to - i,
    {
        v.push(s[i]);
        assert(s@.subrange(from as int, i + 1) == s@.subrange(from as int, i as int).push(
            s@[i as int],
        ));
        i = i + 1;
    }
    v
}

/// Appends the characters of `src` to `dst`.
pub fn append(dst: &mut Vec<char>, src: &[char])
    ensures
        final(dst)@ == old(dst)@ + src@,
{
    let mut i: usize = 0;
    while i < src.len()
        invariant
            i <= src.len(),
            dst@ == old(dst)@ + src@.take(i as int),
        decreases src.len() - i,
    {
        dst.push(src[i]);
        assert(src@.take(i + 1) == src@.take(i as int).push(src@[i as int]));
        i = i + 1;
    }
    assert(src@.take(src.len() as int) == src@);
}

/// `a` followed by `b`.
pub fn concat(a: &[char], b: &[char]) -> (v: Vec<char>)
    ensures
        v@ == a@ + b@,
{
    let mut v = slice(a, 0, a.len());
    assert(a@.subrange(0, a@.len() as int) == a@);
    append(&mut v, b);
    v
}

/// Whether `a` and `b` hold the same characters.
pub fn same(a: &[char], b: &[char]) -> (r: bool)
    ensures
        r == (a@ == b@),
{
    if a.len() != b.len() {
        return false;
    }
    let mut i: usize = 0;
    while i < a.len()
        invariant
            a.len() == b.len(),
            i <= a.len(),
            forall|j: int| 0 <= j < i ==> a@[j] == b@[j],
        decreases a.len() - i,
    {
        if a[i] != b[i] {
            return false;
        }
        i = i + 1;
    }
    assert(a@ =~= b@);
    true
}

/// Whether `p` occurs in `s` at position `i`.
pub fn is_match_at(s: &[char], p: &[char], i: usize) -> (r: bool)
    ensures
        r == match_at(s@, p@, i as int),
{
    if p.len() > s.len() || i > s.len() - p.len() {
        return false;
    }
    let mut k: usize = 0;
    while k < p.len()
        invariant
            i + p.len() <= s.len(),
            k <= p.len(),
            forall|j: int| 0 <= j < k ==> s@[i + j] == p@[j],
        decreases p.len() - k,
    {
        if s[i + k] != p[k] {
            assert(s@.subrange(i as int, i + p.len())[k as int] != p@[k as int]);
            return false;
        }
        k = k + 1;
    }
    assert(s@.subrange(i as int, i + p.len()) =~= p@);
    true
}

/// The first position at or after `from` where `p` occurs in `s`.
pub fn find_at_or_after(s: &[char], p: &[char], from: usize) -> (r: Option<usize>)
    ensures
        match r {
            Some(j) => find_from(s@, p@, from as int) == Some(j as int),
            None => find_from(s@, p@, from as int) is None,
        },
{
    if p.len() > s.len() {
        return None;
    }
    let mut i = from;
    while i <= s.len() - p.len()
        invariant
            p.len() <= s.len(),
            from <= i,
            find_from(s@, p@, from as int) == find_from(s@, p@, i as int),
        decreases s.len() - i,
    {
        if is_match_at(s, p, i) {
            return Some(i);
        }
        if i == s.len() - p.len() {
            assert(find_from(s@, p@, i + 1) is None);
            return None;
        }
        i = i + 1;
    }
    None
}

/// `str::find`.
pub fn find_first(s: &[char], p: &[char]) -> (r: Option<usize>)
    ensures
        match r {
            Some(j) => find(s@, p@) == Some(j as int),
            None => find(s@, p@) is None,
        },
{
    find_at_or_after(s, p, 0)
}

/// `str::rfind`.
pub fn find_last(s: &[char], p: &[char]) -> (r: Option<usize>)
    ensures
        match r {
            Some(j) => rfind(s@, p@) == Some(j as int),
            None => rfind(s@, p@) is None,
        },
{
    if p.len() > s.len() {
        return None;
    }
    if p.len() == 0 {
        assert(match_at(s@, p@, s.len() as int)) by {
            assert(s@.subrange(s.len() as int, s.len() as int) =~= p@);
        }
        return Some(s.len());
    }
    let mut k: usize = s.len() - p.len() + 1;
    while k > 0
        invariant
            p.len() <= s.len(),
            k <= s.len() - p.len() + 1,
            rfind(s@, p@) == rfind_below(s@, p@, k as int),
        decreases k,
    {
        if is_match_at(s, p, k - 1) {
            return Some(k - 1);
        }
        k = k - 1;
    }
    None
}

/// `str::contains`.
pub fn has(s: &[char], p: &[char]) -> (r: bool)
    ensures
        r == contains(s@, p@),
{
    find_first(s, p).is_some()
}

/// `str::starts_with`.
pub fn begins_with(s: &[char], p: &[char]) -> (r: bool)
    ensures
        r == starts_with(s@, p@),
{
    let r = is_match_at(s, p, 0);
    proof {
        if r {
            assert(s@.take(p.len() as int) =~= s@.subrange(0, p.len() as int));
        } else if p.len() <= s.len() {
            assert(s@.take(p.len() as int) =~= s@.subrange(0, p.len() as int));
        }
    }
    r
}

/// `str::ends_with`.
pub fn finishes_with(s: &[char], p: &[char]) -> (r: bool)
    ensures
        r == ends_with(s@, p@),
{
    if p.len() > s.len() {
        return false;
    }
    let r = is_match_at(s, p, s.len() - p.len());
    assert(s@.skip(s.len() - p.len()) =~= s@.subrange(
        s.len() - p.len(),
        s.len() - p.len() + p.len(),
    ));
    r
}

/// `str::trim`.
pub fn trimmed(s: &[char]) -> (v: Vec<char>)
    ensures
        v@ == trim(s@),
{
    let mut a: usize = 0;
    while a < s.len() && is_whitespace(s[a])
        invariant
            a <= s.len(),
            forall|j: int| 0 <= j < a ==> is_ws(#[trigger] s@[j]),
        decreases s.len() - a,
    {
        a = a + 1;
    }
    proof {
        lemma_lead_ws(s@, a as int);
    }
    let ghost t = s@.skip(a as int);
    let mut b: usize = s.len();
    while b > a && is_whitespace(s[b - 1])
        invariant
            a <= b <= s.len(),
            t == s@.skip(a as int),
            forall|j: int| b <= j < s.len() ==> is_ws(#[trigger] s@[j]),
        decreases b,
    {
        b = b - 1;
    }
    proof {
        let k = (s.len() - b) as int;
        assert forall|j: int| t.len() - k <= j < t.len() implies is_ws(#[trigger] t[j]) by {
            assert(t[j] == s@[j + a]);
        }
        if k < t.len() {
            assert(t[t.len() - k - 1] == s@[b - 1]);
        }
        lemma_trail_ws(t, k);
        assert(trim(s@) =~= s@.subrange(a as int, b as int));
    }
    slice(s, a, b)
}

/// `str::replace` with a non-empty pattern.
pub fn replaced(s: &[char], p: &[char], r: &[char]) -> (v: Vec<char>)
    requires
        p.len() > 0,
    ensures
        v@ == replace(s@, p@, r@),
{
    let mut out: Vec<char> = Vec::new();
    let mut pos: usize = 0;
    loop
        invariant
            p.len() > 0,
            pos <= s.len(),
            out@ + replace_from(s@, p@, r@, pos as int) == replace(s@, p@, r@),
        decreases s.len() - pos,
    {
        proof {
            lemma_find_from_bounds(s@, p@, pos as int);
        }
        match find_at_or_after(s, p, pos) {
            None => {
                let tail = slice(s, pos, s.len());
                assert(s@.subrange(pos as int, s.len() as int) == s@.skip(pos as int));
                append(&mut out, &tail);
                return out;
            },
            Some(j) => {
                let piece = slice(s, pos, j);
                let ghost before = out@;
                append(&mut out, &piece);
                append(&mut out, r);
                assert(before + replace_from(s@, p@, r@, pos as int) == out@ + replace_from(
                    s@,
                    p@,
                    r@,
                    j + p.len(),
                ));
                pos = j + p.len();
            },
        }
    }
}

/// `str::trim_end_matches` with a non-empty pattern.
pub fn trimmed_end_matches(s: &[char], p: &[char]) -> (v: Vec<char>)
    requires
        p.len() > 0,
    ensures
        v@ == trim_end_matches(s@, p@),
{
    let mut end: usize = s.len();
    assert(s@.take(s.len() as int) =~= s@);
    loop
        invariant
            p.len() > 0,
            end <= s.len(),
            trim_end_matches(s@.take(end as int), p@) == trim_end_matches(s@, p@),
        decreases end,
    {
        let cur = slice(s, 0, end);
        assert(cur@ == s@.take(end as int));
        if finishes_with(&cur, p) {
            assert(s@.take(end as int).take(end - p.len()) == s@.take(end - p.len()));
            end = end - p.len();
        } else {
            return cur;
        }
    }
}

/// The first item of `str::split` with pattern `p`.
pub fn first_piece(s: &[char], p: &[char]) -> (v: Vec<char>)
    ensures
        v@ == before_first(s@, p@),
{
    proof {
        lemma_find_from_bounds(s@, p@, 0);
    }
    match find_first(s, p) {
        Some(i) => slice(s, 0, i),
        None => slice(s, 0, s.len()),
    }
}

/// Whether the string `s` holds exactly the characters `t`.
pub fn str_is(s: &str, t: &[char]) -> (r: bool)
    ensures
        r == (s@ == t@),
{
    let v = chars_of(s);
    same(&v, t)
}

} // verus!

verus! {

/// What `str::to_lowercase` returns for the given characters.
pub uninterp spec fn lowercase(s: Seq<char>) -> Seq<char>;

/// `str::to_lowercase`: Unicode lowercase mapping of every character.
/// The mapping is table-driven (and may change a string's length), so its
/// result is named by `lowercase` rather than spelled out. Each character
/// maps to one or more characters, so a non-empty text stays non-empty.
#[verifier::external_body]
pub(crate) fn to_lower(s: &str) -> (r: String)
    ensures
        r@ == lowercase(s@),
        s@.len() > 0 ==> r@.len() > 0,
{
    s.to_lowercase()
}

/// Lowercase of the given characters.
pub fn lowered(s: &[char]) -> (v: Vec<char>)
    ensures
        v@ == lowercase(s@),
        s@.len() > 0 ==> v@.len() > 0,
{
    let st = string_of(s);
    let lo = to_lower(st.as_str());
    chars_of(lo.as_str())
}

/// Number of bytes that `c` takes in UTF-8.
pub open spec fn utf8_width(c: char) -> nat {
    if '\u{80}' > c {
        1
    } else if '\u{800}' > c {
        2
    } else if '\u{10000}' > c {
        3
    } else {
        4
    }
}

/// Number of bytes that `s` takes in UTF-8.
pub open spec fn utf8_len(s: Seq<char>) -> nat
    decreases s.len(),
{
    if s.len() == 0 {
        0
    } else {
        utf8_len(s.drop_last()) + utf8_width(s.last())
    }
}

/// Whether the first `n` characters of `s` take fewer than `limit` bytes in UTF-8.
pub fn prefix_bytes_below(s: &[char], n: usize, limit: usize) -> (r: bool)
    requires
        n <= s.len(),
    ensures
        r == (utf8_len(s@.take(n as int)) < limit),
{
    if limit == 0 {
        return false;
    }
    let mut total: usize = 0;
    let mut i: usize = 0;
    while i < n
        invariant
            i <= n <= s.len(),
            total == utf8_len(s@.take(i as int)),
            total < limit,
        decreases n - i,
    {
        let c = s[i];
        let w: usize = if '\u{80}' > c {
            1
        } else if '\u{800}' > c {
            2
        } else if '\u{10000}' > c {
            3
        } else {
            4
        };
        assert(s@.take(i + 1).drop_last() == s@.take(i as int));
        proof {
            lemma_utf8_len_mono(s@.take(n as int), (i + 1) as int);
            assert(s@.take(n as int).take(i + 1) == s@.take(i + 1));
        }
        if w >= limit - total {
            proof {
                lemma_utf8_len_mono(s@.take(n as int), (i + 1) as int);
                assert(s@.take(n as int).take(n as int) == s@.take(n as int));
            }
            return false;
        }
        total = total + w;
        i = i + 1;
    }
    true
}

/// A longer prefix takes at least as many bytes.
pub proof fn lemma_utf8_len_mono(s: Seq<char>, k: int)
    requires
        0 <= k <= s.len(),
    ensures
        utf8_len(s.take(k)) <= utf8_len(s),
    decreases s.len() - k,
{
    if k < s.len() {
        lemma_utf8_len_mono(s, k + 1);
        assert(s.take(k + 1).drop_last() == s.take(k));
    } else {
        assert(s.take(k) == s);
    }
}

} // verus!

verus! {

/// `s` with leading copies of the non-empty `p` removed (`str::trim_start_matches`).
pub open spec fn trim_start_matches(s: Seq<char>, p: Seq<char>) -> Seq<char>
    decreases s.len(),
{
    if p.len() > 0 && starts_with(s, p) {
        trim_start_matches(s.skip(p.len() as int), p)
    } else {
        s
    }
}

/// `str::trim_start_matches` with a non-empty pattern.
pub fn trimmed_start_matches(s: &[char], p: &[char]) -> (v: Vec<char>)
    requires
        p.len() > 0,
    ensures
        v@ == trim_start_matches(s@, p@),
{
    let mut start: usize = 0;
    assert(s@.skip(0) =~= s@);
    loop
        invariant
            p.len() > 0,
            start <= s.len(),
            trim_start_matches(s@.skip(start as int), p@) == trim_start_matches(s@, p@),
        decreases s.len() - start,
    {
        let n = s.len();
        let cur = slice(s, start, n);
        assert(cur@ == s@.skip(start as int));
        if begins_with(&cur, p) {
            assert(s@.skip(start as int).skip(p.len() as int) == s@.skip(start + p.len()));
            start = start + p.len();
        } else {
            return cur;
        }
    }
}

} // verus!

verus! {

/// Trimming twice is trimming once.
pub proof fn law_trim_idempotent(s: Seq<char>)
    ensures
        trim(trim(s)) == trim(s),
{
    let t = trim(s);
    lemma_trim_edges(s);
    if t.len() > 0 {
        lemma_lead_ws(t, 0);
        lemma_trail_ws(t.skip(0), 0);
    } else {
        lemma_lead_ws(t, 0);
        lemma_trail_ws(t.skip(0), 0);
    }
    assert(t.skip(0) =~= t);
    assert(t.take(t.len() as int) =~= t);
}

} // verus!
