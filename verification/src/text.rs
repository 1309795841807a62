//! Small verified text utilities used throughout the pipeline: leftmost
//! pattern search with capture of the rest of the line, whitespace trimming,
//! and decimal rendering of machine integers.
use vstd::prelude::*;

verus! {

/// `pat` occurs in `hay` starting at position `i`.
pub open spec fn occurs_at(hay: Seq<char>, pat: Seq<char>, i: int) -> bool {
    &&& 0 <= i
    &&& i + pat.len() <= hay.len()
    &&& hay.subrange(i, i + pat.len() as int) == pat
}

/// Position of the leftmost occurrence of `pat` in `hay` at or after `from`.
pub open spec fn find_from(hay: Seq<char>, pat: Seq<char>, from: int) -> Option<int>
    decreases hay.len() - from,
{
    if from < 0 || from + pat.len() > hay.len() {
        None
    } else if pat.len() == 0 {
        Some(from)
    } else if hay.subrange(from, from + pat.len() as int) == pat {
        Some(from)
    } else {
        find_from(hay, pat, from + 1)
    }
}

/// What comes after the leftmost occurrence of `pat` in `hay`, if any.
pub open spec fn capture_after(hay: Seq<char>, pat: Seq<char>) -> Option<Seq<char>> {
    match find_from(hay, pat, 0) {
        Some(i) => Some(hay.subrange(i + pat.len() as int, hay.len() as int)),
        None => None,
    }
}

pub open spec fn opt_int(o: Option<usize>) -> Option<int> {
    match o {
        Some(i) => Some(i as int),
        None => None,
    }
}

pub open spec fn opt_text(o: Option<String>) -> Option<Seq<char>> {
    match o {
        Some(s) => Some(s@),
        None => None,
    }
}

/// `find_from` answers exactly the leftmost-occurrence question.
pub proof fn lemma_find_from(hay: Seq<char>, pat: Seq<char>, from: int)
    requires
        0 <= from,
    ensures
        match find_from(hay, pat, from) {
            Some(i) => from <= i && occurs_at(hay, pat, i) && forall|j: int|
                from <= j < i ==> !occurs_at(hay, pat, j),
            None => forall|j: int| from <= j ==> !occurs_at(hay, pat, j),
        },
    decreases hay.len() - from,
{
    if from + pat.len() > hay.len() {
        assert forall|j: int| from <= j implies !occurs_at(hay, pat, j) by {}
    } else if pat.len() == 0 {
        assert(hay.subrange(from, from + pat.len() as int) =~= pat);
    } else if hay.subrange(from, from + pat.len() as int) == pat {
    } else {
        lemma_find_from(hay, pat, from + 1);
    }
}

fn space(c: char) -> (b: bool)
    ensures
        b == is_space(c),
{
    c == ' ' || c == '\n' || c == '\t' || c == '\r'
}

pub open spec fn is_space(c: char) -> bool {
    c == ' ' || c == '\n' || c == '\t' || c == '\r'
}

/// `s` without its leading whitespace.
pub open spec fn trim_start_spec(s: Seq<char>) -> Seq<char>
    decreases s.len(),
{
    if s.len() > 0 && is_space(s[0]) {
        trim_start_spec(s.subrange(1, s.len() as int))
    } else {
        s
    }
}

/// `s` without its trailing whitespace.
pub open spec fn trim_end_spec(s: Seq<char>) -> Seq<char>
    decreases s.len(),
{
    if s.len() > 0 && is_space(s[s.len() - 1]) {
        trim_end_spec(s.subrange(0, s.len() - 1))
    } else {
        s
    }
}

/// `s` without leading and trailing whitespace.
pub open spec fn trim_spec(s: Seq<char>) -> Seq<char> {
    trim_end_spec(trim_start_spec(s))
}

fn trim_start(s: &str) -> (r: String)
    ensures
        r@ == trim_start_spec(s@),
    decreases s@.len(),
{
    let n = s.unicode_len();
    if n > 0 && space(s.get_char(0)) {
        let rest = s.substring_char(1, n);
        trim_start(rest)
    } else {
        s.to_owned()
    }
}

fn trim_end(s: &str) -> (r: String)
    ensures
        r@ == trim_end_spec(s@),
    decreases s@.len(),
{
    let n = s.unicode_len();
    if n > 0 && space(s.get_char(n - 1)) {
        let rest = s.substring_char(0, n - 1);
        trim_end(rest)
    } else {
        s.to_owned()
    }
}

/// `s` without leading and trailing whitespace, as a fresh string.
pub fn trim_text(s: &str) -> (r: String)
    ensures
        r@ == trim_spec(s@),
{
    let start_trimmed = trim_start(s);
    trim_end(start_trimmed.as_str())
}

/// The characters of `hay` from position `i` on start with `pat`.
fn matches_at(hay: &str, pat: &str, i: usize) -> (r: bool)
    requires
        i + pat@.len() <= hay@.len(),
    ensures
        r == (hay@.subrange(i as int, i as int + pat@.len() as int) == pat@),
{
    let n = pat.unicode_len();
    let hn = hay.unicode_len();
    let mut j: usize = 0;
    while j < n
        invariant
            j <= n,
            n == pat@.len(),
            hn == hay@.len(),
            i + n <= hn,
            forall|k: int| 0 <= k < j ==> hay@[i + k] == pat@[k],
        decreases n - j,
    {
        if s_get(hay, i + j) != s_get(pat, j) {
            proof {
                let sub = hay@.subrange(i as int, i as int + pat@.len() as int);
                assert(sub[j as int] == hay@[i + j]);
            }
            return false;
        }
        j += 1;
    }
    proof {
        let sub = hay@.subrange(i as int, i as int + pat@.len() as int);
        assert(sub =~= pat@);
    }
    true
}

/// Character of `s` at position `i`.
fn s_get(s: &str, i: usize) -> (c: char)
    requires
        i < s@.len(),
    ensures
        c == s@[i as int],
{
    s.get_char(i)
}

/// Position of the leftmost occurrence of `pat` in `hay` at or after `from`.
pub fn find_first(hay: &str, pat: &str, from: usize) -> (r: Option<usize>)
    ensures
        opt_int(r) == find_from(hay@, pat@, from as int),
    decreases hay@.len() - from,
{
    let hn = hay.unicode_len();
    let pn = pat.unicode_len();
    if pn > hn || from > hn - pn {
        None
    } else if pn == 0 {
        Some(from)
    } else if matches_at(hay, pat, from) {
        Some(from)
    } else {
        find_first(hay, pat, from + 1)
    }
}

/// What comes after the leftmost occurrence of `pat` in `hay`, if any.
pub fn capture_suffix(hay: &str, pat: &str) -> (r: Option<String>)
    ensures
        opt_text(r) == capture_after(hay@, pat@),
{
    match find_first(hay, pat, 0) {
        Some(i) => {
            proof {
                lemma_find_from(hay@, pat@, 0);
            }
            let hn = hay.unicode_len();
            let pn = pat.unicode_len();
            let suffix = hay.substring_char(i + pn, hn);
            Some(suffix.to_owned())
        },
        None => None,
    }
}

/// `pat` occurs somewhere in `hay`.
pub open spec fn contains_text(hay: Seq<char>, pat: Seq<char>) -> bool {
    exists|i: int| occurs_at(hay, pat, i)
}

/// The middle part of a concatenation occurs in it.
pub proof fn lemma_concat_contains(a: Seq<char>, b: Seq<char>, c: Seq<char>)
    ensures
        contains_text(a + b + c, b),
{
    let t = a + b + c;
    assert(t.subrange(a.len() as int, a.len() + b.len() as int) =~= b);
    assert(occurs_at(t, b, a.len() as int));
}

/// The front part of a concatenation occurs in it.
pub proof fn lemma_concat_contains_left(x: Seq<char>, y: Seq<char>)
    ensures
        contains_text(x + y, x),
{
    let t = x + y;
    assert(t.subrange(0, x.len() as int) =~= x);
    assert(occurs_at(t, x, 0));
}

/// Occurring in an occurring part means occurring in the whole.
pub proof fn lemma_contains_trans(t: Seq<char>, m: Seq<char>, p: Seq<char>)
    requires
        contains_text(t, m),
        contains_text(m, p),
    ensures
        contains_text(t, p),
{
    let i = choose|i: int| occurs_at(t, m, i);
    let j = choose|j: int| occurs_at(m, p, j);
    assert(t.subrange(i + j, i + j + p.len() as int) =~= p) by {
        let sub = t.subrange(i, i + m.len() as int);
        assert forall|k: int| 0 <= k < p.len() implies t.subrange(i + j, i + j + p.len() as int)[k]
            == p[k] by {
            assert(sub[j + k] == t[i + j + k]);
            assert(m.subrange(j, j + p.len() as int)[k] == p[k]);
        }
    }
    assert(occurs_at(t, p, i + j));
}

/// The two texts hold the same characters.
pub fn text_is(s: &str, t: &str) -> (r: bool)
    ensures
        r == (s@ == t@),
{
    let n = s.unicode_len();
    let m = t.unicode_len();
    if n != m {
        return false;
    }
    let r = matches_at(s, t, 0);
    proof {
        assert(s@.subrange(0, s@.len() as int) =~= s@);
    }
    r
}

pub open spec fn dec_digit(d: nat) -> char {
    if d == 0 {
        '0'
    } else if d == 1 {
        '1'
    } else if d == 2 {
        '2'
    } else if d == 3 {
        '3'
    } else if d == 4 {
        '4'
    } else if d == 5 {
        '5'
    } else if d == 6 {
        '6'
    } else if d == 7 {
        '7'
    } else if d == 8 {
        '8'
    } else {
        '9'
    }
}

/// Decimal notation of `n`, without leading zeros.
pub open spec fn dec_str(n: nat) -> Seq<char>
    decreases n,
{
    if n < 10 {
        seq![dec_digit(n)]
    } else {
        dec_str(n / 10) + seq![dec_digit(n % 10)]
    }
}

fn digit_text(d: u64) -> (s: &'static str)
    requires
        d < 10,
    ensures
        s@ == seq![dec_digit(d as nat)],
{
    proof {
        reveal_strlit("0");
        reveal_strlit("1");
        reveal_strlit("2");
        reveal_strlit("3");
        reveal_strlit("4");
        reveal_strlit("5");
        reveal_strlit("6");
        reveal_strlit("7");
        reveal_strlit("8");
        reveal_strlit("9");
    }
    let s: &'static str = if d == 0 {
        "0"
    } else if d == 1 {
        "1"
    } else if d == 2 {
        "2"
    } else if d == 3 {
        "3"
    } else if d == 4 {
        "4"
    } else if d == 5 {
        "5"
    } else if d == 6 {
        "6"
    } else if d == 7 {
        "7"
    } else if d == 8 {
        "8"
    } else {
        "9"
    };
    proof {
        assert(s@ =~= seq![dec_digit(d as nat)]);
    }
    s
}

/// Decimal notation of `n`, without leading zeros.
pub fn format_u64(n: u64) -> (s: String)
    ensures
        s@ == dec_str(n as nat),
    decreases n,
{
    if n < 10 {
        digit_text(n).to_owned()
    } else {
        let mut s = format_u64(n / 10);
        s.append(digit_text(n % 10));
        s
    }
}

} // verus!
