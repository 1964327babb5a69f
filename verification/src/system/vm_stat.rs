//! The thread count in the output of `vm_stat`.
//!
//! The host application runs the command; [`thread_count_in`] reads its output.

use vstd::prelude::*;
use crate::utils::text::{
    chars_of, decode_utf8_lossy, is_white, is_whitespace, lines, parse_u64, spec_parse_u64,
    split_lines, texts, utf8_lossy,
};

verus! {

/// Whether `p` occurs in `s` as a run of consecutive characters.
pub open spec fn contains_text(s: Seq<char>, p: Seq<char>) -> bool {
    exists|i: int| 0 <= i && i + p.len() <= s.len() && #[trigger] s.subrange(i, i + p.len()) == p
}

/// The index of the first colon in `s`, or -1.
pub open spec fn colon_index(s: Seq<char>) -> int
    decreases s.len(),
{
    if s.len() == 0 {
        -1
    } else if s[0] == ':' {
        0
    } else {
        let k = colon_index(s.drop_first());
        if k < 0 {
            -1
        } else {
            k + 1
        }
    }
}

/// The part of `s` before its first colon; all of `s` when it has none.
pub open spec fn before_colon(s: Seq<char>) -> Seq<char> {
    let k = colon_index(s);
    if k < 0 {
        s
    } else {
        s.subrange(0, k)
    }
}

/// The second of the pieces that colons separate in a line, as `split(':').nth(1)`
/// gives it: none when the line has no colon.
pub open spec fn second_piece(l: Seq<char>) -> Option<Seq<char>> {
    let k = colon_index(l);
    if k < 0 {
        None
    } else {
        Some(before_colon(l.subrange(k + 1, l.len() as int)))
    }
}

/// A text without its leading white space.
pub open spec fn trim_start(s: Seq<char>) -> Seq<char>
    decreases s.len(),
{
    if s.len() > 0 && is_white(s[0]) {
        trim_start(s.drop_first())
    } else {
        s
    }
}

/// A text without its trailing white space.
pub open spec fn trim_end(s: Seq<char>) -> Seq<char>
    decreases s.len(),
{
    if s.len() > 0 && is_white(s.last()) {
        trim_end(s.drop_last())
    } else {
        s
    }
}

/// A text without leading and trailing white space, as `str::trim` gives it.
pub open spec fn trim(s: Seq<char>) -> Seq<char> {
    trim_end(trim_start(s))
}

/// The number that `u32::from_str` reads from a word.
pub open spec fn spec_parse_u32(w: Seq<char>) -> Option<u32> {
    match spec_parse_u64(w) {
        Some(v) => if v <= u32::MAX {
            Some(v as u32)
        } else {
            None
        },
        None => None,
    }
}

/// The thread count that a line gives: a line holding `Thread count` whose second
/// colon-separated piece, trimmed, is a number.
pub open spec fn line_thread_count(l: Seq<char>) -> Option<u32> {
    if contains_text(l, "Thread count"@) {
        match second_piece(l) {
            Some(p) => spec_parse_u32(trim(p)),
            None => None,
        }
    } else {
        None
    }
}

/// The thread count of the first line that gives one.
pub open spec fn first_thread_count(ls: Seq<Seq<char>>) -> Option<u32>
    decreases ls.len(),
{
    if ls.len() == 0 {
        None
    } else {
        match line_thread_count(ls[0]) {
            Some(n) => Some(n),
            None => first_thread_count(ls.drop_first()),
        }
    }
}

/// The first colon is where the first colon is.
proof fn lemma_colon_index(s: Seq<char>, i: int)
    requires
        0 <= i <= s.len(),
        forall|j: int| 0 <= j < i ==> s[j] != ':',
        i < s.len() ==> s[i] == ':',
    ensures
        colon_index(s) == (if i < s.len() {
            i
        } else {
            -1
        }),
    decreases s.len(),
{
    if s.len() > 0 && s[0] != ':' {
        assert forall|j: int| 0 <= j < i - 1 implies s.drop_first()[j] != ':' by {
            assert(s.drop_first()[j] == s[j + 1]);
        }
        if i < s.len() {
            assert(s.drop_first()[i - 1] == s[i]);
        }
        lemma_colon_index(s.drop_first(), i - 1);
    }
}

/// Dropping `a` leading white characters before a non-white one is trimming the start.
proof fn lemma_trim_start(s: Seq<char>, a: int)
    requires
        0 <= a <= s.len(),
        forall|j: int| 0 <= j < a ==> is_white(s[j]),
        a < s.len() ==> !is_white(s[a]),
    ensures
        trim_start(s) == s.subrange(a, s.len() as int),
    decreases a,
{
    if a > 0 {
        assert forall|j: int| 0 <= j < a - 1 implies is_white(s.drop_first()[j]) by {
            assert(s.drop_first()[j] == s[j + 1]);
        }
        if a < s.len() {
            assert(s.drop_first()[a - 1] == s[a]);
        }
        lemma_trim_start(s.drop_first(), a - 1);
        assert(s.drop_first().subrange(a - 1, s.len() - 1) =~= s.subrange(a, s.len() as int));
    } else {
        assert(s.subrange(0, s.len() as int) =~= s);
    }
}

/// Keeping the first `b` characters before trailing white ones is trimming the end.
proof fn lemma_trim_end(s: Seq<char>, b: int)
    requires
        0 <= b <= s.len(),
        forall|j: int| b <= j < s.len() ==> is_white(s[j]),
        b > 0 ==> !is_white(s[b - 1]),
    ensures
        trim_end(s) == s.subrange(0, b),
    decreases s.len() - b,
{
    if b < s.len() {
        assert forall|j: int| b <= j < s.len() - 1 implies is_white(s.drop_last()[j]) by {
            assert(s.drop_last()[j] == s[j]);
        }
        if b > 0 {
            assert(s.drop_last()[b - 1] == s[b - 1]);
        }
        lemma_trim_end(s.drop_last(), b);
        assert(s.drop_last().subrange(0, b) =~= s.subrange(0, b));
    } else {
        assert(s.subrange(0, b) =~= s);
    }
}

/// The characters of `cs` from `from` to `to`.
fn copy_range(cs: &Vec<char>, from: usize, to: usize) -> (r: Vec<char>)
    requires
        from <= to <= cs@.len(),
    ensures
        r@ == cs@.subrange(from as int, to as int),
{
    let mut out: Vec<char> = Vec::new();
    let mut i: usize = from;
    while i < to
        invariant
            from <= i <= to,
            to <= cs@.len(),
            out@ == cs@.subrange(from as int, i as int),
        decreases to - i,
    {
        out.push(cs[i]);
        i = i + 1;
        assert(out@ =~= cs@.subrange(from as int, i as int));
    }
    out
}

/// Whether `p` occurs in `cs`; see [`contains_text`].
fn contains_chars(cs: &Vec<char>, p: &Vec<char>) -> (r: bool)
    ensures
        r == contains_text(cs@, p@),
{
    if p.len() == 0 {
        assert(cs@.subrange(0, 0 + p@.len() as int) =~= p@);
        return true;
    }
    let n = cs.len();
    if p.len() > n {
        return false;
    }
    let last = n - p.len();
    let mut i: usize = 0;
    while i <= last
        invariant
            n == cs@.len(),
            p@.len() > 0,
            last + p@.len() == cs@.len(),
            i <= last + 1,
            forall|k: int| 0 <= k < i ==> #[trigger] cs@.subrange(k, k + p@.len()) != p@,
        decreases last + 1 - i,
    {
        let mut j: usize = 0;
        let mut same = true;
        while j < p.len()
            invariant
                n == cs@.len(),
                i <= last,
                last + p@.len() == cs@.len(),
                j <= p@.len(),
                same == (forall|m: int| 0 <= m < j ==> cs@[i + m] == p@[m]),
            decreases p@.len() - j,
        {
            if cs[i + j] != p[j] {
                same = false;
            }
            j = j + 1;
        }
        if same {
            assert(cs@.subrange(i as int, i + p@.len()) =~= p@);
            return true;
        }
        assert(cs@.subrange(i as int, i + p@.len()) != p@) by {
            let m = choose|m: int| 0 <= m < p@.len() && cs@[i + m] != p@[m];
            assert(cs@.subrange(i as int, i + p@.len())[m] == cs@[i + m]);
        }
        i = i + 1;
    }
    false
}

/// The index of the first colon at or after `from`, or the length when there is none.
fn find_colon(cs: &Vec<char>, from: usize) -> (r: usize)
    requires
        from <= cs@.len(),
    ensures
        from <= r <= cs@.len(),
        forall|j: int| from <= j < r ==> cs@[j] != ':',
        r < cs@.len() ==> cs@[r as int] == ':',
{
    let mut i: usize = from;
    while i < cs.len()
        invariant
            from <= i <= cs@.len(),
            forall|j: int| from <= j < i ==> cs@[j] != ':',
        decreases cs@.len() - i,
    {
        if cs[i] == ':' {
            return i;
        }
        i = i + 1;
    }
    i
}

/// The second colon-separated piece of a line; see [`second_piece`].
fn second_piece_of(l: &Vec<char>) -> (r: Option<Vec<char>>)
    ensures
        match r {
            Some(p) => second_piece(l@) == Some(p@),
            None => second_piece(l@) is None,
        },
{
    let k = find_colon(l, 0);
    proof {
        lemma_colon_index(l@, k as int);
    }
    if k == l.len() {
        return None;
    }
    let m = find_colon(l, k + 1);
    proof {
        let rest = l@.subrange(k + 1, l@.len() as int);
        assert forall|j: int| 0 <= j < m - (k + 1) implies rest[j] != ':' by {
            assert(rest[j] == l@[j + k + 1]);
        }
        if m < l@.len() {
            assert(rest[m - (k + 1)] == l@[m as int]);
        }
        lemma_colon_index(rest, m - (k + 1));
        assert(rest.subrange(0, m - (k + 1)) =~= l@.subrange(k + 1, m as int));
    }
    Some(copy_range(l, k + 1, m))
}

/// A text without leading and trailing white space; see [`trim`].
fn trim_chars(s: &Vec<char>) -> (r: Vec<char>)
    ensures
        r@ == trim(s@),
{
    let n = s.len();
    let mut a: usize = 0;
    while a < n && is_whitespace(s[a])
        invariant
            n == s@.len(),
            a <= n,
            forall|j: int| 0 <= j < a ==> is_white(s@[j]),
        decreases n - a,
    {
        a = a + 1;
    }
    proof {
        lemma_trim_start(s@, a as int);
    }
    let t = copy_range(s, a, n);
    let m = t.len();
    let mut b: usize = m;
    while b > 0 && is_whitespace(t[b - 1])
        invariant
            m == t@.len(),
            b <= m,
            forall|j: int| b <= j < m ==> is_white(t@[j]),
        decreases b,
    {
        b = b - 1;
    }
    proof {
        lemma_trim_end(t@, b as int);
    }
    copy_range(&t, 0, b)
}

/// The number that `u32::from_str` reads from a word; see [`spec_parse_u32`].
fn parse_u32(w: &Vec<char>) -> (r: Option<u32>)
    ensures
        r == spec_parse_u32(w@),
{
    match parse_u64(w) {
        Some(v) => if v <= 4294967295u64 {
            Some(v as u32)
        } else {
            None
        },
        None => None,
    }
}

/// The thread count that one line gives; see [`line_thread_count`].
fn thread_count_of_line(l: &Vec<char>, pattern: &Vec<char>) -> (r: Option<u32>)
    requires
        pattern@ == "Thread count"@,
    ensures
        r == line_thread_count(l@),
{
    if !contains_chars(l, pattern) {
        return None;
    }
    match second_piece_of(l) {
        Some(p) => parse_u32(&trim_chars(&p)),
        None => None,
    }
}

/// The thread count of the first line of a text that gives one.
pub fn thread_count_in_text(text: &str) -> (r: Option<u32>)
    ensures
        r == first_thread_count(lines(text@)),
{
    let cs = chars_of(text);
    let ls = split_lines(&cs);
    let pattern = chars_of("Thread count");
    let ghost all = texts(ls@);
    assert(all.subrange(0, all.len() as int) =~= all);
    let mut i: usize = 0;
    while i < ls.len()
        invariant
            i <= ls@.len(),
            all == texts(ls@),
            all == lines(text@),
            pattern@ == "Thread count"@,
            first_thread_count(all) == first_thread_count(all.subrange(i as int, all.len() as int)),
        decreases ls@.len() - i,
    {
        let ghost rest = all.subrange(i as int, all.len() as int);
        proof {
            assert(rest[0] == ls@[i as int]@);
            assert(rest.drop_first() =~= all.subrange(i + 1, all.len() as int));
        }
        match thread_count_of_line(&ls[i], &pattern) {
            Some(n) => {
                return Some(n);
            },
            None => {},
        }
        i = i + 1;
    }
    None
}

/// The thread count in the output of `vm_stat`, decoded as UTF-8 with invalid sequences
/// replaced: that of the first line holding `Thread count` whose second colon-separated
/// piece, trimmed, is a number.
pub fn thread_count_in(output: &[u8]) -> (r: Option<u32>)
    ensures
        r == first_thread_count(lines(utf8_lossy(output@))),
{
    let text = decode_utf8_lossy(output);
    thread_count_in_text(text.as_str())
}

} // verus!
