//! Small verified helpers for building and inspecting text.

use vstd::prelude::*;

verus! {

/// The text that `String::from_utf8_lossy` decodes from a byte sequence.
pub uninterp spec fn utf8_lossy(bytes: Seq<u8>) -> Seq<char>;

/// Decodes bytes as UTF-8, replacing invalid sequences by U+FFFD.
///
/// Calls `String::from_utf8_lossy`. The result is named `utf8_lossy` of the bytes;
/// for valid UTF-8 it is the decoded text, as std documents.
#[verifier::external_body]
pub(crate) fn decode_utf8_lossy(bytes: &[u8]) -> (r: String)
    ensures
        r@ == utf8_lossy(bytes@),
        vstd::utf8::valid_utf8(bytes@) ==> r@ == vstd::utf8::decode_utf8(bytes@),
{
    String::from_utf8_lossy(bytes).into_owned()
}

/// The character of a decimal digit.
pub open spec fn digit_char(d: nat) -> char {
    (('0' as nat) + d) as char
}

/// The decimal representation of a natural number, most significant digit first.
pub open spec fn decimal(n: nat) -> Seq<char>
    decreases n,
{
    if n < 10 {
        seq![digit_char(n)]
    } else {
        decimal(n / 10).push(digit_char(n % 10))
    }
}

/// The decimal representation of an integer, with a leading `-` when it is negative.
pub open spec fn signed_decimal(n: int) -> Seq<char> {
    if n < 0 {
        seq!['-'] + decimal((-n) as nat)
    } else {
        decimal(n as nat)
    }
}

/// Whether `p` is a prefix of `s`.
pub open spec fn is_prefix_of(p: Seq<char>, s: Seq<char>) -> bool {
    p.len() <= s.len() && s.subrange(0, p.len() as int) == p
}

/// The ASCII lower-case form of a character; other characters are unchanged.
pub open spec fn ascii_lower_char(c: char) -> char {
    if 'A' <= c && c <= 'Z' {
        ((c as u32) + 32) as char
    } else {
        c
    }
}

/// The ASCII lower-case form of a text.
pub open spec fn ascii_lower(s: Seq<char>) -> Seq<char> {
    s.map_values(|c: char| ascii_lower_char(c))
}

fn digit_str(d: u64) -> (r: &'static str)
    requires
        d < 10,
    ensures
        r@ == seq![digit_char(d as nat)],
{
    proof {
        reveal_strlit("0");
        reveal_strlit("1");
        reveal_strlit("2");
        reveal_strlit("3");
        reveal_strlit("4");
        reveal_strlit("5");
        reveal_strlit("6");
        reveal_strlit("7");
        reveal_strlit("8");
        reveal_strlit("9");
    }
    let r = if d == 0 {
        "0"
    } else if d == 1 {
        "1"
    } else if d == 2 {
        "2"
    } else if d == 3 {
        "3"
    } else if d == 4 {
        "4"
    } else if d == 5 {
        "5"
    } else if d == 6 {
        "6"
    } else if d == 7 {
        "7"
    } else if d == 8 {
        "8"
    } else {
        "9"
    };
    assert(r@ =~= seq![digit_char(d as nat)]);
    r
}

/// A new vector holding the first `n` bytes of `bytes`.
pub fn prefix_bytes(bytes: &[u8], n: usize) -> (r: Vec<u8>)
    requires
        n <= bytes@.len(),
    ensures
        r@ == bytes@.take(n as int),
{
    let mut out: Vec<u8> = Vec::new();
    let mut i: usize = 0;
    while i < n
        invariant
            n <= bytes@.len(),
            i <= n,
            out@ == bytes@.take(i as int),
        decreases n - i,
    {
        out.push(bytes[i]);
        i = i + 1;
        assert(out@ =~= bytes@.take(i as int));
    }
    out
}

/// Decodes bytes as UTF-8, or gives `None` when they are not valid UTF-8.
///
/// Calls `String::from_utf8`, which std documents to succeed exactly on valid UTF-8
/// and then to hold the decoded text.
#[verifier::external_body]
pub(crate) fn utf8_to_string(bytes: Vec<u8>) -> (r: Option<String>)
    ensures
        r is Some <==> vstd::utf8::valid_utf8(bytes@),
        r matches Some(s) ==> s@ == vstd::utf8::decode_utf8(bytes@),
{
    String::from_utf8(bytes).ok()
}

/// Appends the decimal representation of `n` to `s`.
pub fn append_decimal(s: &mut String, n: u64)
    ensures
        final(s)@ == old(s)@ + decimal(n as nat),
    decreases n,
{
    if n >= 10 {
        append_decimal(s, n / 10);
    }
    s.append(digit_str(n % 10));
    proof {
        if n >= 10 {
            assert(decimal(n as nat) == decimal((n / 10) as nat).push(digit_char((n % 10) as nat)));
        }
        assert(final(s)@ =~= old(s)@ + decimal(n as nat));
    }
}

/// Appends the decimal representation of a signed number to `s`.
pub fn append_signed_decimal(s: &mut String, n: i64)
    ensures
        final(s)@ == old(s)@ + signed_decimal(n as int),
{
    if n < 0 {
        proof {
            reveal_strlit("-");
        }
        s.append("-");
        let m: u64 = if n == i64::MIN {
            9223372036854775808u64
        } else {
            (-n) as u64
        };
        append_decimal(s, m);
        assert(final(s)@ =~= old(s)@ + signed_decimal(n as int));
    } else {
        append_decimal(s, n as u64);
    }
}

/// Whether `p` is a prefix of `s`, compared character by character.
pub fn has_prefix(s: &str, p: &str) -> (r: bool)
    ensures
        r == is_prefix_of(p@, s@),
{
    let sl = s.unicode_len();
    let pl = p.unicode_len();
    if pl > sl {
        return false;
    }
    let mut i: usize = 0;
    while i < pl
        invariant
            pl <= sl,
            sl == s@.len(),
            pl == p@.len(),
            i <= pl,
            forall|j: int| 0 <= j < i ==> s@[j] == p@[j],
        decreases pl - i,
    {
        if s.get_char(i) != p.get_char(i) {
            assert(s@.subrange(0, pl as int)[i as int] != p@[i as int]);
            return false;
        }
        i = i + 1;
    }
    assert(s@.subrange(0, pl as int) =~= p@);
    true
}

/// Whether two texts hold the same characters.
pub fn same_text(a: &str, b: &str) -> (r: bool)
    ensures
        r == (a@ == b@),
{
    let al = a.unicode_len();
    let bl = b.unicode_len();
    if al != bl {
        return false;
    }
    let mut i: usize = 0;
    while i < al
        invariant
            al == bl,
            al == a@.len(),
            bl == b@.len(),
            i <= al,
            forall|j: int| 0 <= j < i ==> a@[j] == b@[j],
        decreases al - i,
    {
        if a.get_char(i) != b.get_char(i) {
            return false;
        }
        i = i + 1;
    }
    assert(a@ =~= b@);
    true
}

/// Whether `s`, lower-cased in ASCII, equals `t`.
pub fn ascii_lower_equals(s: &str, t: &str) -> (r: bool)
    ensures
        r == (ascii_lower(s@) == t@),
{
    let sl = s.unicode_len();
    let tl = t.unicode_len();
    if sl != tl {
        assert(ascii_lower(s@).len() != t@.len());
        return false;
    }
    let mut i: usize = 0;
    while i < sl
        invariant
            sl == tl,
            sl == s@.len(),
            tl == t@.len(),
            i <= sl,
            forall|j: int| 0 <= j < i ==> ascii_lower_char(s@[j]) == t@[j],
        decreases sl - i,
    {
        let c = s.get_char(i);
        let lc = if 'A' <= c && c <= 'Z' {
            let code: u32 = (c as u32) + 32;
            proof {
                assert(code < 0xD800);
            }
            char_from_ascii_code(code)
        } else {
            c
        };
        if lc != t.get_char(i) {
            assert(ascii_lower(s@)[i as int] != t@[i as int]);
            return false;
        }
        i = i + 1;
    }
    assert(ascii_lower(s@) =~= t@);
    true
}

fn char_from_ascii_code(code: u32) -> (c: char)
    requires
        code < 128,
    ensures
        c as u32 == code,
{
    let b: u8 = code as u8;
    b as char
}

} // verus!

verus! {

/// The characters of a text, in order.
pub fn chars_of(s: &str) -> (r: Vec<char>)
    ensures
        r@ == s@,
{
    broadcast use vstd::string::group_string_axioms;
    let mut v: Vec<char> = Vec::new();
    for c in it: s.chars()
        invariant
            v@ == it.seq().take(it.index() as int),
    {
        v.push(c);
    }
    v
}

} // verus!

verus! {

/// Appends a character to a string; calls `String::push`, which std documents to
/// append the character at the end.
#[verifier::external_body]
pub(crate) fn push_char(s: &mut String, c: char)
    ensures
        final(s)@ == old(s)@.push(c),
{
    s.push(c);
}

/// The string of the given characters.
pub fn string_of_chars(cs: &Vec<char>) -> (r: String)
    ensures
        r@ == cs@,
{
    let mut s = String::new();
    let mut i: usize = 0;
    while i < cs.len()
        invariant
            i <= cs@.len(),
            s@ == cs@.take(i as int),
        decreases cs@.len() - i,
    {
        push_char(&mut s, cs[i]);
        i = i + 1;
        assert(s@ =~= cs@.take(i as int));
    }
    assert(cs@.take(cs@.len() as int) =~= cs@);
    s
}

} // verus!

verus! {

/// The texts of a sequence of character vectors.
pub open spec fn texts(s: Seq<Vec<char>>) -> Seq<Seq<char>> {
    s.map_values(|v: Vec<char>| v@)
}

/// Whether a character is white space in the sense of Unicode, as `char::is_whitespace`
/// decides.
pub open spec fn is_white(c: char) -> bool {
    let u = c as u32;
    (0x9 <= u && u <= 0xd) || u == 0x20 || u == 0x85 || u == 0xa0 || u == 0x1680 || (0x2000 <= u
        && u <= 0x200a) || u == 0x2028 || u == 0x2029 || u == 0x202f || u == 0x205f || u == 0x3000
}

/// The pieces of a text between line feeds: one more than there are line feeds.
pub open spec fn split_at_lf(s: Seq<char>) -> Seq<Seq<char>>
    decreases s.len(),
{
    if s.len() == 0 {
        seq![seq![]]
    } else {
        let p = split_at_lf(s.drop_last());
        if s.last() == '\n' {
            p.push(seq![])
        } else {
            p.update(p.len() - 1, p.last().push(s.last()))
        }
    }
}

/// A line without the carriage return that ended it, if one did.
pub open spec fn strip_cr(l: Seq<char>) -> Seq<char> {
    if l.len() > 0 && l.last() == '\r' {
        l.drop_last()
    } else {
        l
    }
}

/// Each of the pieces without the carriage return that ended it.
pub open spec fn stripped(p: Seq<Seq<char>>) -> Seq<Seq<char>> {
    p.map_values(|l: Seq<char>| strip_cr(l))
}

/// The lines of a text, as `str::lines` gives them: the pieces that a line feed ends,
/// without a carriage return before it, and the rest when it is not empty.
pub open spec fn lines(s: Seq<char>) -> Seq<Seq<char>> {
    let p = split_at_lf(s);
    let ended = stripped(p.drop_last());
    if p.last().len() == 0 {
        ended
    } else {
        ended.push(p.last())
    }
}

/// The words of a line, as `str::split_whitespace` gives them: the maximal runs of
/// characters that are not white space.
pub open spec fn words(l: Seq<char>) -> Seq<Seq<char>>
    decreases l.len(),
{
    if l.len() == 0 {
        seq![]
    } else {
        let w = words(l.drop_last());
        let c = l.last();
        if is_white(c) {
            w
        } else if l.len() >= 2 && !is_white(l[l.len() - 2]) {
            w.update(w.len() - 1, w.last().push(c))
        } else {
            w.push(seq![c])
        }
    }
}

/// Whether a character is an ASCII digit.
pub open spec fn is_digit(c: char) -> bool {
    '0' <= c && c <= '9'
}

/// The value of a sequence of decimal digits, most significant first.
pub open spec fn digits_value(d: Seq<char>) -> nat
    decreases d.len(),
{
    if d.len() == 0 {
        0
    } else {
        digits_value(d.drop_last()) * 10 + ((d.last() as nat) - ('0' as nat)) as nat
    }
}

/// Whether every character is an ASCII digit.
pub open spec fn all_digits(d: Seq<char>) -> bool {
    forall|i: int| 0 <= i < d.len() ==> is_digit(#[trigger] d[i])
}

/// The number that a sequence of at least one decimal digit denotes, when it fits in
/// 64 bits.
pub open spec fn digits_number(d: Seq<char>) -> Option<u64> {
    if d.len() > 0 && all_digits(d) && digits_value(d) <= u64::MAX {
        Some(digits_value(d) as u64)
    } else {
        None
    }
}

/// A word without its leading `+`, if it has one.
pub open spec fn unsigned_part(w: Seq<char>) -> Seq<char> {
    if w.len() > 0 && w[0] == '+' {
        w.drop_first()
    } else {
        w
    }
}

/// The number that `u64::from_str` reads from a word: an optional `+` and at least
/// one decimal digit, of a value that fits in 64 bits.
pub open spec fn spec_parse_u64(w: Seq<char>) -> Option<u64> {
    digits_number(unsigned_part(w))
}

/// Whether a character is white space; see [`is_white`].
pub fn is_whitespace(c: char) -> (r: bool)
    ensures
        r == is_white(c),
{
    let u = c as u32;
    (0x9 <= u && u <= 0xd) || u == 0x20 || u == 0x85 || u == 0xa0 || u == 0x1680 || (0x2000 <= u
        && u <= 0x200a) || u == 0x2028 || u == 0x2029 || u == 0x202f || u == 0x205f || u == 0x3000
}

/// The lines of a text; see [`lines`].
pub fn split_lines(cs: &Vec<char>) -> (r: Vec<Vec<char>>)
    ensures
        texts(r@) == lines(cs@),
{
    let mut pieces: Vec<Vec<char>> = Vec::new();
    let mut cur: Vec<char> = Vec::new();
    let mut i: usize = 0;
    while i < cs.len()
        invariant
            i <= cs@.len(),
            split_at_lf(cs@.take(i as int)) == texts(pieces@).push(cur@),
        decreases cs@.len() - i,
    {
        let c = cs[i];
        proof {
            assert(cs@.take(i + 1).drop_last() =~= cs@.take(i as int));
        }
        if c == '\n' {
            let done = cur;
            pieces.push(done);
            cur = Vec::new();
            assert(texts(pieces@).push(cur@) =~= split_at_lf(cs@.take(i + 1)));
        } else {
            cur.push(c);
            assert(texts(pieces@).push(cur@) =~= split_at_lf(cs@.take(i + 1)));
        }
        i = i + 1;
    }
    proof {
        assert(cs@.take(cs@.len() as int) =~= cs@);
    }
    let ghost p = split_at_lf(cs@);
    assert(p.drop_last() =~= texts(pieces@));
    let mut out: Vec<Vec<char>> = Vec::new();
    let mut k: usize = 0;
    while k < pieces.len()
        invariant
            k <= pieces@.len(),
            p == texts(pieces@).push(cur@),
            p.drop_last() == texts(pieces@),
            texts(out@) == stripped(p.drop_last()).take(k as int),
        decreases pieces@.len() - k,
    {
        let piece = &pieces[k];
        let n = piece.len();
        let mut line: Vec<char> = Vec::new();
        let keep: usize = if n > 0 && piece[n - 1] == '\r' {
            n - 1
        } else {
            n
        };
        let mut j: usize = 0;
        while j < keep
            invariant
                keep <= n,
                n == piece@.len(),
                j <= keep,
                line@ == piece@.take(j as int),
            decreases keep - j,
        {
            line.push(piece[j]);
            j = j + 1;
            assert(line@ =~= piece@.take(j as int));
        }
        assert(line@ =~= strip_cr(piece@));
        assert(p.drop_last()[k as int] == piece@);
        assert(stripped(p.drop_last())[k as int] == strip_cr(piece@));
        let ghost old_out = texts(out@);
        let ghost lv = line@;
        out.push(line);
        assert(texts(out@) =~= old_out.push(lv));
        assert(stripped(p.drop_last()).take(k + 1) =~= stripped(p.drop_last()).take(k as int).push(
            stripped(p.drop_last())[k as int],
        ));
        k = k + 1;
    }
    assert(stripped(p.drop_last()).take(pieces@.len() as int)
        =~= stripped(p.drop_last()));
    if cur.len() > 0 {
        out.push(cur);
        assert(texts(out@) =~= lines(cs@));
    }
    out
}

/// The words of a line; see [`words`].
pub fn split_words(cs: &Vec<char>) -> (r: Vec<Vec<char>>)
    ensures
        texts(r@) == words(cs@),
{
    let mut ws: Vec<Vec<char>> = Vec::new();
    let mut cur: Vec<char> = Vec::new();
    let mut in_word = false;
    let mut i: usize = 0;
    while i < cs.len()
        invariant
            i <= cs@.len(),
            in_word == (i > 0 && !is_white(cs@[i - 1])),
            in_word ==> cur@.len() > 0,
            !in_word ==> cur@.len() == 0,
            words(cs@.take(i as int)) == (if in_word {
                texts(ws@).push(cur@)
            } else {
                texts(ws@)
            }),
        decreases cs@.len() - i,
    {
        let c = cs[i];
        let ghost was = in_word;
        let ghost old_cur = cur@;
        proof {
            let l = cs@.take(i + 1);
            assert(l.drop_last() =~= cs@.take(i as int));
            assert(l.last() == c);
            if i > 0 {
                assert(l[i - 1] == cs@[i - 1]);
            }
            if !is_white(c) {
                if was {
                    assert(words(l) == words(cs@.take(i as int)).update(
                        words(cs@.take(i as int)).len() - 1,
                        words(cs@.take(i as int)).last().push(c),
                    ));
                    assert(words(l) =~= texts(ws@).push(old_cur.push(c)));
                } else {
                    assert(words(l) == words(cs@.take(i as int)).push(seq![c]));
                    assert(old_cur.push(c) =~= seq![c]);
                }
            }
        }
        if is_whitespace(c) {
            if in_word {
                let done = cur;
                ws.push(done);
                cur = Vec::new();
                in_word = false;
            }
            assert(words(cs@.take(i + 1)) =~= texts(ws@));
        } else {
            cur.push(c);
            in_word = true;
            assert(words(cs@.take(i + 1)) =~= texts(ws@).push(cur@));
        }
        i = i + 1;
    }
    proof {
        assert(cs@.take(cs@.len() as int) =~= cs@);
    }
    if in_word {
        ws.push(cur);
        assert(texts(ws@) =~= words(cs@));
    }
    ws
}

/// The number that a sequence of digits denotes; see [`digits_number`].
fn parse_digits(d: &Vec<char>) -> (r: Option<u64>)
    ensures
        r == digits_number(d@),
{
    if d.len() == 0 {
        return None;
    }
    let mut value: u64 = 0;
    let mut overflow = false;
    let mut i: usize = 0;
    while i < d.len()
        invariant
            i <= d@.len(),
            all_digits(d@.take(i as int)),
            overflow ==> digits_value(d@.take(i as int)) > u64::MAX,
            !overflow ==> value == digits_value(d@.take(i as int)),
        decreases d@.len() - i,
    {
        let c = d[i];
        if !('0' <= c && c <= '9') {
            assert(!is_digit(d@[i as int]));
            return None;
        }
        let digit: u64 = ((c as u32) - ('0' as u32)) as u64;
        proof {
            assert(d@.take(i + 1).drop_last() =~= d@.take(i as int));
            assert(d@.take(i + 1).last() == c);
        }
        if !overflow {
            let v: u128 = (value as u128) * 10 + (digit as u128);
            if v > (u64::MAX as u128) {
                overflow = true;
            } else {
                value = v as u64;
            }
        }
        i = i + 1;
        assert(all_digits(d@.take(i as int)));
    }
    proof {
        assert(d@.take(d@.len() as int) =~= d@);
    }
    if overflow {
        None
    } else {
        Some(value)
    }
}

/// The number that `u64::from_str` reads from a word; see [`spec_parse_u64`].
pub fn parse_u64(w: &Vec<char>) -> (r: Option<u64>)
    ensures
        r == spec_parse_u64(w@),
{
    let start: usize = if w.len() > 0 && w[0] == '+' {
        1
    } else {
        0
    };
    let mut d: Vec<char> = Vec::new();
    let mut i: usize = start;
    while i < w.len()
        invariant
            start <= 1,
            start <= i <= w@.len(),
            start == 1 ==> w@.len() > 0 && w@[0] == '+',
            start == 0 ==> !(w@.len() > 0 && w@[0] == '+'),
            d@ == w@.subrange(start as int, i as int),
        decreases w@.len() - i,
    {
        d.push(w[i]);
        i = i + 1;
        assert(d@ =~= w@.subrange(start as int, i as int));
    }
    assert(d@ =~= unsigned_part(w@));
    parse_digits(&d)
}

} // verus!
