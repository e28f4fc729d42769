//! Text as sequences of characters: trimming, searching and splitting.

use vstd::prelude::*;
use vstd::utf8::{decode_utf8, valid_utf8};

verus! {

// ── Characters ──────────────────────────────────────────────────────────────────
/// The characters with the Unicode `White_Space` property.
pub open spec fn is_white(c: char) -> bool {
    ||| '\u{9}' <= c <= '\u{d}'
    ||| c == ' '
    ||| c == '\u{85}'
    ||| c == '\u{a0}'
    ||| c == '\u{1680}'
    ||| '\u{2000}' <= c <= '\u{200a}'
    ||| c == '\u{2028}'
    ||| c == '\u{2029}'
    ||| c == '\u{202f}'
    ||| c == '\u{205f}'
    ||| c == '\u{3000}'
}

/// Tells whether `c` is white space.
pub fn is_whitespace(c: char) -> (r: bool)
    ensures
        r == is_white(c),
{
    ('\u{9}' <= c && c <= '\u{d}') || c == ' ' || c == '\u{85}' || c == '\u{a0}' || c == '\u{1680}'
        || ('\u{2000}' <= c && c <= '\u{200a}') || c == '\u{2028}' || c == '\u{2029}' || c
        == '\u{202f}' || c == '\u{205f}' || c == '\u{3000}'
}

/// The lower-case form of an ASCII letter; any other character itself.
pub open spec fn lower_char(c: char) -> char {
    if 'A' <= c <= 'Z' {
        ((c as u32) + 32) as char
    } else {
        c
    }
}

/// `s` with every ASCII letter in lower case.
pub open spec fn ascii_lower(s: Seq<char>) -> Seq<char> {
    s.map_values(|c: char| lower_char(c))
}

/// Lower-cases one ASCII letter and leaves any other character alone.
pub fn to_lower(c: char) -> (r: char)
    ensures
        r == lower_char(c),
{
    if 'A' <= c && c <= 'Z' {
        ((c as u8) + 32) as char
    } else {
        c
    }
}

// ── Between strings and character vectors ───────────────────────────────────────
/// `String::push` appends one character.
pub assume_specification[ String::push ](s: &mut String, c: char)
    ensures
        final(s)@ == old(s)@.push(c),
;

/// The characters of `s`.
pub fn chars_of(s: &str) -> (r: Vec<char>)
    ensures
        r@ == s@,
{
    let mut out: Vec<char> = Vec::new();
    for c in it: s.chars()
        invariant
            it.seq() == s@,
            out@ == s@.take(it.index() as int),
    {
        out.push(c);
    }
    out
}

/// The text of some bytes, with the replacement character for what is not UTF-8.
pub uninterp spec fn utf8_lossy(bytes: Seq<u8>) -> Seq<char>;

/// `String::from_utf8_lossy`: the text depends on the bytes alone, and bytes that are UTF-8
/// are decoded as they are.
#[verifier::external_body]
pub(crate) fn lossy_text(bytes: &[u8]) -> (r: String)
    ensures
        r@ == utf8_lossy(bytes@),
        valid_utf8(bytes@) ==> r@ == decode_utf8(bytes@),
{
    String::from_utf8_lossy(bytes).into_owned()
}

/// Compares two texts character by character.
pub fn same_text(a: &str, b: &str) -> (r: bool)
    ensures
        r == (a@ == b@),
{
    let x = chars_of(a);
    let y = chars_of(b);
    if x.len() != y.len() {
        return false;
    }
    for i in 0..x.len()
        invariant
            x@ == a@,
            y@ == b@,
            x.len() == y.len(),
            x@.take(i as int) == y@.take(i as int),
    {
        if x[i] != y[i] {
            return false;
        }
        assert(x@.take(i + 1) == x@.take(i as int).push(x@[i as int]));
        assert(y@.take(i + 1) == y@.take(i as int).push(y@[i as int]));
    }
    assert(x@.take(x@.len() as int) == x@);
    assert(y@.take(y@.len() as int) == y@);
    true
}

/// `a` followed by `b`.
pub fn appended(a: &str, b: &str) -> (r: String)
    ensures
        r@ == a@ + b@,
{
    let mut out = a.to_owned();
    out.append(b);
    out
}

// ── Trimming ────────────────────────────────────────────────────────────────────
/// `s` without its leading white space.
pub open spec fn trim_start(s: Seq<char>) -> Seq<char>
    decreases s.len(),
{
    if s.len() > 0 && is_white(s.first()) {
        trim_start(s.drop_first())
    } else {
        s
    }
}

/// `s` without its trailing white space.
pub open spec fn trim_end(s: Seq<char>) -> Seq<char>
    decreases s.len(),
{
    if s.len() > 0 && is_white(s.last()) {
        trim_end(s.drop_last())
    } else {
        s
    }
}

/// `s` without leading and trailing white space.
pub open spec fn trim(s: Seq<char>) -> Seq<char> {
    trim_end(trim_start(s))
}

/// `s` without the trailing run of the character `c`.
pub open spec fn trim_end_char(s: Seq<char>, c: char) -> Seq<char>
    decreases s.len(),
{
    if s.len() > 0 && s.last() == c {
        trim_end_char(s.drop_last(), c)
    } else {
        s
    }
}

/// Strips leading white space.
pub fn trimmed_start(s: &str) -> (r: &str)
    ensures
        r@ == trim_start(s@),
{
    let cs = chars_of(s);
    let mut i: usize = 0;
    assert(s@.skip(0) == s@);
    while i < cs.len() && is_whitespace(cs[i])
        invariant
            cs@ == s@,
            0 <= i <= cs.len(),
            trim_start(s@) == trim_start(s@.skip(i as int)),
        decreases cs.len() - i,
    {
        assert(s@.skip(i as int).first() == s@[i as int]);
        assert(s@.skip(i as int).drop_first() == s@.skip(i + 1));
        i += 1;
    }
    assert(i < cs.len() ==> s@.skip(i as int).first() == s@[i as int]);
    assert(s@.skip(i as int) == s@.subrange(i as int, s@.len() as int));
    s.substring_char(i, cs.len())
}

/// Strips trailing white space.
pub fn trimmed_end(s: &str) -> (r: &str)
    ensures
        r@ == trim_end(s@),
{
    let cs = chars_of(s);
    let mut n: usize = cs.len();
    assert(s@.take(n as int) == s@);
    while n > 0 && is_whitespace(cs[n - 1])
        invariant
            cs@ == s@,
            0 <= n <= cs.len(),
            trim_end(s@) == trim_end(s@.take(n as int)),
        decreases n,
    {
        assert(s@.take(n as int).last() == s@[n - 1]);
        assert(s@.take(n as int).drop_last() == s@.take(n - 1));
        n -= 1;
    }
    assert(n > 0 ==> s@.take(n as int).last() == s@[n - 1]);
    assert(s@.take(n as int) == s@.subrange(0, n as int));
    s.substring_char(0, n)
}

/// Strips leading and trailing white space.
pub fn trimmed(s: &str) -> (r: &str)
    ensures
        r@ == trim(s@),
{
    trimmed_end(trimmed_start(s))
}

/// Strips the trailing run of the character `c`.
pub fn trimmed_end_char(s: &str, c: char) -> (r: &str)
    ensures
        r@ == trim_end_char(s@, c),
{
    let cs = chars_of(s);
    let mut n: usize = cs.len();
    assert(s@.take(n as int) == s@);
    while n > 0 && cs[n - 1] == c
        invariant
            cs@ == s@,
            0 <= n <= cs.len(),
            trim_end_char(s@, c) == trim_end_char(s@.take(n as int), c),
        decreases n,
    {
        assert(s@.take(n as int).last() == s@[n - 1]);
        assert(s@.take(n as int).drop_last() == s@.take(n - 1));
        n -= 1;
    }
    assert(n > 0 ==> s@.take(n as int).last() == s@[n - 1]);
    assert(s@.take(n as int) == s@.subrange(0, n as int));
    s.substring_char(0, n)
}

/// `s` without its last character, when that is `c`.
pub open spec fn strip_last(s: Seq<char>, c: char) -> Seq<char> {
    if s.len() > 0 && s.last() == c {
        s.drop_last()
    } else {
        s
    }
}

/// Strips one trailing `c`, if there is one.
pub fn stripped_last(s: &str, c: char) -> (r: &str)
    ensures
        r@ == strip_last(s@, c),
{
    let cs = chars_of(s);
    if cs.len() > 0 && cs[cs.len() - 1] == c {
        assert(s@.drop_last() == s@.subrange(0, s@.len() - 1));
        s.substring_char(0, cs.len() - 1)
    } else {
        s
    }
}

// ── Searching and splitting ─────────────────────────────────────────────────────
/// `pat` stands in `s` at position `i`.
pub open spec fn occurs_at(s: Seq<char>, pat: Seq<char>, i: int) -> bool {
    0 <= i && i + pat.len() <= s.len() && s.subrange(i, i + pat.len()) == pat
}

/// The first position at or after `i` at which `pat` stands in `s`.
pub open spec fn find_from(s: Seq<char>, pat: Seq<char>, i: int) -> Option<int>
    decreases s.len() - i + 1,
{
    if i < 0 || i + pat.len() > s.len() {
        None
    } else if occurs_at(s, pat, i) {
        Some(i)
    } else {
        find_from(s, pat, i + 1)
    }
}

/// The first position at which `pat` stands in `s`.
pub open spec fn find(s: Seq<char>, pat: Seq<char>) -> Option<int> {
    find_from(s, pat, 0)
}

/// The parts of `s` before and after the first occurrence of `pat`.
pub open spec fn split_once(s: Seq<char>, pat: Seq<char>) -> Option<(Seq<char>, Seq<char>)> {
    match find(s, pat) {
        Some(i) => Some((s.take(i), s.skip(i + pat.len()))),
        None => None,
    }
}

/// `s` begins with `pat`.
pub open spec fn begins_with(s: Seq<char>, pat: Seq<char>) -> bool {
    occurs_at(s, pat, 0)
}

/// The search finds the first occurrence, and fails only when there is none.
pub proof fn lemma_find_from(s: Seq<char>, pat: Seq<char>, i: int)
    requires
        0 <= i,
    ensures
        match find_from(s, pat, i) {
            Some(k) => i <= k && occurs_at(s, pat, k) && forall|j: int|
                i <= j < k ==> !occurs_at(s, pat, j),
            None => forall|j: int| i <= j ==> !occurs_at(s, pat, j),
        },
    decreases s.len() - i + 1,
{
    if i + pat.len() <= s.len() && !occurs_at(s, pat, i) {
        lemma_find_from(s, pat, i + 1);
    }
}

/// The search finds whatever position has `pat` and none before it.
pub proof fn lemma_find_is(s: Seq<char>, pat: Seq<char>, k: int)
    requires
        occurs_at(s, pat, k),
        forall|j: int| 0 <= j < k ==> !occurs_at(s, pat, j),
    ensures
        find(s, pat) == Some(k),
{
    lemma_find_from(s, pat, 0);
}

fn occurs(s: &Vec<char>, pat: &Vec<char>, i: usize) -> (r: bool)
    requires
        i + pat@.len() <= s@.len(),
    ensures
        r == occurs_at(s@, pat@, i as int),
{
    let n: usize = s.len();
    let ghost w = s@.subrange(i as int, i + pat@.len());
    for j in 0..pat.len()
        invariant
            n == s@.len(),
            i + pat@.len() <= n,
            w == s@.subrange(i as int, i + pat@.len()),
            forall|k: int| 0 <= k < j ==> w[k] == pat@[k],
    {
        if s[i + j] != pat[j] {
            assert(w[j as int] != pat@[j as int]);
            return false;
        }
    }
    assert(w == pat@);
    true
}

fn position(s: &Vec<char>, pat: &Vec<char>) -> (r: Option<usize>)
    ensures
        match r {
            Some(i) => find(s@, pat@) == Some(i as int) && i + pat@.len() <= s@.len(),
            None => find(s@, pat@) is None,
        },
{
    if pat.len() > s.len() {
        return None;
    }
    let mut i: usize = 0;
    while i <= s.len() - pat.len()
        invariant
            pat@.len() <= s@.len(),
            0 <= i <= s@.len() - pat@.len() + 1,
            find(s@, pat@) == find_from(s@, pat@, i as int),
        decreases s@.len() - pat@.len() + 1 - i,
    {
        if occurs(s, pat, i) {
            return Some(i);
        }
        if i == s.len() - pat.len() {
            assert(find_from(s@, pat@, i + 1) is None);
            return None;
        }
        i += 1;
    }
    None
}

/// Splits `s` at the first occurrence of `pat`.
pub fn cut_once<'a>(s: &'a str, pat: &str) -> (r: Option<(&'a str, &'a str)>)
    ensures
        match r {
            Some(p) => split_once(s@, pat@) == Some((p.0@, p.1@)),
            None => split_once(s@, pat@) is None,
        },
{
    let cs = chars_of(s);
    let ps = chars_of(pat);
    let n: usize = cs.len();
    match position(&cs, &ps) {
        Some(i) => {
            assert(s@.take(i as int) == s@.subrange(0, i as int));
            assert(s@.skip(i + pat@.len()) == s@.subrange(i + pat@.len(), s@.len() as int));
            Some((s.substring_char(0, i), s.substring_char(i + ps.len(), n)))
        },
        None => None,
    }
}

/// Tells whether `s` begins with `pat`.
pub fn has_prefix(s: &str, pat: &str) -> (r: bool)
    ensures
        r == begins_with(s@, pat@),
{
    let cs = chars_of(s);
    let ps = chars_of(pat);
    ps.len() <= cs.len() && occurs(&cs, &ps, 0)
}

/// What follows `pat` in `s`, when `s` begins with `pat`.
pub fn without_prefix<'a>(s: &'a str, pat: &str) -> (r: Option<&'a str>)
    ensures
        match r {
            Some(t) => begins_with(s@, pat@) && t@ == s@.skip(pat@.len() as int),
            None => !begins_with(s@, pat@),
        },
{
    let cs = chars_of(s);
    let ps = chars_of(pat);
    if ps.len() <= cs.len() && occurs(&cs, &ps, 0) {
        assert(s@.skip(pat@.len() as int) == s@.subrange(pat@.len() as int, s@.len() as int));
        Some(s.substring_char(ps.len(), cs.len()))
    } else {
        None
    }
}

/// Tells whether `pat` stands in the ASCII lower-case form of `s`.
pub fn lower_contains(s: &str, pat: &str) -> (r: bool)
    ensures
        r == (find(ascii_lower(s@), pat@) is Some),
{
    let low = lowered(s);
    let ps = chars_of(pat);
    position(&low, &ps).is_some()
}

/// Tells whether the ASCII lower-case form of `s` begins with `pat`.
pub fn lower_has_prefix(s: &str, pat: &str) -> (r: bool)
    ensures
        r == begins_with(ascii_lower(s@), pat@),
{
    let low = lowered(s);
    let ps = chars_of(pat);
    ps.len() <= low.len() && occurs(&low, &ps, 0)
}

/// The characters of `s` with ASCII letters in lower case.
pub fn lowered(s: &str) -> (r: Vec<char>)
    ensures
        r@ == ascii_lower(s@),
{
    let cs = chars_of(s);
    let mut low: Vec<char> = Vec::new();
    for i in 0..cs.len()
        invariant
            cs@ == s@,
            low@ == ascii_lower(s@).take(i as int),
    {
        low.push(to_lower(cs[i]));
        assert(ascii_lower(s@).take(i + 1) == ascii_lower(s@).take(i as int).push(
            ascii_lower(s@)[i as int],
        ));
    }
    assert(ascii_lower(s@).take(cs@.len() as int) == ascii_lower(s@));
    low
}

/// The last position of the character `c` in `s`.
pub open spec fn last_of(s: Seq<char>, c: char) -> Option<int>
    decreases s.len(),
{
    if s.len() == 0 {
        None
    } else if s.last() == c {
        Some(s.len() - 1)
    } else {
        last_of(s.drop_last(), c)
    }
}

/// Finds the last `c` in `s`.
pub fn last_position(s: &Vec<char>, c: char) -> (r: Option<usize>)
    ensures
        match r {
            Some(i) => last_of(s@, c) == Some(i as int) && i < s@.len(),
            None => last_of(s@, c) is None,
        },
{
    let mut n: usize = s.len();
    assert(s@.take(n as int) == s@);
    while n > 0
        invariant
            0 <= n <= s@.len(),
            last_of(s@, c) == last_of(s@.take(n as int), c),
        decreases n,
    {
        assert(s@.take(n as int).last() == s@[n - 1]);
        assert(s@.take(n as int).drop_last() == s@.take(n - 1));
        if s[n - 1] == c {
            return Some(n - 1);
        }
        n -= 1;
    }
    None
}

/// The lines of `s`: each ends at a line feed, which is dropped together with a carriage
/// return right before it. The final line feed is optional.
pub open spec fn lines(s: Seq<char>) -> Seq<Seq<char>>
    decreases s.len(),
{
    match find(s, seq!['\n']) {
        Some(i) => if 0 <= i < s.len() {
            seq![strip_last(s.take(i), '\r')] + lines(s.skip(i + 1))
        } else {
            seq![]
        },
        None => if s.len() == 0 {
            seq![]
        } else {
            seq![s]
        },
    }
}

/// The views of a list of strings.
pub open spec fn texts(v: Seq<String>) -> Seq<Seq<char>> {
    v.map_values(|t: String| t@)
}

/// Splits `s` into its lines.
pub fn split_lines(s: &str) -> (r: Vec<String>)
    ensures
        texts(r@) == lines(s@),
{
    let mut nl: Vec<char> = Vec::new();
    nl.push('\n');
    assert(nl@ == seq!['\n']);
    let mut out: Vec<String> = Vec::new();
    let mut rest: &str = s;
    let mut more: bool = true;
    assert(texts(out@) + lines(s@) == lines(s@));
    while more
        invariant
            nl@ == seq!['\n'],
            more ==> texts(out@) + lines(rest@) == lines(s@),
            !more ==> texts(out@) == lines(s@),
        decreases rest@.len(), more as int,
    {
        let rs = chars_of(rest);
        let n: usize = rs.len();
        let ghost before = out@;
        match position(&rs, &nl) {
            Some(i) => {
                assert(rest@.take(i as int) == rest@.subrange(0, i as int));
                assert(rest@.skip(i + 1) == rest@.subrange(i + 1, rest@.len() as int));
                let line = stripped_last(rest.substring_char(0, i), '\r').to_owned();
                out.push(line);
                assert(texts(out@) == texts(before) + seq![line@]);
                rest = rest.substring_char(i + 1, n);
                assert(texts(out@) + lines(rest@) == texts(before) + (seq![line@] + lines(rest@)));
            },
            None => {
                if n > 0 {
                    let line = rest.to_owned();
                    out.push(line);
                    assert(texts(out@) == texts(before) + seq![line@]);
                } else {
                    assert(texts(before) + lines(rest@) == texts(before));
                }
                more = false;
            },
        }
    }
    out
}

} // verus!
