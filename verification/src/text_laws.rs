//! What trimming, searching and splitting come to, in terms of the characters alone.

use vstd::prelude::*;
use crate::{number, text};

verus! {

// ── Characters ──────────────────────────────────────────────────────────────────
/// Lower-casing keeps the length, turns each of `A` to `Z` into the letter 32 places on, and
/// leaves every other character alone.
pub proof fn law_lower_case(s: Seq<char>)
    ensures
        text::ascii_lower(s).len() == s.len(),
        forall|i: int|
            0 <= i < s.len() ==> if 'A' <= #[trigger] s[i] <= 'Z' {
                text::ascii_lower(s)[i] as u32 == s[i] as u32 + 32
            } else {
                text::ascii_lower(s)[i] == s[i]
            },
{
    assert forall|i: int| 0 <= i < s.len() implies if 'A' <= #[trigger] s[i] <= 'Z' {
        text::ascii_lower(s)[i] as u32 == s[i] as u32 + 32
    } else {
        text::ascii_lower(s)[i] == s[i]
    } by {
        let c = s[i];
        assert(text::ascii_lower(s)[i] == text::lower_char(c));
        vstd::utf8::char_u32_cast(c, c as u32);
        if 'A' <= c <= 'Z' {
            let u = (c as u32 + 32) as u32;
            vstd::utf8::char_u32_cast(u as char, u);
        }
    }
}

// ── Searching ───────────────────────────────────────────────────────────────────
/// A pattern stands at a position exactly when its characters stand there one by one.
pub proof fn law_occurrence(s: Seq<char>, pat: Seq<char>, i: int)
    ensures
        text::occurs_at(s, pat, i) <==> 0 <= i && i + pat.len() <= s.len() && forall|j: int|
            0 <= j < pat.len() ==> #[trigger] s[i + j] == pat[j],
{
    if 0 <= i && i + pat.len() <= s.len() {
        let w = s.subrange(i, i + pat.len());
        if text::occurs_at(s, pat, i) {
            assert forall|j: int| 0 <= j < pat.len() implies #[trigger] s[i + j] == pat[j] by {
                assert(w[j] == s[i + j]);
            }
        }
        if forall|j: int| 0 <= j < pat.len() ==> #[trigger] s[i + j] == pat[j] {
            assert forall|j: int| 0 <= j < pat.len() implies w[j] == pat[j] by {
                assert(s[i + j] == pat[j]);
            }
            assert(w == pat);
        }
    }
}

/// The search finds the first position at which the pattern stands, and nothing exactly when
/// it stands nowhere.
pub proof fn law_find(s: Seq<char>, pat: Seq<char>)
    ensures
        match text::find(s, pat) {
            Some(k) => text::occurs_at(s, pat, k) && forall|j: int|
                0 <= j < k ==> !text::occurs_at(s, pat, j),
            None => forall|j: int| !text::occurs_at(s, pat, j),
        },
{
    text::lemma_find_from(s, pat, 0);
}

/// A text begins with a pattern exactly when it is the pattern and something behind it.
pub proof fn law_prefix(pat: Seq<char>, rest: Seq<char>, s: Seq<char>)
    ensures
        text::begins_with(pat + rest, pat),
        text::begins_with(s, pat) ==> s == pat + s.skip(pat.len() as int),
{
    assert((pat + rest).subrange(0, pat.len() as int) == pat);
    if text::begins_with(s, pat) {
        assert(s.subrange(0, pat.len() as int) == pat);
        assert(s == s.subrange(0, pat.len() as int) + s.skip(pat.len() as int));
    }
}

// ── Splitting ───────────────────────────────────────────────────────────────────
/// A text is split into what stands before and after the first occurrence of the pattern,
/// character by character.
pub proof fn law_split(a: Seq<char>, pat: Seq<char>, b: Seq<char>)
    requires
        forall|j: int| 0 <= j < a.len() ==> !text::occurs_at(a + pat + b, pat, j),
    ensures
        text::split_once(a + pat + b, pat) == Some((a, b)),
{
    let s = a + pat + b;
    let k = a.len() as int;
    assert(s.subrange(k, k + pat.len()) == pat);
    text::lemma_find_is(s, pat, k);
    assert(s.take(k) == a);
    assert(s.skip(k + pat.len()) == b);
}

/// A text without the pattern is not split, and what is split is the text.
pub proof fn law_split_parts(s: Seq<char>, pat: Seq<char>)
    ensures
        match text::split_once(s, pat) {
            Some((a, b)) => s == a + pat + b,
            None => forall|j: int| !text::occurs_at(s, pat, j),
        },
{
    text::lemma_find_from(s, pat, 0);
    if let Some(k) = text::find(s, pat) {
        assert(s.subrange(k, k + pat.len()) == pat);
        assert(s == s.take(k) + pat + s.skip(k + pat.len()));
    }
}

/// Splitting at a single character.
pub proof fn law_split_at_char(a: Seq<char>, c: char, b: Seq<char>)
    requires
        !a.contains(c),
    ensures
        text::split_once(a + seq![c] + b, seq![c]) == Some((a, b)),
        text::split_once(a, seq![c]) is None,
{
    let s = a + seq![c] + b;
    let pat = seq![c];
    assert forall|j: int| 0 <= j < a.len() implies !text::occurs_at(s, pat, j) by {
        assert(a.contains(a[j]));
        assert(s[j] == a[j]);
        if text::occurs_at(s, pat, j) {
            assert(s.subrange(j, j + 1)[0] == s[j]);
        }
    }
    law_split(a, pat, b);
    text::lemma_find_from(a, pat, 0);
    if let Some(k) = text::find(a, pat) {
        assert(a.subrange(k, k + 1)[0] == a[k]);
        assert(a.contains(a[k]));
    }
}

/// The lines of a text: one that ends with a line feed, without that and without one carriage
/// return before it, and then the lines of the rest; or the text itself without a line feed.
pub proof fn law_lines(line: Seq<char>, rest: Seq<char>)
    requires
        !line.contains('\n'),
    ensures
        text::lines(line + seq!['\n'] + rest) == seq![text::strip_last(line, '\r')] + text::lines(
            rest,
        ),
        line.len() > 0 ==> text::lines(line) == seq![line],
        text::lines(Seq::<char>::empty()).len() == 0,
{
    let s = line + seq!['\n'] + rest;
    law_split_at_char(line, '\n', rest);
    text::lemma_find_from(s, seq!['\n'], 0);
    let k = text::find(s, seq!['\n'])->0;
    assert(s.take(k) == line && s.skip(k + 1) == rest);
    assert(k == line.len());
    text::lemma_find_from(line, seq!['\n'], 0);
    text::lemma_find_from(Seq::<char>::empty(), seq!['\n'], 0);
}

/// The last position of a character: it stands there, and nowhere behind.
pub proof fn law_last_of(s: Seq<char>, c: char)
    ensures
        match text::last_of(s, c) {
            Some(k) => 0 <= k < s.len() && s[k] == c && forall|j: int|
                k < j < s.len() ==> s[j] != c,
            None => forall|j: int| 0 <= j < s.len() ==> s[j] != c,
        },
    decreases s.len(),
{
    if s.len() > 0 && s.last() != c {
        let t = s.drop_last();
        law_last_of(t, c);
        match text::last_of(s, c) {
            Some(k) => {
                assert(t[k] == s[k]);
                assert forall|j: int| k < j < s.len() implies s[j] != c by {
                    if j < t.len() {
                        assert(t[j] == s[j]);
                    }
                }
            },
            None => {
                assert forall|j: int| 0 <= j < s.len() implies s[j] != c by {
                    if j < t.len() {
                        assert(t[j] == s[j]);
                    }
                }
            },
        }
    }
}

// ── Trimming ────────────────────────────────────────────────────────────────────
/// Every character is white space.
pub open spec fn all_white(s: Seq<char>) -> bool {
    forall|i: int| 0 <= i < s.len() ==> text::is_white(#[trigger] s[i])
}

/// The text has no white space at its ends.
pub open spec fn is_trimmed(s: Seq<char>) -> bool {
    s.len() > 0 ==> !text::is_white(s[0]) && !text::is_white(s[s.len() - 1])
}

/// White space before a text that does not begin with any is all that trimming its start takes
/// away.
pub proof fn lemma_trim_start(pre: Seq<char>, t: Seq<char>)
    requires
        all_white(pre),
        t.len() > 0 ==> !text::is_white(t[0]),
    ensures
        text::trim_start(pre + t) == t,
    decreases pre.len(),
{
    let s = pre + t;
    if pre.len() == 0 {
        assert(s == t);
    } else {
        assert(s.first() == pre[0]);
        assert(s.drop_first() == pre.drop_first() + t);
        assert forall|i: int| 0 <= i < pre.drop_first().len() implies text::is_white(
            #[trigger] pre.drop_first()[i],
        ) by {
            assert(pre.drop_first()[i] == pre[i + 1]);
        }
        lemma_trim_start(pre.drop_first(), t);
    }
}

proof fn lemma_trim_end(t: Seq<char>, post: Seq<char>)
    requires
        all_white(post),
        t.len() > 0 ==> !text::is_white(t[t.len() - 1]),
    ensures
        text::trim_end(t + post) == t,
    decreases post.len(),
{
    let s = t + post;
    if post.len() == 0 {
        assert(s == t);
    } else {
        assert(s.last() == post[post.len() - 1]);
        assert(s.drop_last() == t + post.drop_last());
        assert forall|i: int| 0 <= i < post.drop_last().len() implies text::is_white(
            #[trigger] post.drop_last()[i],
        ) by {
            assert(post.drop_last()[i] == post[i]);
        }
        lemma_trim_end(t, post.drop_last());
    }
}

/// Trimming takes the white space at both ends away, all of it, and nothing else.
pub proof fn law_trim(pre: Seq<char>, t: Seq<char>, post: Seq<char>)
    requires
        all_white(pre),
        all_white(post),
        is_trimmed(t),
    ensures
        text::trim(pre + t + post) == t,
        text::trim_start(pre + t) == t,
{
    lemma_trim_start(pre, t);
    if t.len() == 0 {
        let w = pre + post;
        assert(pre + t + post == w);
        assert forall|i: int| 0 <= i < w.len() implies text::is_white(#[trigger] w[i]) by {
            if i >= pre.len() {
                assert(w[i] == post[i - pre.len()]);
            } else {
                assert(w[i] == pre[i]);
            }
        }
        assert(w + t == w);
        lemma_trim_start(w, t);
        lemma_trim_end(t, t);
        assert(t + t == t);
    } else {
        assert(pre + t + post == pre + (t + post));
        assert((t + post)[0] == t[0]);
        lemma_trim_start(pre, t + post);
        lemma_trim_end(t, post);
    }
}

proof fn lemma_trim_start_part(s: Seq<char>) -> (n: int)
    ensures
        0 <= n <= s.len(),
        text::trim_start(s) == s.skip(n),
        all_white(s.take(n)),
        n < s.len() ==> !text::is_white(s[n]),
    decreases s.len(),
{
    if s.len() > 0 && text::is_white(s.first()) {
        let m = lemma_trim_start_part(s.drop_first());
        assert(s.drop_first().skip(m) == s.skip(m + 1));
        assert forall|i: int| 0 <= i < m + 1 implies text::is_white(#[trigger] s.take(m + 1)[i]) by {
            if i > 0 {
                assert(s.drop_first().take(m)[i - 1] == s[i]);
            }
        }
        if m + 1 < s.len() {
            assert(s.drop_first()[m] == s[m + 1]);
        }
        m + 1
    } else {
        assert(s.skip(0) == s);
        0
    }
}

proof fn lemma_trim_end_part(s: Seq<char>) -> (n: int)
    ensures
        0 <= n <= s.len(),
        text::trim_end(s) == s.take(n),
        all_white(s.skip(n)),
        n > 0 ==> !text::is_white(s[n - 1]),
    decreases s.len(),
{
    if s.len() > 0 && text::is_white(s.last()) {
        let m = lemma_trim_end_part(s.drop_last());
        assert(s.drop_last().take(m) == s.take(m));
        assert forall|i: int| 0 <= i < s.len() - m implies text::is_white(
            #[trigger] s.skip(m)[i],
        ) by {
            if i < s.len() - m - 1 {
                assert(s.drop_last().skip(m)[i] == s[m + i]);
            }
        }
        m
    } else {
        assert(s.take(s.len() as int) == s);
        s.len() as int
    }
}

/// The text is what is left of it by trimming, with white space before and after.
pub proof fn law_trim_is_a_part(s: Seq<char>) -> (parts: (Seq<char>, Seq<char>))
    ensures
        s == parts.0 + text::trim(s) + parts.1,
        all_white(parts.0),
        all_white(parts.1),
        is_trimmed(text::trim(s)),
{
    let n = lemma_trim_start_part(s);
    let rest = s.skip(n);
    let m = lemma_trim_end_part(rest);
    assert(text::trim(s) == rest.take(m));
    assert(s == s.take(n) + rest.take(m) + rest.skip(m));
    if m > 0 {
        assert(rest.take(m)[0] == s[n]);
        assert(rest.take(m)[m - 1] == rest[m - 1]);
    }
    (s.take(n), rest.skip(m))
}

/// A text without white space at its ends is not changed by trimming.
pub proof fn law_trim_keeps(t: Seq<char>)
    requires
        is_trimmed(t),
    ensures
        text::trim(t) == t,
        text::trim_start(t) == t,
{
    let none = Seq::<char>::empty();
    assert(none + t + none == t);
    assert(none + t == t);
    law_trim(none, t, none);
}

/// Stripping a trailing run takes all of that character at the end away, and nothing else.
pub proof fn law_trim_end_char(t: Seq<char>, run: Seq<char>, c: char)
    requires
        t.len() > 0 ==> t[t.len() - 1] != c,
        forall|i: int| 0 <= i < run.len() ==> #[trigger] run[i] == c,
    ensures
        text::trim_end_char(t + run, c) == t,
    decreases run.len(),
{
    let s = t + run;
    if run.len() == 0 {
        assert(s == t);
    } else {
        let less = run.drop_last();
        assert(s.last() == run[run.len() - 1]);
        assert(s.drop_last() == t + less);
        assert forall|i: int| 0 <= i < less.len() implies #[trigger] less[i] == c by {
            assert(less[i] == run[i]);
        }
        law_trim_end_char(t, less, c);
    }
}

/// Stripping one character takes it away once, where it stands last.
pub proof fn law_strip_last(t: Seq<char>, c: char)
    ensures
        text::strip_last(t.push(c), c) == t,
        t.len() > 0 && t[t.len() - 1] != c ==> text::strip_last(t, c) == t,
        t.len() == 0 ==> text::strip_last(t, c) == t,
{
    assert(t.push(c).drop_last() == t);
}

// ── Words ───────────────────────────────────────────────────────────────────────
/// A text without white space, and not empty.
pub open spec fn is_word(s: Seq<char>) -> bool {
    s.len() > 0 && forall|i: int| 0 <= i < s.len() ==> !text::is_white(#[trigger] s[i])
}

/// The decimal form of a number is a word.
pub proof fn lemma_decimal_is_word(n: nat)
    ensures
        is_word(number::dec(n)),
{
    number::law_decimal_roundtrip(n);
    let d = number::dec(n);
    assert forall|i: int| 0 <= i < d.len() implies !text::is_white(#[trigger] d[i]) by {
        assert(number::is_digit(d[i]));
    }
}

/// A word holds no space.
pub proof fn lemma_word_has_no_space(s: Seq<char>)
    requires
        is_word(s),
    ensures
        !s.contains(' '),
        is_trimmed(s),
{
    if s.contains(' ') {
        let i = choose|i: int| 0 <= i < s.len() && s[i] == ' ';
        assert(text::is_white(s[i]));
    }
}

/// The texts of some strings are theirs, one by one.
pub proof fn law_texts(v: Seq<String>, i: int)
    requires
        0 <= i < v.len(),
    ensures
        text::texts(v).len() == v.len(),
        text::texts(v)[i] == v[i]@,
{
}

} // verus!
