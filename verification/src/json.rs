//! A minimal JSON object builder for small, server-controlled payloads.

use vstd::prelude::*;
use crate::number::{self, push_dec_int};
use crate::text::{self, chars_of, cut_once, without_prefix};
use crate::text_laws::{law_prefix, law_split_at_char, law_split_parts};

verus! {

// ── Escaping ────────────────────────────────────────────────────────────────────
/// How `c` is written within a JSON string.
pub open spec fn escape_char(c: char) -> Seq<char> {
    if c == '"' {
        seq!['\\', '"']
    } else if c == '\\' {
        seq!['\\', '\\']
    } else if c == '\n' {
        seq!['\\', 'n']
    } else if c == '\r' {
        seq!['\\', 'r']
    } else if c == '\t' {
        seq!['\\', 't']
    } else if (c as u32) < 0x20 {
        seq![
            '\\',
            'u',
            '0',
            '0',
            number::digit_char((c as u32 / 16) as nat),
            number::digit_char((c as u32 % 16) as nat),
        ]
    } else {
        seq![c]
    }
}

/// How `s` is written within a JSON string.
pub open spec fn escape(s: Seq<char>) -> Seq<char>
    decreases s.len(),
{
    if s.len() == 0 {
        seq![]
    } else {
        escape_char(s.first()) + escape(s.drop_first())
    }
}

proof fn lemma_escape_push(s: Seq<char>, c: char)
    ensures
        escape(s.push(c)) == escape(s) + escape_char(c),
    decreases s.len(),
{
    if s.len() == 0 {
        assert(s.push(c).drop_first() == Seq::<char>::empty());
        assert(escape(Seq::<char>::empty()) == Seq::<char>::empty());
        assert(escape(s.push(c)) == escape_char(c));
    } else {
        assert(s.push(c).drop_first() == s.drop_first().push(c));
        lemma_escape_push(s.drop_first(), c);
        assert(escape(s.push(c)) == escape(s) + escape_char(c));
    }
}

/// Appends `s` to `out` with JSON string escaping.
pub fn json_escape(s: &str, out: &mut String)
    ensures
        final(out)@ == old(out)@ + escape(s@),
{
    let cs = chars_of(s);
    assert(escape(s@.take(0)) == Seq::<char>::empty());
    for i in 0..cs.len()
        invariant
            cs@ == s@,
            out@ == old(out)@ + escape(s@.take(i as int)),
    {
        let c = cs[i];
        proof {
            assert(s@.take(i + 1) == s@.take(i as int).push(c));
            lemma_escape_push(s@.take(i as int), c);
        }
        if c == '"' {
            out.push('\\');
            out.push('"');
        } else if c == '\\' {
            out.push('\\');
            out.push('\\');
        } else if c == '\n' {
            out.push('\\');
            out.push('n');
        } else if c == '\r' {
            out.push('\\');
            out.push('r');
        } else if c == '\t' {
            out.push('\\');
            out.push('t');
        } else if (c as u32) < 0x20 {
            out.push('\\');
            out.push('u');
            out.push('0');
            out.push('0');
            out.push(number::digit((c as u32 / 16) as u8));
            out.push(number::digit((c as u32 % 16) as u8));
        } else {
            out.push(c);
        }
        assert(out@ == old(out)@ + (escape(s@.take(i as int)) + escape_char(c)));
    }
    assert(s@.take(cs@.len() as int) == s@);
}

// ── Objects ─────────────────────────────────────────────────────────────────────
/// An object under construction: its text without the closing brace.
pub struct Json {
    pub text: String,
}

impl View for Json {
    type V = Seq<char>;

    open spec fn view(&self) -> Seq<char> {
        self.text@
    }
}

/// The text `t` of an object with one more member: a comma unless `t` ends with the opening
/// brace, the quoted key, a colon and the value.
pub open spec fn with_member(t: Seq<char>, key: Seq<char>, value: Seq<char>) -> Seq<char> {
    let comma = if t.len() > 0 && t.last() == '{' {
        Seq::<char>::empty()
    } else {
        seq![',']
    };
    t + comma + seq!['"'] + escape(key) + seq!['"', ':'] + value
}

/// `s` as a JSON string.
pub open spec fn quoted(s: Seq<char>) -> Seq<char> {
    seq!['"'] + escape(s) + seq!['"']
}

/// `b` as a JSON truth value.
pub open spec fn truth(b: bool) -> Seq<char> {
    if b {
        "true"@
    } else {
        "false"@
    }
}

/// Digits without a needless zero in front.
pub open spec fn is_whole(t: Seq<char>) -> bool {
    t.len() > 0 && number::all_digits(t) && (t.len() == 1 || t[0] != '0')
}

/// A number as JSON has it, without an exponent.
pub open spec fn is_number(t: Seq<char>) -> bool {
    let u = if text::begins_with(t, "-"@) {
        t.skip(1)
    } else {
        t
    };
    match text::split_once(u, "."@) {
        Some((whole, fraction)) => is_whole(whole) && fraction.len() > 0 && number::all_digits(
            fraction,
        ),
        None => is_whole(u),
    }
}

fn only_digits(s: &str) -> (r: bool)
    ensures
        r == number::all_digits(s@),
{
    let cs = chars_of(s);
    for i in 0..cs.len()
        invariant
            cs@ == s@,
            forall|j: int| 0 <= j < i ==> number::is_digit(#[trigger] s@[j]),
    {
        let c = cs[i];
        if !('0' <= c && c <= '9') {
            assert(!number::is_digit(s@[i as int]));
            return false;
        }
    }
    true
}

fn whole(s: &str) -> (r: bool)
    ensures
        r == is_whole(s@),
{
    let cs = chars_of(s);
    cs.len() > 0 && only_digits(s) && (cs.len() == 1 || cs[0] != '0')
}

/// A number that is known by its text.
pub struct Decimal {
    text: String,
}

impl Decimal {
    #[verifier::type_invariant]
    spec fn inv(self) -> bool {
        is_number(self.text@)
    }

    /// The text of the number.
    pub closed spec fn shown(&self) -> Seq<char> {
        self.text@
    }

    /// The number with this text, if it is one.
    pub fn new(t: &str) -> (r: Option<Decimal>)
        ensures
            match r {
                Some(d) => is_number(t@) && d.shown() == t@,
                None => !is_number(t@),
            },
    {
        proof {
            reveal_strlit("-");
        }
        let u = match without_prefix(t, "-") {
            Some(rest) => rest,
            None => t,
        };
        let ok = match cut_once(u, ".") {
            Some((a, b)) => whole(a) && !b.is_empty() && only_digits(b),
            None => whole(u),
        };
        if ok {
            Some(Decimal { text: t.to_owned() })
        } else {
            None
        }
    }

    /// The text of the number.
    pub fn as_str(&self) -> (r: &str)
        ensures
            r@ == self.shown(),
            is_number(r@),
    {
        proof {
            use_type_invariant(self);
        }
        self.text.as_str()
    }
}

impl Json {
    /// An object without members.
    pub fn new() -> (r: Json)
        ensures
            r@ == seq!['{'],
    {
        let mut text = String::new();
        text.push('{');
        assert(text@ == seq!['{']);
        Json { text }
    }

    /// Adds a comma unless the object has no members yet.
    pub fn sep(&mut self)
        ensures
            final(self)@ == if old(self)@.len() > 0 && old(self)@.last() == '{' {
                old(self)@
            } else {
                old(self)@.push(',')
            },
    {
        let cs = chars_of(self.text.as_str());
        if !(cs.len() > 0 && cs[cs.len() - 1] == '{') {
            self.text.push(',');
        }
    }

    /// Adds a quoted key and a colon.
    pub fn key(&mut self, k: &str)
        ensures
            final(self)@ == old(self)@ + seq!['"'] + escape(k@) + seq!['"', ':'],
    {
        let ghost t = self@;
        self.text.push('"');
        json_escape(k, &mut self.text);
        self.text.push('"');
        self.text.push(':');
        assert(self@ == t + seq!['"'] + escape(k@) + seq!['"', ':']);
    }

    /// Adds a member whose value is the text `value` as it stands.
    fn raw(self, k: &str, value: &str) -> (r: Json)
        ensures
            r@ == with_member(self@, k@, value@),
    {
        let mut j = self;
        j.sep();
        j.key(k);
        j.text.append(value);
        assert(j@ == with_member(self@, k@, value@));
        j
    }

    /// Adds a number.
    pub fn number(self, k: &str, value: &Decimal) -> (r: Json)
        ensures
            r@ == with_member(self@, k@, value.shown()),
            is_number(value.shown()),
    {
        self.raw(k, value.as_str())
    }

    /// Adds a string member.
    pub fn str(self, k: &str, v: &str) -> (r: Json)
        ensures
            r@ == with_member(self@, k@, quoted(v@)),
    {
        let mut j = self;
        j.sep();
        j.key(k);
        j.text.push('"');
        json_escape(v, &mut j.text);
        j.text.push('"');
        assert(j@ == with_member(self@, k@, quoted(v@)));
        j
    }

    /// Adds an integer member.
    pub fn integer(self, k: &str, v: i64) -> (r: Json)
        ensures
            r@ == with_member(self@, k@, number::dec_int(v as int)),
    {
        let mut j = self;
        j.sep();
        j.key(k);
        push_dec_int(&mut j.text, v as i128);
        assert(j@ == with_member(self@, k@, number::dec_int(v as int)));
        j
    }

    /// Adds a truth value.
    pub fn bool(self, k: &str, v: bool) -> (r: Json)
        ensures
            r@ == with_member(self@, k@, truth(v)),
    {
        self.raw(
            k,
            if v {
                "true"
            } else {
                "false"
            },
        )
    }

    /// Closes the object.
    pub fn done(self) -> (r: String)
        ensures
            r@ == self@.push('}'),
    {
        let mut j = self;
        j.text.push('}');
        j.text
    }
}

// ── Laws ────────────────────────────────────────────────────────────────────────
/// The text of the object with these members, without the closing brace: the members stand
/// behind the opening brace with commas between them.
pub open spec fn object_text(members: Seq<(Seq<char>, Seq<char>)>) -> Seq<char>
    decreases members.len(),
{
    if members.len() == 0 {
        seq!['{']
    } else {
        let (k, v) = members.last();
        let comma = if members.len() == 1 {
            Seq::<char>::empty()
        } else {
            seq![',']
        };
        object_text(members.drop_last()) + comma + seq!['"'] + escape(k) + seq!['"', ':'] + v
    }
}

/// A value that is not empty and does not end with an opening brace.
pub open spec fn is_plain(v: Seq<char>) -> bool {
    v.len() > 0 && v.last() != '{'
}

/// Adding a member to the text of an object gives the text of the object with that member,
/// so members are separated by commas and nothing else.
pub proof fn law_members_are_separated(
    members: Seq<(Seq<char>, Seq<char>)>,
    key: Seq<char>,
    value: Seq<char>,
)
    requires
        members.len() > 0 ==> is_plain(members.last().1),
    ensures
        with_member(object_text(members), key, value) == object_text(members.push((key, value))),
{
    let more = members.push((key, value));
    assert(more.drop_last() == members);
    let t = object_text(members);
    if members.len() > 0 {
        assert(t.last() == members.last().1.last());
    }
    assert(with_member(t, key, value) == object_text(more));
}

/// The values that the builder writes are such values.
pub proof fn law_built_values_are_plain(s: Seq<char>, i: int, b: bool)
    ensures
        is_plain(quoted(s)),
        is_plain(number::dec_int(i)),
        is_plain(truth(b)),
{
    assert(quoted(s).last() == '"');
    reveal_strlit("true");
    reveal_strlit("false");
    let n = if i < 0 {
        (-i) as nat
    } else {
        i as nat
    };
    number::law_decimal_roundtrip(n);
    let d = number::dec(n);
    assert(number::is_digit(d[d.len() - 1]));
    assert(number::dec_int(i).last() == d.last());
}

/// Numbers are such values.
pub proof fn law_numbers_are_plain(t: Seq<char>)
    requires
        is_number(t),
    ensures
        is_plain(t),
{
    reveal_strlit("-");
    reveal_strlit(".");
    let u = if text::begins_with(t, "-"@) {
        t.skip(1)
    } else {
        t
    };
    text::lemma_find_from(u, "."@, 0);
    match text::split_once(u, "."@) {
        Some((whole, fraction)) => {
            let last = fraction[fraction.len() - 1];
            assert(number::is_digit(last));
            assert(u.last() == last);
        },
        None => {
            assert(number::is_digit(u[u.len() - 1]));
        },
    }
    assert(t.last() == u.last());
}

/// The value of a lower-case hexadecimal digit.
pub open spec fn hex_value(c: char) -> Option<nat> {
    if '0' <= c <= '9' {
        Some((c as int - 48) as nat)
    } else if 'a' <= c <= 'f' {
        Some((c as int - 87) as nat)
    } else {
        None
    }
}

/// The text that the contents `t` of a JSON string stand for. A bare quote or control
/// character, or a backslash that escapes nothing, makes `t` no such contents.
pub open spec fn unescape(t: Seq<char>) -> Option<Seq<char>>
    decreases t.len(),
{
    if t.len() == 0 {
        Some(seq![])
    } else if t[0] == '\\' {
        if t.len() < 2 {
            None
        } else if t[1] == '"' || t[1] == '\\' {
            prepend(t[1], unescape(t.skip(2)))
        } else if t[1] == 'n' {
            prepend('\n', unescape(t.skip(2)))
        } else if t[1] == 'r' {
            prepend('\r', unescape(t.skip(2)))
        } else if t[1] == 't' {
            prepend('\t', unescape(t.skip(2)))
        } else if t[1] == 'u' && t.len() >= 6 && t[2] == '0' && t[3] == '0' && hex_value(
            t[4],
        ) is Some && hex_value(t[5]) is Some {
            prepend((hex_value(t[4])->0 * 16 + hex_value(t[5])->0) as char, unescape(t.skip(6)))
        } else {
            None
        }
    } else if t[0] == '"' || (t[0] as u32) < 0x20 {
        None
    } else {
        prepend(t[0], unescape(t.skip(1)))
    }
}

/// `c` in front of a text, if there is one.
pub open spec fn prepend(c: char, rest: Option<Seq<char>>) -> Option<Seq<char>> {
    match rest {
        Some(r) => Some(seq![c] + r),
        None => None,
    }
}

/// Every text can be read back from its escaped form, which holds no bare quote, backslash
/// or control character.
pub proof fn law_escape_roundtrip(s: Seq<char>)
    ensures
        unescape(escape(s)) == Some(s),
    decreases s.len(),
{
    if s.len() == 0 {
        assert(escape(s) == Seq::<char>::empty());
    } else {
        let c = s.first();
        let e = escape_char(c);
        let rest = escape(s.drop_first());
        law_escape_roundtrip(s.drop_first());
        let t = e + rest;
        assert(escape(s) == t);
        assert(t.skip(e.len() as int) == rest);
        assert(t[0] == e[0]);
        if e.len() > 1 {
            assert(t[1] == e[1]);
        }
        if e.len() == 6 {
            assert(t[2] == e[2] && t[3] == e[3] && t[4] == e[4] && t[5] == e[5]);
            let high = (c as u32 / 16) as nat;
            let low = (c as u32 % 16) as nat;
            assert(hex_value(number::digit_char(high)) == Some(high));
            assert(hex_value(number::digit_char(low)) == Some(low));
            assert(high * 16 + low == c as u32);
            vstd::utf8::char_u32_cast(c, c as u32);
            assert((high * 16 + low) as char == c);
        }
        assert(unescape(t) == prepend(c, unescape(rest)));
        assert(seq![c] + s.drop_first() == s);
    }
}

/// Different texts have different escaped forms.
pub proof fn law_escape_injective(a: Seq<char>, b: Seq<char>)
    requires
        escape(a) == escape(b),
    ensures
        a == b,
{
    law_escape_roundtrip(a);
    law_escape_roundtrip(b);
}

/// Text is escaped character by character, so the parts of a text are escaped on their own.
pub proof fn law_escape_splits(a: Seq<char>, b: Seq<char>)
    ensures
        escape(a + b) == escape(a) + escape(b),
    decreases b.len(),
{
    if b.len() == 0 {
        assert(a + b == a);
        assert(escape(b) == Seq::<char>::empty());
    } else {
        let c = b.last();
        let less = b.drop_last();
        law_escape_splits(a, less);
        assert(a + b == (a + less).push(c));
        assert(b == less.push(c));
        lemma_escape_push(a + less, c);
        lemma_escape_push(less, c);
        assert(escape(a) + (escape(less) + escape_char(c)) == (escape(a) + escape(less))
            + escape_char(c));
    }
}

/// Text without quotes, backslashes and control characters is written as it is.
pub proof fn law_ordinary_text_is_kept(s: Seq<char>)
    requires
        forall|i: int|
            0 <= i < s.len() ==> #[trigger] s[i] >= ' ' && s[i] != '"' && s[i] != '\\',
    ensures
        escape(s) == s,
    decreases s.len(),
{
    if s.len() > 0 {
        let rest = s.drop_first();
        assert forall|i: int| 0 <= i < rest.len() implies #[trigger] rest[i] >= ' ' && rest[i]
            != '"' && rest[i] != '\\' by {
            assert(rest[i] == s[i + 1]);
        }
        law_ordinary_text_is_kept(rest);
        let c = s[0];
        vstd::utf8::char_u32_cast(c, c as u32);
        assert(seq![c] + rest == s);
    }
}

/// A quote and a backslash get a backslash in front, and a line feed, a carriage return and a
/// tab have their letters.
pub proof fn law_special_characters()
    ensures
        escape(seq!['"']) == seq!['\\', '"'],
        escape(seq!['\\']) == seq!['\\', '\\'],
        escape(seq!['\n']) == seq!['\\', 'n'],
        escape(seq!['\r']) == seq!['\\', 'r'],
        escape(seq!['\t']) == seq!['\\', 't'],
{
    let none = Seq::<char>::empty();
    assert(escape(none) == none);
    lemma_escape_push(none, '"');
    lemma_escape_push(none, '\\');
    lemma_escape_push(none, '\n');
    lemma_escape_push(none, '\r');
    lemma_escape_push(none, '\t');
    assert(none.push('"') == seq!['"']);
    assert(none.push('\\') == seq!['\\']);
    assert(none.push('\n') == seq!['\n']);
    assert(none.push('\r') == seq!['\r']);
    assert(none.push('\t') == seq!['\t']);
}

/// A JSON string is the escaped text between two quotes, and the truth values are their names.
pub proof fn law_values_are_written(s: Seq<char>)
    ensures
        quoted(s).len() == escape(s).len() + 2,
        quoted(s)[0] == '"',
        quoted(s)[quoted(s).len() - 1] == '"',
        quoted(s).subrange(1, quoted(s).len() - 1) == escape(s),
        truth(true) == "true"@,
        truth(false) == "false"@,
{
}

/// The decimal form of a number is a JSON number, and so it is with a minus sign in front and
/// a fraction behind it.
pub proof fn law_decimal_forms_are_numbers(n: nat, fraction: Seq<char>)
    requires
        number::all_digits(fraction),
        fraction.len() > 0,
    ensures
        is_number(number::dec(n)),
        is_number("-"@ + number::dec(n)),
        is_number(number::dec(n) + "."@ + fraction),
        is_number("-"@ + (number::dec(n) + "."@ + fraction)),
{
    reveal_strlit("-");
    reveal_strlit(".");
    assert("."@ == seq!['.']);
    let d = number::dec(n);
    number::law_decimal_roundtrip(n);
    number::law_decimal_is_canonical(n);
    assert(is_whole(d));
    assert forall|i: int| 0 <= i < d.len() implies d[i] != '.' by {
        assert(number::is_digit(d[i]));
    }
    law_split_at_char(d, '.', fraction);
    let f = d + "."@ + fraction;
    assert(number::is_digit(d[0]));
    assert(d[0] == f[0]);
    if text::begins_with(d, "-"@) {
        assert(d.subrange(0, 1)[0] == '-');
    }
    if text::begins_with(f, "-"@) {
        assert(f.subrange(0, 1)[0] == '-');
    }
    law_prefix("-"@, d, d);
    law_prefix("-"@, f, f);
    assert(("-"@ + d).skip(1) == d);
    assert(("-"@ + f).skip(1) == f);
}

/// A JSON number is made of digits, but for a minus sign in front and one point.
pub proof fn law_numbers_are_digits(t: Seq<char>, i: int)
    requires
        is_number(t),
        0 <= i < t.len(),
    ensures
        '0' <= t[i] <= '9' || t[i] == '.' || (i == 0 && t[i] == '-'),
{
    reveal_strlit("-");
    reveal_strlit(".");
    let minus = text::begins_with(t, "-"@);
    let u = if minus {
        t.skip(1)
    } else {
        t
    };
    let k = if minus {
        i - 1
    } else {
        i
    };
    if minus && i == 0 {
        assert(t.subrange(0, 1)[0] == '-');
    } else {
        assert(u[k] == t[i]);
        law_split_parts(u, "."@);
        match text::split_once(u, "."@) {
            Some((a, b)) => {
                if k < a.len() {
                    assert(number::is_digit(a[k]));
                } else if k > a.len() {
                    assert(number::is_digit(b[k - a.len() - 1]));
                }
            },
            None => {
                assert(number::is_digit(u[k]));
            },
        }
    }
}

} // verus!
