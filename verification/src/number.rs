//! Numbers as text: decimal in both directions, and hexadecimal output.

use vstd::prelude::*;
use crate::text::chars_of;

verus! {

// ── Digits ──────────────────────────────────────────────────────────────────────
/// `c` is one of `0`..`9`.
pub open spec fn is_digit(c: char) -> bool {
    '0' <= c <= '9'
}

/// The value of a decimal digit.
pub open spec fn digit_value(c: char) -> nat {
    (c as int - '0' as int) as nat
}

/// The digit of base sixteen with value `d`, in lower case.
pub open spec fn digit_char(d: nat) -> char {
    if d < 10 {
        (48 + d) as char
    } else {
        (87 + d) as char
    }
}

pub(crate) fn digit(d: u8) -> (c: char)
    requires
        d < 16,
    ensures
        c == digit_char(d as nat),
{
    if d < 10 {
        (48 + d) as char
    } else {
        (87 + d) as char
    }
}

// ── Reading decimal numbers ─────────────────────────────────────────────────────
/// Every character of `s` is a digit.
pub open spec fn all_digits(s: Seq<char>) -> bool {
    forall|i: int| 0 <= i < s.len() ==> is_digit(#[trigger] s[i])
}

/// The number that the digits `s` spell.
pub open spec fn digits_value(s: Seq<char>) -> nat
    decreases s.len(),
{
    if s.len() == 0 {
        0
    } else {
        digits_value(s.drop_last()) * 10 + digit_value(s.last())
    }
}

/// An unsigned decimal number: digits, after an optional `+`, of value at most `max`.
pub open spec fn unsigned(s: Seq<char>, max: nat) -> Option<nat> {
    let d = if s.len() > 0 && s[0] == '+' {
        s.skip(1)
    } else {
        s
    };
    if d.len() > 0 && all_digits(d) && digits_value(d) <= max {
        Some(digits_value(d))
    } else {
        None
    }
}

/// A signed decimal number that fits in 64 bits: digits, after an optional `+` or `-`.
pub open spec fn signed(s: Seq<char>) -> Option<int> {
    let minus = s.len() > 0 && s[0] == '-';
    let d = if s.len() > 0 && (s[0] == '+' || s[0] == '-') {
        s.skip(1)
    } else {
        s
    };
    let v = if minus {
        -(digits_value(d) as int)
    } else {
        digits_value(d) as int
    };
    if d.len() > 0 && all_digits(d) && i64::MIN <= v <= i64::MAX {
        Some(v)
    } else {
        None
    }
}

/// Reading further digits never makes the number smaller.
proof fn lemma_prefix_value(s: Seq<char>, k: int)
    requires
        0 <= k <= s.len(),
    ensures
        digits_value(s.take(k)) <= digits_value(s),
    decreases s.len() - k,
{
    if k < s.len() {
        assert(s.take(k + 1).drop_last() == s.take(k));
        lemma_prefix_value(s, k + 1);
    } else {
        assert(s.take(k) == s);
    }
}

/// The value of the digits from position `from` on, when it is at most `max`.
fn read_digits(cs: &Vec<char>, from: usize, max: u64) -> (r: Option<u64>)
    requires
        from <= cs@.len(),
    ensures
        match r {
            Some(v) => cs@.skip(from as int).len() > 0 && all_digits(cs@.skip(from as int)) && v
                == digits_value(cs@.skip(from as int)) && v <= max,
            None => cs@.skip(from as int).len() == 0 || !all_digits(cs@.skip(from as int))
                || digits_value(cs@.skip(from as int)) > max,
        },
{
    let ghost d = cs@.skip(from as int);
    if from == cs.len() {
        return None;
    }
    let mut v: u128 = 0;
    let mut i: usize = from;
    while i < cs.len()
        invariant
            d == cs@.skip(from as int),
            from <= i <= cs@.len(),
            v == digits_value(d.take(i - from)),
            v <= max,
            all_digits(d.take(i - from)),
        decreases cs@.len() - i,
    {
        let c = cs[i];
        assert(d[i - from] == c);
        if !('0' <= c && c <= '9') {
            assert(!is_digit(d[i - from]));
            return None;
        }
        assert(d.take(i - from + 1).drop_last() == d.take(i - from));
        v = v * 10 + (c as u8 - 48) as u128;
        assert(v == digits_value(d.take(i - from + 1)));
        assert(all_digits(d.take(i - from + 1))) by {
            assert forall|j: int| 0 <= j < i - from + 1 implies is_digit(
                #[trigger] d.take(i - from + 1)[j],
            ) by {
                if j < i - from {
                    assert(is_digit(d.take(i - from)[j]));
                }
            }
        }
        if v > max as u128 {
            proof {
                lemma_prefix_value(d, i - from + 1);
            }
            return None;
        }
        i += 1;
    }
    assert(d.take(i - from) == d);
    Some(v as u64)
}

/// Reads an unsigned decimal number of at most `max`.
pub fn read_unsigned(s: &str, max: u64) -> (r: Option<u64>)
    ensures
        match r {
            Some(v) => unsigned(s@, max as nat) == Some(v as nat),
            None => unsigned(s@, max as nat) is None,
        },
{
    let cs = chars_of(s);
    assert(s@.skip(0) == s@);
    if cs.len() > 0 && cs[0] == '+' {
        read_digits(&cs, 1, max)
    } else {
        read_digits(&cs, 0, max)
    }
}

/// Reads a signed decimal number that fits in 64 bits.
pub fn read_signed(s: &str) -> (r: Option<i64>)
    ensures
        match r {
            Some(v) => signed(s@) == Some(v as int),
            None => signed(s@) is None,
        },
{
    let cs = chars_of(s);
    assert(s@.skip(0) == s@);
    if cs.len() > 0 && cs[0] == '-' {
        match read_digits(&cs, 1, 0x8000_0000_0000_0000) {
            Some(v) => Some((0 - v as i128) as i64),
            None => None,
        }
    } else {
        let from: usize = if cs.len() > 0 && cs[0] == '+' {
            1
        } else {
            0
        };
        match read_digits(&cs, from, 0x7fff_ffff_ffff_ffff) {
            Some(v) => Some(v as i64),
            None => None,
        }
    }
}

// ── Writing numbers ─────────────────────────────────────────────────────────────
/// The decimal form of `n`.
pub open spec fn dec(n: nat) -> Seq<char>
    decreases n,
{
    if n < 10 {
        seq![digit_char(n)]
    } else {
        dec(n / 10).push(digit_char(n % 10))
    }
}

/// The decimal form of `i`, with a minus sign when negative.
pub open spec fn dec_int(i: int) -> Seq<char> {
    if i < 0 {
        seq!['-'] + dec((-i) as nat)
    } else {
        dec(i as nat)
    }
}

/// The `2 * b.len()` lower-case hexadecimal digits of the bytes `b`.
pub open spec fn hex_text(b: Seq<u8>) -> Seq<char> {
    Seq::new(
        2 * b.len(),
        |i: int|
            digit_char(
                if i % 2 == 0 {
                    b[i / 2] as nat / 16
                } else {
                    b[i / 2] as nat % 16
                },
            ),
    )
}

/// Appends the decimal form of `n`.
pub fn push_dec(out: &mut String, n: u128)
    ensures
        final(out)@ == old(out)@ + dec(n as nat),
    decreases n,
{
    if n >= 10 {
        push_dec(out, n / 10);
    }
    out.push(digit((n % 10) as u8));
}

/// The decimal form of `n`.
pub fn dec_text(n: u128) -> (r: String)
    ensures
        r@ == dec(n as nat),
{
    let mut out = String::new();
    push_dec(&mut out, n);
    out
}

/// Appends the decimal form of `i`, with a minus sign when negative.
pub fn push_dec_int(out: &mut String, i: i128)
    ensures
        final(out)@ == old(out)@ + dec_int(i as int),
{
    if i < 0 {
        out.push('-');
        push_dec(out, (-(i + 1)) as u128 + 1);
    } else {
        push_dec(out, i as u128);
    }
}

/// Lower-case hexadecimal digits of a byte slice.
pub fn hex(bytes: &[u8]) -> (r: String)
    ensures
        r@ == hex_text(bytes@),
{
    let mut out = String::new();
    for i in 0..bytes.len()
        invariant
            out@ == hex_text(bytes@.take(i as int)),
    {
        let b = bytes[i];
        out.push(digit(b / 16));
        out.push(digit(b % 16));
        assert(out@ == hex_text(bytes@.take(i + 1)));
    }
    assert(bytes@.take(bytes@.len() as int) == bytes@);
    out
}

// ── Laws ────────────────────────────────────────────────────────────────────────
/// Reading back the decimal form of a number gives the number.
pub proof fn law_decimal_roundtrip(n: nat)
    ensures
        all_digits(dec(n)),
        dec(n).len() > 0,
        digits_value(dec(n)) == n,
        n <= u64::MAX ==> unsigned(dec(n), u64::MAX as nat) == Some(n),
    decreases n,
{
    if n < 10 {
        assert(dec(n).drop_last() == Seq::<char>::empty());
        assert(digits_value(Seq::<char>::empty()) == 0);
    } else {
        law_decimal_roundtrip(n / 10);
        assert(dec(n).drop_last() == dec(n / 10));
        assert forall|i: int| 0 <= i < dec(n).len() implies is_digit(#[trigger] dec(n)[i]) by {
            if i < dec(n / 10).len() {
                assert(is_digit(dec(n / 10)[i]));
            }
        }
    }
    assert(is_digit(dec(n)[0]));
}

/// Different numbers have different decimal forms.
pub proof fn law_decimal_injective(a: nat, b: nat)
    requires
        dec(a) == dec(b),
    ensures
        a == b,
{
    law_decimal_roundtrip(a);
    law_decimal_roundtrip(b);
}

/// Different byte strings have different hexadecimal forms.
pub proof fn law_hex_injective(a: Seq<u8>, b: Seq<u8>)
    requires
        hex_text(a) == hex_text(b),
    ensures
        a == b,
{
    assert(hex_text(a).len() == 2 * a.len());
    assert(hex_text(b).len() == 2 * b.len());
    assert forall|i: int| 0 <= i < a.len() implies a[i] == b[i] by {
        assert((2 * i) / 2 == i && (2 * i + 1) / 2 == i);
        assert(hex_text(a)[2 * i] == digit_char(a[i] as nat / 16));
        assert(hex_text(b)[2 * i] == digit_char(b[i] as nat / 16));
        assert(hex_text(a)[2 * i + 1] == digit_char(a[i] as nat % 16));
        assert(hex_text(b)[2 * i + 1] == digit_char(b[i] as nat % 16));
    }
    assert(a == b);
}

/// Digits spell a number in base ten, the most significant first.
pub proof fn law_digits_are_positional(s: Seq<char>, c: char)
    requires
        '0' <= c <= '9',
    ensures
        digits_value(Seq::<char>::empty()) == 0,
        digits_value(s.push(c)) == 10 * digits_value(s) + (c as int - '0' as int),
{
    assert(s.push(c).drop_last() == s);
}

/// A number is read from its decimal form, with or without a plus sign, exactly when it is
/// not above the limit.
pub proof fn law_unsigned_reads_decimal(n: nat, max: nat)
    ensures
        n <= max ==> unsigned(dec(n), max) == Some(n) && unsigned(seq!['+'] + dec(n), max) == Some(
            n,
        ),
        n > max ==> unsigned(dec(n), max) is None && unsigned(seq!['+'] + dec(n), max) is None,
{
    law_decimal_roundtrip(n);
    assert(is_digit(dec(n)[0]));
    let plus = seq!['+'] + dec(n);
    assert(plus[0] == '+');
    assert(plus.skip(1) == dec(n));
}

/// Nothing is read from an empty text, from a lone sign, or from a text with a character that
/// is neither a digit nor a leading plus sign.
pub proof fn law_unsigned_refuses(s: Seq<char>, i: int, max: nat)
    requires
        s.len() > 1 ==> 0 <= i < s.len() && !('0' <= s[i] <= '9') && (i == 0 ==> s[0] != '+'),
        s.len() == 1 ==> !('0' <= s[0] <= '9'),
    ensures
        unsigned(s, max) is None,
{
    if s.len() > 1 {
        if s[0] == '+' {
            assert(s.skip(1)[i - 1] == s[i]);
        } else {
            assert(!is_digit(s[i]));
        }
    } else if s.len() == 1 {
        if s[0] != '+' {
            assert(!is_digit(s[0]));
        }
    }
}

/// A signed number is read back from its decimal form exactly when it fits in 64 bits.
pub proof fn law_signed_reads_decimal(i: int)
    ensures
        i64::MIN <= i <= i64::MAX ==> signed(dec_int(i)) == Some(i),
        i < i64::MIN || i > i64::MAX ==> signed(dec_int(i)) is None,
{
    if i < 0 {
        let d = dec((-i) as nat);
        law_decimal_roundtrip((-i) as nat);
        let s = seq!['-'] + d;
        assert(s[0] == '-');
        assert(s.skip(1) == d);
    } else {
        law_decimal_roundtrip(i as nat);
        assert(is_digit(dec(i as nat)[0]));
    }
}

/// A decimal form has no leading zero, and no sign but the minus of a negative number.
pub proof fn law_decimal_is_canonical(n: nat)
    ensures
        dec(n).len() > 1 ==> dec(n)[0] != '0',
        n > 0 ==> dec(n)[0] != '0',
        dec_int(n as int) == dec(n),
        n > 0 ==> dec_int(-n) == seq!['-'] + dec(n),
    decreases n,
{
    if n >= 10 {
        law_decimal_is_canonical(n / 10);
        law_decimal_roundtrip(n / 10);
        assert(dec(n)[0] == dec(n / 10)[0]);
    } else {
        vstd::utf8::char_u32_cast((48 + n) as char, (48 + n) as u32);
    }
}

/// The value of a lower-case hexadecimal digit.
pub open spec fn hex_value(c: char) -> int {
    if '0' <= c <= '9' {
        c as int - '0' as int
    } else if 'a' <= c <= 'f' {
        c as int - 'a' as int + 10
    } else {
        -1
    }
}

/// Each byte is written as two lower-case hexadecimal digits, the high one first.
pub proof fn law_hex_reads_back(b: Seq<u8>, i: int)
    requires
        0 <= i < b.len(),
    ensures
        hex_text(b).len() == 2 * b.len(),
        0 <= hex_value(hex_text(b)[2 * i]) < 16,
        0 <= hex_value(hex_text(b)[2 * i + 1]) < 16,
        16 * hex_value(hex_text(b)[2 * i]) + hex_value(hex_text(b)[2 * i + 1]) == b[i],
{
    assert((2 * i) % 2 == 0 && (2 * i) / 2 == i);
    assert((2 * i + 1) % 2 == 1 && (2 * i + 1) / 2 == i);
    let hi = b[i] as nat / 16;
    let lo = b[i] as nat % 16;
    assert(hex_text(b)[2 * i] == digit_char(hi));
    assert(hex_text(b)[2 * i + 1] == digit_char(lo));
}

/// Digits are read as the number they spell, with leading zeros or without, exactly when it
/// is not above the limit.
pub proof fn law_unsigned_reads_digits(d: Seq<char>, max: nat)
    requires
        d.len() > 0,
        all_digits(d),
    ensures
        digits_value(d) <= max ==> unsigned(d, max) == Some(digits_value(d)) && unsigned(
            seq!['+'] + d,
            max,
        ) == Some(digits_value(d)),
        digits_value(d) > max ==> unsigned(d, max) is None && unsigned(seq!['+'] + d, max) is None,
{
    assert(is_digit(d[0]));
    let plus = seq!['+'] + d;
    assert(plus[0] == '+');
    assert(plus.skip(1) == d);
}

/// Digits with a sign, or without, are read as the number they spell exactly when it fits in
/// 64 bits.
pub proof fn law_signed_reads_digits(d: Seq<char>)
    requires
        d.len() > 0,
        all_digits(d),
    ensures
        digits_value(d) <= i64::MAX ==> signed(d) == Some(digits_value(d) as int) && signed(
            seq!['+'] + d,
        ) == Some(digits_value(d) as int),
        digits_value(d) > i64::MAX ==> signed(d) is None && signed(seq!['+'] + d) is None,
        -digits_value(d) >= i64::MIN ==> signed(seq!['-'] + d) == Some(-digits_value(d)),
        -digits_value(d) < i64::MIN ==> signed(seq!['-'] + d) is None,
{
    assert(is_digit(d[0]));
    let plus = seq!['+'] + d;
    let minus = seq!['-'] + d;
    assert(plus[0] == '+' && minus[0] == '-');
    assert(plus.skip(1) == d);
    assert(minus.skip(1) == d);
}

/// Nothing is read from an empty text, from a lone sign, or from a text with a character that
/// is neither a digit nor a leading sign.
pub proof fn law_signed_refuses(s: Seq<char>, i: int)
    requires
        s.len() > 1 ==> 0 <= i < s.len() && !('0' <= s[i] <= '9') && (i == 0 ==> s[0] != '+'
            && s[0] != '-'),
        s.len() == 1 ==> !('0' <= s[0] <= '9'),
    ensures
        signed(s) is None,
{
    if s.len() > 1 {
        if s[0] == '+' || s[0] == '-' {
            assert(s.skip(1)[i - 1] == s[i]);
        } else {
            assert(!is_digit(s[i]));
        }
    } else if s.len() == 1 {
        if s[0] != '+' && s[0] != '-' {
            assert(!is_digit(s[0]));
        }
    }
}

} // verus!
