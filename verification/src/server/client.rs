//! How clients are named in logs and events.

use vstd::prelude::*;
use crate::text::{self, chars_of, last_position};

verus! {

/// An address with its last octet (IPv4) or group (IPv6) left out.
pub open spec fn anonymised(ip: Seq<char>) -> Seq<char> {
    match text::last_of(ip, '.') {
        Some(i) => ip.take(i) + ".*"@,
        None => match text::last_of(ip, ':') {
            Some(i) => ip.take(i) + ":*"@,
            None => ip,
        },
    }
}

/// Removes the last octet (IPv4) or group (IPv6) from the text of an address to avoid
/// storing personal data in logs.
pub fn anonymise_addr(ip: &str) -> (r: String)
    ensures
        r@ == anonymised(ip@),
{
    let cs = chars_of(ip);
    match last_position(&cs, '.') {
        Some(i) => {
            let mut out = ip.substring_char(0, i).to_owned();
            assert(ip@.subrange(0, i as int) == ip@.take(i as int));
            out.append(".*");
            out
        },
        None => match last_position(&cs, ':') {
            Some(i) => {
                let mut out = ip.substring_char(0, i).to_owned();
                assert(ip@.subrange(0, i as int) == ip@.take(i as int));
                out.append(":*");
                out
            },
            None => ip.to_owned(),
        },
    }
}

/// The name of a client in logs and events: its full address only when that is asked for.
pub fn client_name(ip: &str, full: bool) -> (r: String)
    ensures
        r@ == if full {
            ip@
        } else {
            anonymised(ip@)
        },
{
    if full {
        ip.to_owned()
    } else {
        anonymise_addr(ip)
    }
}

// ── Laws ────────────────────────────────────────────────────────────────────────
proof fn lemma_last_of(head: Seq<char>, c: char, tail: Seq<char>)
    requires
        !tail.contains(c),
    ensures
        text::last_of(head.push(c) + tail, c) == Some(head.len() as int),
    decreases tail.len(),
{
    let s = head.push(c) + tail;
    if tail.len() == 0 {
        assert(s.last() == c);
    } else {
        let t = tail.drop_last();
        assert(tail.contains(tail.last()));
        assert forall|i: int| 0 <= i < t.len() implies t[i] != c by {
            assert(tail.contains(tail[i]));
        }
        lemma_last_of(head, c, t);
        assert(s.drop_last() == head.push(c) + t);
    }
}

proof fn lemma_none_of(s: Seq<char>, c: char)
    requires
        !s.contains(c),
    ensures
        text::last_of(s, c) is None,
    decreases s.len(),
{
    if s.len() > 0 {
        assert(s.contains(s.last()));
        let t = s.drop_last();
        assert forall|i: int| 0 <= i < t.len() implies t[i] != c by {
            assert(s.contains(s[i]));
        }
        lemma_none_of(t, c);
    }
}

/// Of an IPv4 address the last octet is replaced, whatever it is.
pub proof fn law_last_octet_is_dropped(head: Seq<char>, octet: Seq<char>)
    requires
        !octet.contains('.'),
    ensures
        anonymised(head.push('.') + octet) == head + ".*"@,
{
    lemma_last_of(head, '.', octet);
    assert((head.push('.') + octet).take(head.len() as int) == head);
}

/// Of an IPv6 address the last group is replaced, whatever it is.
pub proof fn law_last_group_is_dropped(head: Seq<char>, group: Seq<char>)
    requires
        !head.contains('.'),
        !group.contains('.'),
        !group.contains(':'),
    ensures
        anonymised(head.push(':') + group) == head + ":*"@,
{
    let s = head.push(':') + group;
    assert forall|i: int| 0 <= i < s.len() implies s[i] != '.' by {
        if i < head.len() {
            assert(head.contains(head[i]));
        } else if i > head.len() {
            assert(group.contains(group[i - head.len() - 1]));
        }
    }
    lemma_none_of(s, '.');
    lemma_last_of(head, ':', group);
    assert(s.take(head.len() as int) == head);
}

/// A text that is no address, without a dot and a colon, is named as it is.
pub proof fn law_other_names_are_kept(name: Seq<char>)
    requires
        !name.contains('.'),
        !name.contains(':'),
    ensures
        anonymised(name) == name,
{
    lemma_none_of(name, '.');
    lemma_none_of(name, ':');
}

} // verus!
