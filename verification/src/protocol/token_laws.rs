//! What holds of token validation as a whole.

use vstd::prelude::*;
use vstd::utf8::encode_utf8;
use crate::config::constants::{MAX_ACCEPT_EARLY, MAX_ACCEPT_LATE};
use crate::config::SecretKey;
use crate::crypto;
use crate::net::{self, IpAddr};
use crate::protocol::token::{self, Verdict, PERIOD};
use crate::text;

verus! {

/// The signature search ends at the first key that signs with `given`.
pub proof fn lemma_first_label(macs: Seq<(Seq<char>, Seq<char>)>, given: Seq<char>, i: int)
    requires
        0 <= i,
    ensures
        match token::first_label(macs, given, i) {
            Some(label) => exists|k: int|
                i <= k < macs.len() && #[trigger] macs[k] == (given, label) && (forall|j: int|
                    i <= j < k ==> (#[trigger] macs[j]).0 != given),
            None => forall|j: int| i <= j < macs.len() ==> (#[trigger] macs[j]).0 != given,
        },
    decreases macs.len() - i,
{
    if i < macs.len() {
        if macs[i].0 == given {
            assert(macs[i] == (given, macs[i].1));
        } else {
            lemma_first_label(macs, given, i + 1);
        }
    }
}

/// The time search ends at the first key whose time tag begins with `packet_hash`.
proof fn lemma_first_time_match(
    macs: Seq<token::MacsView>,
    packet_hash: Seq<u8>,
    i: int,
)
    requires
        0 <= i,
    ensures
        match token::first_time_match(macs, packet_hash, i) {
            Some(k) => i <= k < macs.len() && macs[k].time_mac.take(8) == packet_hash && (
            forall|j: int|
                i <= j < k ==> (#[trigger] macs[j]).time_mac.take(8) != packet_hash),
            None => forall|j: int|
                i <= j < macs.len() ==> (#[trigger] macs[j]).time_mac.take(8) != packet_hash,
        },
    decreases macs.len() - i,
{
    if i < macs.len() && macs[i].time_mac.take(8) != packet_hash {
        lemma_first_time_match(macs, packet_hash, i + 1);
    }
}

/// The time tag of `key` begins with the packet hash of the 16 bytes `token`.
pub open spec fn signs_time(key: SecretKey, token: Seq<u8>) -> bool {
    crypto::hmac_sha256_of(encode_utf8(key.key@), token.take(4)).take(8)
        == token.subrange(4, 12)
}

/// The address tag of `key` for the source `ip` begins with the address hash of `token`.
pub open spec fn signs_ip(key: SecretKey, token: Seq<u8>, ip: IpAddr) -> bool {
    crypto::hmac_sha256_of(
        encode_utf8(key.key@),
        token.take(4) + net::mapped(ip),
    ).take(4) == token.subrange(12, 16)
}

/// `key` is the first of `keys` that signs the time of `token`.
pub open spec fn identifies(keys: Seq<SecretKey>, k: int, token: Seq<u8>) -> bool {
    &&& 0 <= k < keys.len()
    &&& signs_time(keys[k], token)
    &&& forall|j: int| 0 <= j < k ==> !signs_time(#[trigger] keys[j], token)
}

/// `raw` carries a v2 part that is the base64 text of the 16 bytes `token`.
pub open spec fn carries_v2(raw: Seq<char>, token: Seq<u8>) -> bool {
    &&& token::v2_part(raw) is Some
    &&& crypto::base64_bytes(
        encode_utf8(token::v2_part(raw)->0),
    ) == Some(token)
    &&& token.len() == 16
}

proof fn lemma_identified(keys: Seq<SecretKey>, k: int, token: Seq<u8>, ip: IpAddr)
    requires
        identifies(keys, k, token),
    ensures
        token::first_time_match(
            token::v2_macs(keys, token.take(4), net::mapped(ip)),
            token.subrange(4, 12),
            0,
        ) == Some(k),
{
    let macs = token::v2_macs(keys, token.take(4), net::mapped(ip));
    lemma_first_time_match(macs, token.subrange(4, 12), 0);
    assert(macs.len() == keys.len());
    assert forall|j: int| 0 <= j < keys.len() implies (signs_time(#[trigger] keys[j], token)
        <==> macs[j].time_mac.take(8) == token.subrange(4, 12)) by {
        assert(macs[j] == token::key_macs(
            keys[j],
            token.take(4),
            net::mapped(ip),
        ));
    }
    assert(signs_time(keys[k], token));
}

// ── Laws ────────────────────────────────────────────────────────────────────────
/// A signed token is accepted exactly from `MAX_ACCEPT_EARLY` seconds before its start time
/// to `MAX_ACCEPT_LATE` seconds after it. The client then waits until the start time, for at
/// most `MAX_ACCEPT_EARLY` seconds.
pub proof fn law_accept_window(start_time: int, now: int, label: Seq<char>)
    ensures
        (token::window(start_time, now, label) is Accepted) <==> start_time
            - MAX_ACCEPT_EARLY <= now <= start_time + MAX_ACCEPT_LATE,
        token::window(start_time, now, label) matches Verdict::Accepted {
            sleep_secs,
            label: l,
        } ==> l == label && sleep_secs <= MAX_ACCEPT_EARLY && (if now < start_time {
            now + sleep_secs == start_time
        } else {
            sleep_secs == 0
        }),
        (token::window(start_time, now, label) is TooEarly) <==> start_time - now
            > MAX_ACCEPT_EARLY,
        (token::window(start_time, now, label) is TooLate) <==> now - start_time
            > MAX_ACCEPT_LATE,
{
}

/// The low 32 bits of a time less than half a period away from `now` give the time back.
pub proof fn law_time_roundtrip(t: int, now: int)
    requires
        -(PERIOD / 2) < t - now < PERIOD / 2,
    ensures
        token::nearest(t % (PERIOD as int), now) == t,
{
}

/// No time with the low 32 bits of the token is nearer to `now` than the reconstructed one.
pub proof fn law_nearest_is_nearest(time: int, now: int, other: int)
    requires
        0 <= time < PERIOD,
        (other - time) % (PERIOD as int) == 0,
    ensures
        ({
            let t = token::nearest(time, now);
            let d = if t < now {
                now - t
            } else {
                t - now
            };
            let e = if other < now {
                now - other
            } else {
                other - now
            };
            d <= e && (t - time) % (PERIOD as int) == 0
        }),
{
    let p = PERIOD as int;
    let t = token::nearest(time, now);
    let base = now - now % p;
    assert(base % p == 0);
    assert((t - time) % p == 0 && -(p / 2) <= t - now <= p / 2) by {
        assert(t - time == base || t - time == base - p || t - time == base + p);
    }
    let m = (other - t) / p;
    assert((other - t) % p == 0);
    assert(other - t == m * p);
    if m >= 1 {
        assert(other - t >= p);
    } else if m <= -1 {
        assert(other - t <= -p);
    }
}

/// A combined token is validated by its v2 part alone: with any text before the first marker
/// the verdict is the same.
pub proof fn law_v1_prefix_is_ignored(
    prefix: Seq<char>,
    v2: Seq<char>,
    keys: Seq<SecretKey>,
    source_ip: Option<IpAddr>,
    v2_only: bool,
    now: int,
    later: int,
)
    requires
        forall|j: int|
            0 <= j < prefix.len() ==> !text::occurs_at(
                prefix + "#v2#"@ + v2,
                "#v2#"@,
                j,
            ),
    ensures
        token::v2_part(prefix + "#v2#"@ + v2) == Some(v2),
        token::token_verdict(
            prefix + "#v2#"@ + v2,
            keys,
            source_ip,
            v2_only,
            now,
            later,
        ) == token::v2_bytes_verdict(
            crypto::base64_bytes(encode_utf8(v2)),
            keys,
            source_ip,
            now,
            later,
        ),
{
    let m = "#v2#"@;
    let raw = prefix + m + v2;
    assert(raw.subrange(prefix.len() as int, (prefix.len() + m.len()) as int) == m);
    text::lemma_find_is(raw, m, prefix.len() as int);
    assert(raw.skip((prefix.len() + m.len()) as int) == v2);
}

/// Text without `#`, such as a v1 token, is a prefix that the law above covers.
pub proof fn law_plain_prefix(prefix: Seq<char>, v2: Seq<char>)
    requires
        !prefix.contains('#'),
    ensures
        token::v2_part(prefix) is None,
        token::v2_part(prefix + "#v2#"@ + v2) == Some(v2),
{
    reveal_strlit("#v2#");
    let m = "#v2#"@;
    let raw = prefix + m + v2;
    assert(m[0] == '#');
    assert forall|j: int| 0 <= j < prefix.len() implies !text::occurs_at(raw, m, j) by {
        assert(prefix.contains(prefix[j]));
        if text::occurs_at(raw, m, j) {
            assert(raw.subrange(j, j + m.len())[0] == raw[j]);
        }
    }
    law_v1_prefix_is_ignored(prefix, v2, seq![], None, false, 0, 0);
    text::lemma_find_from(prefix, m, 0);
    if let Some(k) = text::find(prefix, m) {
        assert(prefix.subrange(k, k + m.len())[0] == prefix[k]);
        assert(prefix.contains(prefix[k]));
    }
}

/// Under `v2_only` a token without a v2 part is refused, whatever else it holds; a token with
/// one is judged as without the switch.
pub proof fn law_v2_only_only_tightens(
    raw: Seq<char>,
    keys: Seq<SecretKey>,
    source_ip: Option<IpAddr>,
    now: int,
    later: int,
)
    ensures
        token::v2_part(raw) is None ==> token::token_verdict(
            raw,
            keys,
            source_ip,
            true,
            now,
            later,
        ) == Verdict::V2Required,
        token::v2_part(raw) is Some ==> token::token_verdict(
            raw,
            keys,
            source_ip,
            true,
            now,
            later,
        ) == token::token_verdict(raw, keys, source_ip, false, now, later),
{
}

/// A v2 token that the first key to sign its time issued for the connecting address is
/// accepted under the label of that key while the window is open.
pub proof fn law_issued_v2_token_is_accepted(
    raw: Seq<char>,
    token: Seq<u8>,
    keys: Seq<SecretKey>,
    k: int,
    ip: IpAddr,
    v2_only: bool,
    start_time: int,
    now: int,
    later: int,
)
    requires
        carries_v2(raw, token),
        identifies(keys, k, token),
        signs_ip(keys[k], token, ip),
        token::be32(token.take(4)) == start_time % (PERIOD as int),
        -(PERIOD / 2) < start_time - now < PERIOD / 2,
        start_time - MAX_ACCEPT_EARLY <= later <= start_time + MAX_ACCEPT_LATE,
    ensures
        token::token_verdict(raw, keys, Some(ip), v2_only, now, later)
            == (Verdict::Accepted {
            sleep_secs: if later < start_time {
                (start_time - later) as nat
            } else {
                0
            },
            label: keys[k].label@,
        }),
{
    lemma_identified(keys, k, token, ip);
    law_time_roundtrip(start_time, now);
}

/// A v2 token whose time a key signs, from another address than it was issued for, is
/// refused for its address and not for its signature.
pub proof fn law_other_address_is_invalid_ip(
    raw: Seq<char>,
    token: Seq<u8>,
    keys: Seq<SecretKey>,
    k: int,
    ip: IpAddr,
    v2_only: bool,
    now: int,
    later: int,
)
    requires
        carries_v2(raw, token),
        identifies(keys, k, token),
        !signs_ip(keys[k], token, ip),
    ensures
        token::token_verdict(raw, keys, Some(ip), v2_only, now, later)
            == Verdict::InvalidIp,
{
    lemma_identified(keys, k, token, ip);
}

/// A v2 token from an unknown address is refused for its address.
pub proof fn law_unknown_address_is_invalid_ip(
    raw: Seq<char>,
    token: Seq<u8>,
    keys: Seq<SecretKey>,
    v2_only: bool,
    now: int,
    later: int,
)
    requires
        carries_v2(raw, token),
    ensures
        token::token_verdict(raw, keys, None, v2_only, now, later)
            == Verdict::InvalidIp,
{
}

/// A v2 token whose time no key signs is refused for its signature.
pub proof fn law_unsigned_v2_is_invalid_hmac(
    raw: Seq<char>,
    token: Seq<u8>,
    keys: Seq<SecretKey>,
    ip: IpAddr,
    v2_only: bool,
    now: int,
    later: int,
)
    requires
        carries_v2(raw, token),
        forall|j: int| 0 <= j < keys.len() ==> !signs_time(#[trigger] keys[j], token),
    ensures
        token::token_verdict(raw, keys, Some(ip), v2_only, now, later)
            == Verdict::InvalidHmac,
{
    let macs = token::v2_macs(keys, token.take(4), net::mapped(ip));
    lemma_first_time_match(macs, token.subrange(4, 12), 0);
    assert forall|j: int| 0 <= j < macs.len() implies (#[trigger] macs[j]).time_mac.take(8)
        != token.subrange(4, 12) by {
        assert(!signs_time(keys[j], token));
    }
}

/// An accepted v2 token carries 16 bytes whose time one of the keys signed, whose address
/// hash that key made for the connecting address, and whose window is open; the label is
/// that of the key.
pub proof fn law_accepted_v2_token_is_genuine(
    raw: Seq<char>,
    keys: Seq<SecretKey>,
    source_ip: Option<IpAddr>,
    v2_only: bool,
    now: int,
    later: int,
)
    requires
        token::v2_part(raw) is Some,
        token::token_verdict(raw, keys, source_ip, v2_only, now, later)
            is Accepted,
    ensures
        source_ip is Some,
        exists|token: Seq<u8>, k: int|
            {
                &&& #[trigger] carries_v2(raw, token)
                &&& #[trigger] identifies(keys, k, token)
                &&& signs_ip(keys[k], token, source_ip->0)
                &&& token::token_verdict(
                    raw,
                    keys,
                    source_ip,
                    v2_only,
                    now,
                    later,
                )->label == keys[k].label@
                &&& ({
                    let start = token::nearest(
                        token::be32(token.take(4)),
                        now,
                    );
                    start - MAX_ACCEPT_EARLY <= later <= start + MAX_ACCEPT_LATE
                })
            },
{
    let token = crypto::base64_bytes(
        encode_utf8(token::v2_part(raw)->0),
    )->0;
    let ip = source_ip->0;
    let macs = token::v2_macs(keys, token.take(4), net::mapped(ip));
    lemma_first_time_match(macs, token.subrange(4, 12), 0);
    let k = token::first_time_match(macs, token.subrange(4, 12), 0)->0;
    assert forall|j: int| 0 <= j < keys.len() implies (signs_time(#[trigger] keys[j], token)
        <==> macs[j].time_mac.take(8) == token.subrange(4, 12)) by {
        assert(macs[j] == token::key_macs(
            keys[j],
            token.take(4),
            net::mapped(ip),
        ));
    }
    assert(signs_time(keys[k], token));
    assert forall|j: int| 0 <= j < k implies !signs_time(#[trigger] keys[j], token) by {
        assert(macs[j].time_mac.take(8) != token.subrange(4, 12));
    }
    assert(carries_v2(raw, token));
    assert(identifies(keys, k, token));
    assert(signs_ip(keys[k], token, ip));
    assert(token::token_verdict(raw, keys, source_ip, v2_only, now, later)->label
        == keys[k].label@);
}

/// A v1 token that one of the keys signed is accepted while the window is open, under the
/// label of the first key that signs so.
pub proof fn law_issued_v1_token_is_accepted(
    raw: Seq<char>,
    keys: Seq<SecretKey>,
    k: int,
    source_ip: Option<IpAddr>,
    now: int,
    later: int,
)
    requires
        token::v2_part(raw) is None,
        token::v1_fields(raw) is Some,
        0 <= k < keys.len(),
        ({
            let f = token::v1_fields(raw)->0;
            let m = token::v1_message(f.uuid, f.timestamp);
            &&& token::v1_mac(keys[k].key@, m) == f.mac
            &&& forall|j: int|
                0 <= j < k ==> token::v1_mac((#[trigger] keys[j]).key@, m)
                    != f.mac
            &&& f.start_time - MAX_ACCEPT_EARLY <= later <= f.start_time + MAX_ACCEPT_LATE
        }),
    ensures
        token::token_verdict(raw, keys, source_ip, false, now, later)
            == (Verdict::Accepted {
            sleep_secs: if later < (token::v1_fields(raw)->0).start_time {
                ((token::v1_fields(raw)->0).start_time - later) as nat
            } else {
                0
            },
            label: keys[k].label@,
        }),
{
    let f = token::v1_fields(raw)->0;
    let m = token::v1_message(f.uuid, f.timestamp);
    let macs = token::v1_macs(keys, m);
    lemma_first_label(macs, f.mac, 0);
    assert forall|j: int| 0 <= j < keys.len() implies #[trigger] macs[j] == (
        token::v1_mac(keys[j].key@, m),
        keys[j].label@,
    ) by {}
    assert(macs[k].0 == f.mac);
    assert forall|j: int| 0 <= j < k implies (#[trigger] macs[j]).0 != f.mac by {
        assert(token::v1_mac(keys[j].key@, m) != f.mac);
    }
}

/// An accepted v1 token has the three fields, was signed by one of the keys, whose label is
/// reported, and its window is open.
pub proof fn law_accepted_v1_token_is_genuine(
    raw: Seq<char>,
    keys: Seq<SecretKey>,
    source_ip: Option<IpAddr>,
    v2_only: bool,
    now: int,
    later: int,
)
    requires
        token::v2_part(raw) is None,
        token::token_verdict(raw, keys, source_ip, v2_only, now, later)
            is Accepted,
    ensures
        !v2_only,
        token::v1_fields(raw) is Some,
        ({
            let f = token::v1_fields(raw)->0;
            let m = token::v1_message(f.uuid, f.timestamp);
            &&& f.start_time - MAX_ACCEPT_EARLY <= later <= f.start_time + MAX_ACCEPT_LATE
            &&& exists|k: int|
                0 <= k < keys.len() && token::v1_mac(
                    (#[trigger] keys[k]).key@,
                    m,
                ) == f.mac && token::token_verdict(
                    raw,
                    keys,
                    source_ip,
                    v2_only,
                    now,
                    later,
                )->label == keys[k].label@
        }),
{
    let f = token::v1_fields(raw)->0;
    let m = token::v1_message(f.uuid, f.timestamp);
    let macs = token::v1_macs(keys, m);
    lemma_first_label(macs, f.mac, 0);
    let label = token::first_label(macs, f.mac, 0)->0;
    let k = choose|k: int|
        0 <= k < macs.len() && #[trigger] macs[k] == (f.mac, label) && (forall|j: int|
            0 <= j < k ==> (#[trigger] macs[j]).0 != f.mac);
    assert(macs[k] == (token::v1_mac(keys[k].key@, m), keys[k].label@));
}

proof fn lemma_first_label_more(
    macs: Seq<(Seq<char>, Seq<char>)>,
    more: Seq<(Seq<char>, Seq<char>)>,
    given: Seq<char>,
    i: int,
)
    requires
        0 <= i,
        token::first_label(macs, given, i) is Some,
    ensures
        token::first_label(macs + more, given, i)
            == token::first_label(macs, given, i),
    decreases macs.len() - i,
{
    assert((macs + more)[i] == macs[i]);
    if macs[i].0 != given {
        lemma_first_label_more(macs, more, given, i + 1);
    }
}

proof fn lemma_first_time_more(
    macs: Seq<token::MacsView>,
    more: Seq<token::MacsView>,
    packet_hash: Seq<u8>,
    i: int,
)
    requires
        0 <= i,
        token::first_time_match(macs, packet_hash, i) is Some,
    ensures
        token::first_time_match(macs + more, packet_hash, i)
            == token::first_time_match(macs, packet_hash, i),
        0 <= token::first_time_match(macs, packet_hash, i)->0 < macs.len(),
    decreases macs.len() - i,
{
    assert((macs + more)[i] == macs[i]);
    if macs[i].time_mac.take(8) != packet_hash {
        lemma_first_time_more(macs, more, packet_hash, i + 1);
    }
}

/// Key rotation: keys added behind the present ones change no verdict except that of tokens
/// that no present key signs.
pub proof fn law_later_keys_only_add(
    raw: Seq<char>,
    keys: Seq<SecretKey>,
    more: Seq<SecretKey>,
    source_ip: Option<IpAddr>,
    v2_only: bool,
    now: int,
    later: int,
)
    requires
        token::token_verdict(raw, keys, source_ip, v2_only, now, later)
            != Verdict::InvalidHmac,
    ensures
        token::token_verdict(raw, keys + more, source_ip, v2_only, now, later)
            == token::token_verdict(raw, keys, source_ip, v2_only, now, later),
{
    match token::v2_part(raw) {
        Some(v2) => {
            let decoded = crypto::base64_bytes(encode_utf8(v2));
            if let Some(token) = decoded {
                if let Some(ip) = source_ip {
                    let ip16 = net::mapped(ip);
                    let a = token::v2_macs(keys, token.take(4), ip16);
                    let b = token::v2_macs(more, token.take(4), ip16);
                    assert(token::v2_macs(keys + more, token.take(4), ip16) == a
                        + b);
                    if token.len() == 16 {
                        lemma_first_time_more(a, b, token.subrange(4, 12), 0);
                    }
                }
            }
        },
        None => {
            if let Some(f) = token::v1_fields(raw) {
                if !v2_only {
                    let m = token::v1_message(f.uuid, f.timestamp);
                    let a = token::v1_macs(keys, m);
                    let b = token::v1_macs(more, m);
                    assert(token::v1_macs(keys + more, m) == a + b);
                    lemma_first_label_more(a, b, f.mac, 0);
                }
            }
        },
    }
}

/// Addresses with the same mapped form, such as `a.b.c.d` and `::ffff:a.b.c.d`, get the same
/// verdict.
pub proof fn law_mapped_address_gets_the_same_verdict(
    raw: Seq<char>,
    keys: Seq<SecretKey>,
    a: IpAddr,
    b: IpAddr,
    v2_only: bool,
    now: int,
    later: int,
)
    requires
        net::mapped(a) == net::mapped(b),
    ensures
        token::token_verdict(raw, keys, Some(a), v2_only, now, later)
            == token::token_verdict(raw, keys, Some(b), v2_only, now, later),
{
}

/// Keys are tried in order: on a v2 token neither the keys in front that do not sign its time,
/// nor the keys behind the first that does, change the verdict of that key.
pub proof fn law_v2_keys_are_tried_in_order(
    raw: Seq<char>,
    token: Seq<u8>,
    keys: Seq<SecretKey>,
    k: int,
    source_ip: Option<IpAddr>,
    v2_only: bool,
    now: int,
    later: int,
)
    requires
        carries_v2(raw, token),
        identifies(keys, k, token),
    ensures
        token::token_verdict(raw, keys, source_ip, v2_only, now, later) == token::token_verdict(
            raw,
            seq![keys[k]],
            source_ip,
            v2_only,
            now,
            later,
        ),
{
    if let Some(ip) = source_ip {
        let one = seq![keys[k]];
        assert(one[0] == keys[k]);
        assert(identifies(one, 0, token));
        lemma_identified(keys, k, token, ip);
        lemma_identified(one, 0, token, ip);
        let all = token::v2_macs(keys, token.take(4), net::mapped(ip));
        let single = token::v2_macs(one, token.take(4), net::mapped(ip));
        assert(all[k] == single[0]);
    }
}

/// Keys are tried in order: on a v1 token neither the keys in front that do not sign it, nor
/// the keys behind the first that does, change the verdict of that key.
pub proof fn law_v1_keys_are_tried_in_order(
    raw: Seq<char>,
    keys: Seq<SecretKey>,
    k: int,
    source_ip: Option<IpAddr>,
    v2_only: bool,
    now: int,
    later: int,
)
    requires
        token::v2_part(raw) is None,
        token::v1_fields(raw) is Some,
        0 <= k < keys.len(),
        ({
            let f = token::v1_fields(raw)->0;
            let m = token::v1_message(f.uuid, f.timestamp);
            &&& token::v1_mac(keys[k].key@, m) == f.mac
            &&& forall|j: int|
                0 <= j < k ==> token::v1_mac((#[trigger] keys[j]).key@, m) != f.mac
        }),
    ensures
        token::token_verdict(raw, keys, source_ip, v2_only, now, later) == token::token_verdict(
            raw,
            seq![keys[k]],
            source_ip,
            v2_only,
            now,
            later,
        ),
{
    let f = token::v1_fields(raw)->0;
    let m = token::v1_message(f.uuid, f.timestamp);
    let all = token::v1_macs(keys, m);
    let single = token::v1_macs(seq![keys[k]], m);
    lemma_first_label(all, f.mac, 0);
    assert(all[k] == (f.mac, keys[k].label@));
    assert forall|j: int| 0 <= j < k implies (#[trigger] all[j]).0 != f.mac by {
        assert(token::v1_mac(keys[j].key@, m) != f.mac);
    }
    assert(token::first_label(all, f.mac, 0) == Some(keys[k].label@));
    assert(single[0] == (f.mac, keys[k].label@));
    assert(token::first_label(single, f.mac, 0) == Some(keys[k].label@));
}

} // verus!
