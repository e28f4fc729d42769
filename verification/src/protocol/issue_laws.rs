//! Tokens made by the recipe of the control server, written out byte by byte, and what comes
//! of them.

use vstd::prelude::*;
use vstd::utf8::encode_utf8;
use crate::config::constants::{MAX_ACCEPT_EARLY, MAX_ACCEPT_LATE};
use crate::config::SecretKey;
use crate::net::{self, IpAddr};
use crate::protocol::token::{self, Verdict};
use crate::protocol::token_laws;
use crate::text_laws::{law_find, law_split_at_char};
use crate::{crypto, number, text};

verus! {

// ── v2 ──────────────────────────────────────────────────────────────────────────
/// The 16 bytes `b` are those of the address: the octets of an IPv6 address in order, and for
/// an IPv4 address ten zeros, two 0xFF and its octets in order.
pub open spec fn bytes_of_address(b: Seq<u8>, ip: IpAddr) -> bool {
    &&& b.len() == 16
    &&& match ip {
        IpAddr::V6(o) => forall|i: int| 0 <= i < 16 ==> #[trigger] b[i] == o@[i],
        IpAddr::V4(o) => forall|i: int|
            0 <= i < 16 ==> #[trigger] b[i] == if i < 10 {
                0u8
            } else if i < 12 {
                0xffu8
            } else {
                o@[i - 12]
            },
    }
}

/// The four bytes `b` are the low 32 bits of `time`, the most significant first.
pub open spec fn bytes_of_time(b: Seq<u8>, time: int) -> bool {
    &&& b.len() == 4
    &&& b[0] * 256 * 256 * 256 + b[1] * 256 * 256 + b[2] * 256 + b[3] == time % 0x1_0000_0000
}

/// The tag of `key` for the time bytes.
pub open spec fn time_tag(key: SecretKey, time: Seq<u8>) -> Seq<u8> {
    crypto::hmac_sha256_of(encode_utf8(key.key@), time)
}

/// The tag of `key` for the time bytes and the bytes of an address.
pub open spec fn address_tag(key: SecretKey, time: Seq<u8>, ip16: Seq<u8>) -> Seq<u8> {
    crypto::hmac_sha256_of(encode_utf8(key.key@), time + ip16)
}

/// `raw` is any text without `#`, the marker `#v2#`, and a base64 text of the time, the first
/// 8 bytes of its tag and the first 4 bytes of the tag of the time and the address.
pub open spec fn made_by(
    raw: Seq<char>,
    prefix: Seq<char>,
    v2: Seq<char>,
    key: SecretKey,
    time: Seq<u8>,
    ip16: Seq<u8>,
) -> bool {
    &&& !prefix.contains('#')
    &&& raw == prefix + "#v2#"@ + v2
    &&& time_tag(key, time).len() >= 8
    &&& address_tag(key, time, ip16).len() >= 4
    &&& crypto::base64_bytes(encode_utf8(v2)) == Some(
        time + time_tag(key, time).take(8) + address_tag(key, time, ip16).take(4),
    )
}

proof fn lemma_made(
    raw: Seq<char>,
    prefix: Seq<char>,
    v2: Seq<char>,
    keys: Seq<SecretKey>,
    k: int,
    time: Seq<u8>,
    ip16: Seq<u8>,
) -> (token: Seq<u8>)
    requires
        0 <= k < keys.len(),
        time.len() == 4,
        made_by(raw, prefix, v2, keys[k], time, ip16),
        forall|j: int|
            0 <= j < k ==> time_tag(#[trigger] keys[j], time).take(8) != time_tag(
                keys[k],
                time,
            ).take(8),
    ensures
        token_laws::carries_v2(raw, token),
        token_laws::identifies(keys, k, token),
        token.take(4) == time,
        token.subrange(12, 16) == address_tag(keys[k], time, ip16).take(4),
{
    let h = time_tag(keys[k], time).take(8);
    let a = address_tag(keys[k], time, ip16).take(4);
    let token = time + h + a;
    token_laws::law_plain_prefix(prefix, v2);
    assert(token.take(4) == time);
    assert(token.subrange(4, 12) == h);
    assert(token.subrange(12, 16) == a);
    assert forall|j: int| 0 <= j < k implies !token_laws::signs_time(#[trigger] keys[j], token) by {
        assert(time_tag(keys[j], time).take(8) != h);
    }
    token
}

/// A v2 token made by the recipe for the connecting address, IPv4 or IPv6, is accepted while
/// its window is open, under the label of the first key that signs its time.
pub proof fn law_made_v2_token_is_accepted(
    raw: Seq<char>,
    prefix: Seq<char>,
    v2: Seq<char>,
    keys: Seq<SecretKey>,
    k: int,
    time: Seq<u8>,
    ip16: Seq<u8>,
    ip: IpAddr,
    v2_only: bool,
    start_time: int,
    now: int,
    later: int,
)
    requires
        0 <= k < keys.len(),
        bytes_of_time(time, start_time),
        bytes_of_address(ip16, ip),
        made_by(raw, prefix, v2, keys[k], time, ip16),
        forall|j: int|
            0 <= j < k ==> time_tag(#[trigger] keys[j], time).take(8) != time_tag(
                keys[k],
                time,
            ).take(8),
        -0x8000_0000 < start_time - now < 0x8000_0000,
        start_time - MAX_ACCEPT_EARLY <= later <= start_time + MAX_ACCEPT_LATE,
    ensures
        token::token_verdict(raw, keys, Some(ip), v2_only, now, later) == (Verdict::Accepted {
            sleep_secs: if later < start_time {
                (start_time - later) as nat
            } else {
                0
            },
            label: keys[k].label@,
        }),
{
    let token = lemma_made(raw, prefix, v2, keys, k, time, ip16);
    assert(net::mapped(ip) == ip16);
    token_laws::law_issued_v2_token_is_accepted(
        raw,
        token,
        keys,
        k,
        ip,
        v2_only,
        start_time,
        now,
        later,
    );
}

/// A v2 token made by the recipe for one address is refused from an address for which the key
/// has another tag, and from an unknown one.
pub proof fn law_made_v2_token_binds_the_address(
    raw: Seq<char>,
    prefix: Seq<char>,
    v2: Seq<char>,
    keys: Seq<SecretKey>,
    k: int,
    time: Seq<u8>,
    ip16: Seq<u8>,
    other16: Seq<u8>,
    other: IpAddr,
    v2_only: bool,
    now: int,
    later: int,
)
    requires
        0 <= k < keys.len(),
        time.len() == 4,
        bytes_of_address(other16, other),
        made_by(raw, prefix, v2, keys[k], time, ip16),
        forall|j: int|
            0 <= j < k ==> time_tag(#[trigger] keys[j], time).take(8) != time_tag(
                keys[k],
                time,
            ).take(8),
        address_tag(keys[k], time, other16).take(4) != address_tag(keys[k], time, ip16).take(4),
    ensures
        token::token_verdict(raw, keys, Some(other), v2_only, now, later) == Verdict::InvalidIp,
        token::token_verdict(raw, keys, None, v2_only, now, later) == Verdict::InvalidIp,
{
    let token = lemma_made(raw, prefix, v2, keys, k, time, ip16);
    assert(net::mapped(other) == other16);
    token_laws::law_other_address_is_invalid_ip(
        raw,
        token,
        keys,
        k,
        other,
        v2_only,
        now,
        later,
    );
}

/// A v2 part that is no base64 text, or one of other than 16 bytes, is no token.
pub proof fn law_malformed_v2_is_a_parse_error(
    prefix: Seq<char>,
    v2: Seq<char>,
    keys: Seq<SecretKey>,
    source_ip: Option<IpAddr>,
    v2_only: bool,
    now: int,
    later: int,
)
    requires
        !prefix.contains('#'),
        crypto::base64_bytes(encode_utf8(v2)) matches Some(b) ==> b.len() != 16,
    ensures
        token::token_verdict(prefix + "#v2#"@ + v2, keys, source_ip, v2_only, now, later)
            == Verdict::ParseError,
{
    token_laws::law_plain_prefix(prefix, v2);
}

/// A text without `#` is refused where only v2 tokens are accepted.
pub proof fn law_v1_text_is_refused_under_v2_only(
    raw: Seq<char>,
    keys: Seq<SecretKey>,
    source_ip: Option<IpAddr>,
    now: int,
    later: int,
)
    requires
        !raw.contains('#'),
    ensures
        token::token_verdict(raw, keys, source_ip, true, now, later) == Verdict::V2Required,
{
    token_laws::law_plain_prefix(raw, raw);
}

// ── v1 ──────────────────────────────────────────────────────────────────────────
/// The signature of `key` on a UUID and a start time.
pub open spec fn v1_signature(key: SecretKey, uuid: Seq<char>, start_time: int) -> Seq<char> {
    crypto::base64_text(
        crypto::hmac_sha1_of(
            encode_utf8(key.key@),
            encode_utf8(uuid + "_"@ + number::dec_int(start_time)),
        ),
    )
}

pub proof fn lemma_time_text(i: int)
    ensures
        !number::dec_int(i).contains('_'),
        !number::dec_int(i).contains('#'),
        number::dec_int(i).len() > 0,
{
    let n = if i < 0 {
        (-i) as nat
    } else {
        i as nat
    };
    number::law_decimal_roundtrip(n);
    let d = number::dec(n);
    let t = number::dec_int(i);
    assert forall|j: int| 0 <= j < t.len() implies t[j] != '_' && t[j] != '#' by {
        if i < 0 && j > 0 {
            assert(number::is_digit(d[j - 1]));
        } else if i >= 0 {
            assert(number::is_digit(d[j]));
        }
    }
}

/// A token `uuid_time_signature` is read as these three fields, character by character.
pub proof fn law_v1_token_fields(uuid: Seq<char>, start_time: int, mac: Seq<char>)
    requires
        !uuid.contains('_'),
        i64::MIN <= start_time <= i64::MAX,
        encode_utf8(uuid).len() == 36,
        encode_utf8(number::dec_int(start_time)).len() <= 12,
    ensures
        token::v1_fields(uuid + "_"@ + (number::dec_int(start_time) + "_"@ + mac)) == Some(
            token::V1Fields { uuid, timestamp: number::dec_int(start_time), start_time, mac },
        ),
{
    reveal_strlit("_");
    assert("_"@ == seq!['_']);
    let ts = number::dec_int(start_time);
    lemma_time_text(start_time);
    law_split_at_char(uuid, '_', ts + "_"@ + mac);
    law_split_at_char(ts, '_', mac);
    number::law_signed_reads_decimal(start_time);
}

proof fn lemma_no_marker(uuid: Seq<char>, start_time: int, mac: Seq<char>)
    requires
        !uuid.contains('#'),
        !mac.contains('#'),
    ensures
        token::v2_part(uuid + "_"@ + (number::dec_int(start_time) + "_"@ + mac)) is None,
{
    reveal_strlit("_");
    let ts = number::dec_int(start_time);
    lemma_time_text(start_time);
    let raw = uuid + "_"@ + (ts + "_"@ + mac);
    if raw.contains('#') {
        let i = choose|i: int| 0 <= i < raw.len() && raw[i] == '#';
        let a = uuid.len() as int;
        let b = a + 1 + ts.len();
        if i < a {
            assert(uuid[i] == '#');
        } else if a < i < b {
            assert(ts[i - a - 1] == '#');
        } else if i > b {
            assert(mac[i - b - 1] == '#');
        }
    }
    token_laws::law_plain_prefix(raw, raw);
}

/// A v1 token `uuid_time_signature`, signed by a key over `uuid_time`, is accepted while its
/// window is open, under the label of the first key that signs so.
pub proof fn law_made_v1_token_is_accepted(
    uuid: Seq<char>,
    start_time: int,
    keys: Seq<SecretKey>,
    k: int,
    source_ip: Option<IpAddr>,
    now: int,
    later: int,
)
    requires
        !uuid.contains('_'),
        !uuid.contains('#'),
        i64::MIN <= start_time <= i64::MAX,
        encode_utf8(uuid).len() == 36,
        encode_utf8(number::dec_int(start_time)).len() <= 12,
        0 <= k < keys.len(),
        !v1_signature(keys[k], uuid, start_time).contains('#'),
        forall|j: int|
            0 <= j < k ==> v1_signature(#[trigger] keys[j], uuid, start_time) != v1_signature(
                keys[k],
                uuid,
                start_time,
            ),
        start_time - MAX_ACCEPT_EARLY <= later <= start_time + MAX_ACCEPT_LATE,
    ensures
        token::token_verdict(
            uuid + "_"@ + (number::dec_int(start_time) + "_"@ + v1_signature(
                keys[k],
                uuid,
                start_time,
            )),
            keys,
            source_ip,
            false,
            now,
            later,
        ) == (Verdict::Accepted {
            sleep_secs: if later < start_time {
                (start_time - later) as nat
            } else {
                0
            },
            label: keys[k].label@,
        }),
{
    let ts = number::dec_int(start_time);
    let mac = v1_signature(keys[k], uuid, start_time);
    let raw = uuid + "_"@ + (ts + "_"@ + mac);
    law_v1_token_fields(uuid, start_time, mac);
    lemma_no_marker(uuid, start_time, mac);
    let m = token::v1_message(uuid, ts);
    assert forall|j: int| 0 <= j < k implies token::v1_mac((#[trigger] keys[j]).key@, m) != mac by {
        assert(v1_signature(keys[j], uuid, start_time) != mac);
    }
    token_laws::law_issued_v1_token_is_accepted(raw, keys, k, source_ip, now, later);
}

/// A v1 token with a signature that no key makes is refused for it.
pub proof fn law_unsigned_v1_is_invalid_hmac(
    uuid: Seq<char>,
    start_time: int,
    mac: Seq<char>,
    keys: Seq<SecretKey>,
    source_ip: Option<IpAddr>,
    now: int,
    later: int,
)
    requires
        !uuid.contains('_'),
        !uuid.contains('#'),
        !mac.contains('#'),
        i64::MIN <= start_time <= i64::MAX,
        encode_utf8(uuid).len() == 36,
        encode_utf8(number::dec_int(start_time)).len() <= 12,
        forall|j: int|
            0 <= j < keys.len() ==> v1_signature(#[trigger] keys[j], uuid, start_time) != mac,
    ensures
        token::token_verdict(
            uuid + "_"@ + (number::dec_int(start_time) + "_"@ + mac),
            keys,
            source_ip,
            false,
            now,
            later,
        ) == Verdict::InvalidHmac,
{
    let ts = number::dec_int(start_time);
    law_v1_token_fields(uuid, start_time, mac);
    lemma_no_marker(uuid, start_time, mac);
    let macs = token::v1_macs(keys, token::v1_message(uuid, ts));
    assert forall|j: int| 0 <= j < macs.len() implies (#[trigger] macs[j]).0 != mac by {
        assert(v1_signature(keys[j], uuid, start_time) != mac);
    }
    lemma_no_label(macs, mac, 0);
}

proof fn lemma_no_label(macs: Seq<(Seq<char>, Seq<char>)>, given: Seq<char>, i: int)
    requires
        0 <= i,
        forall|j: int| 0 <= j < macs.len() ==> (#[trigger] macs[j]).0 != given,
    ensures
        token::first_label(macs, given, i) is None,
    decreases macs.len() - i,
{
    if i < macs.len() {
        lemma_no_label(macs, given, i + 1);
    }
}

/// A text without `#` that has no two underscores, or a first field of other than 36 bytes,
/// or a second field that is empty, too long or no number, is no token.
pub proof fn law_malformed_v1_is_a_parse_error(
    uuid: Seq<char>,
    ts: Seq<char>,
    mac: Seq<char>,
    keys: Seq<SecretKey>,
    source_ip: Option<IpAddr>,
    now: int,
    later: int,
)
    requires
        !uuid.contains('_'),
        !ts.contains('_'),
        !(uuid + "_"@ + (ts + "_"@ + mac)).contains('#'),
        encode_utf8(uuid).len() != 36 || encode_utf8(ts).len() > 12 || number::signed(ts) is None,
        !uuid.contains('#'),
        !(uuid + "_"@ + ts).contains('#'),
    ensures
        token::token_verdict(
            uuid + "_"@ + (ts + "_"@ + mac),
            keys,
            source_ip,
            false,
            now,
            later,
        ) == Verdict::ParseError,
        token::token_verdict(uuid, keys, source_ip, false, now, later) == Verdict::ParseError,
        token::token_verdict(uuid + "_"@ + ts, keys, source_ip, false, now, later)
            == Verdict::ParseError,
{
    reveal_strlit("_");
    assert("_"@ == seq!['_']);
    token_laws::law_plain_prefix(uuid + "_"@ + (ts + "_"@ + mac), mac);
    token_laws::law_plain_prefix(uuid, mac);
    token_laws::law_plain_prefix(uuid + "_"@ + ts, mac);
    law_split_at_char(uuid, '_', ts + "_"@ + mac);
    law_split_at_char(uuid, '_', ts);
    law_split_at_char(ts, '_', mac);
}

// ── Reasons ─────────────────────────────────────────────────────────────────────
/// A refused token's reason tells by how many seconds it is early or late, and the limit.
pub proof fn law_reasons_tell_the_distance(start_time: int, now: int, label: Seq<char>)
    ensures
        start_time - now > 20 ==> {
            let d = number::dec((start_time - now) as nat);
            &&& number::digits_value(d) == start_time - now
            &&& token::window(start_time, now, label) == (Verdict::TooEarly {
                reason: "token not valid yet: client is "@ + d + "s early (max "@ + number::dec(20)
                    + ")"@,
            })
        },
        now - start_time > 90 ==> {
            let d = number::dec((now - start_time) as nat);
            &&& number::digits_value(d) == now - start_time
            &&& token::window(start_time, now, label) == (Verdict::TooLate {
                reason: "token expired: client is "@ + d + "s late (max "@ + number::dec(90)
                    + ")"@,
            })
        },
{
    if start_time - now > 20 {
        number::law_decimal_roundtrip((start_time - now) as nat);
    }
    if now - start_time > 90 {
        number::law_decimal_roundtrip((now - start_time) as nat);
    }
}

// ── Parts of a message ──────────────────────────────────────────────────────────
/// The parts of a message follow one another, byte by byte.
pub proof fn law_parts_are_joined_in_order(parts: Seq<&[u8]>, last: &[u8])
    ensures
        crypto::joined(parts.push(last)) == crypto::joined(parts) + last@,
        crypto::joined(Seq::<&[u8]>::empty()).len() == 0,
{
    assert(parts.push(last).drop_last() == parts);
}

/// A text with the marker `#v2#` somewhere has a v2 part, and one without it has none.
pub proof fn law_marker_decides_the_version(raw: Seq<char>)
    ensures
        token::v2_part(raw) is Some <==> exists|i: int| text::occurs_at(raw, "#v2#"@, i),
{
    law_find(raw, "#v2#"@);
}

/// Half a period away from `now`, of the two times that are equally near, the time is taken
/// that is in the same period as `now`.
pub proof fn law_ties_stay_in_the_period(time: int, now: int)
    requires
        0 <= time < 0x1_0000_0000,
        time - now % 0x1_0000_0000 == 0x8000_0000 || now % 0x1_0000_0000 - time == 0x8000_0000,
    ensures
        token::nearest(time, now) == now - now % 0x1_0000_0000 + time,
{
}

} // verus!
