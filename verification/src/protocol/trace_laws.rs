//! What the lines of the debug trace say.

use vstd::prelude::*;
use vstd::utf8::encode_utf8;
use crate::config::SecretKey;
use crate::net::IpAddr;
use crate::protocol::issue_laws;
use crate::protocol::token::{self, MacsView};
use crate::protocol::token_laws;
use crate::protocol::trace;
use crate::text_laws::law_split_at_char;
use crate::{crypto, number};

verus! {

/// The beginning of a line tells the number of the connection.
pub proof fn law_lines_tell_the_connection(conn_id: usize)
    ensures
        trace::prefix(conn_id) == "[conn "@ + number::dec(conn_id as nat) + "] "@,
        number::digits_value(number::dec(conn_id as nat)) == conn_id,
{
    number::law_decimal_roundtrip(conn_id as nat);
}

/// The first lines of a trace tell the three parts of the token and the address with its 16
/// bytes, all in hexadecimal.
pub proof fn law_trace_begins_with_the_token(
    conn_id: usize,
    time: Seq<u8>,
    packet_hash: Seq<u8>,
    ip_hash: Seq<u8>,
    macs: Seq<MacsView>,
    ip: Seq<char>,
    ip16: Seq<u8>,
    now: int,
)
    requires
        time.len() == 4,
        packet_hash.len() == 8,
        ip_hash.len() == 4,
    ensures
        ({
            let t = trace::trace(conn_id, time + packet_hash + ip_hash, macs, ip, ip16, now);
            &&& t.len() > 2
            &&& t[0] == trace::prefix(conn_id) + "v2 token: time="@ + number::hex_text(time)
                + " packet_hash="@ + number::hex_text(packet_hash) + " ip_hash="@
                + number::hex_text(ip_hash)
            &&& t[1] == trace::prefix(conn_id) + "v2 source ip "@ + ip + " (mapped "@
                + number::hex_text(ip16) + ")"@
        }),
{
    let token = time + packet_hash + ip_hash;
    assert(token.take(4) == time);
    assert(token.subrange(4, 12) == packet_hash);
    assert(token.subrange(12, 16) == ip_hash);
    lemma_key_lines_are_there(conn_id, token, macs, ip, now, 0);
}

proof fn lemma_key_lines_are_there(
    conn_id: usize,
    token: Seq<u8>,
    macs: Seq<MacsView>,
    ip: Seq<char>,
    now: int,
    i: int,
)
    ensures
        trace::key_lines(conn_id, token, macs, ip, now, i).len() > 0,
    decreases macs.len() - i,
{
    if 0 <= i < macs.len() && macs[i].time_mac.take(8) != token.subrange(4, 12) {
        lemma_key_lines_are_there(conn_id, token, macs, ip, now, i + 1);
    }
}

/// A key whose time tag does not match is passed over with a line that names it by its label
/// and tells its tag, and the lines on the next key follow.
pub proof fn law_unmatched_key_is_told(
    conn_id: usize,
    token: Seq<u8>,
    macs: Seq<MacsView>,
    ip: Seq<char>,
    now: int,
    i: int,
)
    requires
        0 <= i < macs.len(),
        macs[i].time_mac.take(8) != token.subrange(4, 12),
    ensures
        trace::key_lines(conn_id, token, macs, ip, now, i) == seq![
            trace::prefix(conn_id) + "v2 key '"@ + macs[i].label + "': "@ + (
            "time HMAC no match (own "@ + number::hex_text(macs[i].time_mac.take(8)) + ")"@),
        ] + trace::key_lines(conn_id, token, macs, ip, now, i + 1),
{
}

/// The first key whose time tag matches is named by its label, as it is. With a matching
/// address tag the times follow, each in decimal, and the acceptance; else both address tags
/// and the refusal.
pub proof fn law_matched_key_is_told(
    conn_id: usize,
    token: Seq<u8>,
    macs: Seq<MacsView>,
    ip: Seq<char>,
    now: int,
    i: int,
)
    requires
        0 <= i < macs.len(),
        token.len() == 16,
        macs[i].time_mac.take(8) == token.subrange(4, 12),
    ensures
        ({
            let lines = trace::key_lines(conn_id, token, macs, ip, now, i);
            let start = trace::prefix(conn_id);
            let key = start + "v2 key '"@ + macs[i].label + "': "@;
            let own = number::hex_text(macs[i].ip_mac.take(4));
            let time = token[0] * 0x100_0000 + token[1] * 0x1_0000 + token[2] * 0x100 + token[3];
            let begin = token::nearest(time, now);
            &&& lines[0] == key + "time HMAC matches"@
            &&& if macs[i].ip_mac.take(4) == token.subrange(12, 16) {
                &&& lines.len() == 4
                &&& lines[1] == key + ("ip HMAC matches (own "@ + own + ")"@)
                &&& lines[2] == start + "v2 token time: u32="@ + number::dec(time as nat)
                    + " reconstructed="@ + number::dec_int(begin) + " now="@ + number::dec_int(now)
                    + " (early "@ + number::dec_int(begin - now) + "s)"@
                &&& lines[3] == start + "v2 token HMAC+IP accepted by key '"@ + macs[i].label
                    + "'"@
            } else {
                &&& lines.len() == 3
                &&& lines[1] == key + ("ip HMAC MISMATCH (own "@ + own + " token "@
                    + number::hex_text(token.subrange(12, 16)) + ")"@)
                &&& lines[2] == start + "v2 token rejected: source IP "@ + ip
                    + " does not match token"@
            }
        }),
{
}

/// The trace of a v2 part is about its own bytes, keys and address: it is the trace of these
/// with the tags of each key for the bytes of the address.
pub proof fn law_trace_is_about_this_token(
    conn_id: usize,
    prefix: Seq<char>,
    v2: Seq<char>,
    token: Seq<u8>,
    keys: Seq<SecretKey>,
    ip: IpAddr,
    shown: Seq<char>,
    ip16: Seq<u8>,
    v2_only: bool,
    now: int,
    k: int,
)
    requires
        !prefix.contains('#'),
        crypto::base64_bytes(encode_utf8(v2)) == Some(token),
        token.len() == 16,
        issue_laws::bytes_of_address(ip16, ip),
        0 <= k < keys.len(),
    ensures
        ({
            let macs = token::v2_macs(keys, token.take(4), ip16);
            &&& trace::token_trace(
                conn_id,
                prefix + "#v2#"@ + v2,
                keys,
                Some((ip, shown)),
                v2_only,
                now,
            ) == trace::trace(conn_id, token, macs, shown, ip16, now)
            &&& macs.len() == keys.len()
            &&& macs[k].time_mac == crypto::hmac_sha256_of(
                encode_utf8(keys[k].key@),
                token.take(4),
            )
            &&& macs[k].ip_mac == crypto::hmac_sha256_of(
                encode_utf8(keys[k].key@),
                token.take(4) + ip16,
            )
            &&& macs[k].label == keys[k].label@
        }),
{
    token_laws::law_plain_prefix(prefix, v2);
    assert(crate::net::mapped(ip) == ip16);
}

/// A v2 part that cannot be judged is told with its fault.
pub proof fn law_unjudged_v2_is_told(
    conn_id: usize,
    prefix: Seq<char>,
    v2: Seq<char>,
    keys: Seq<SecretKey>,
    source: Option<(IpAddr, Seq<char>)>,
    v2_only: bool,
    now: int,
)
    requires
        !prefix.contains('#'),
    ensures
        crypto::base64_bytes(encode_utf8(v2)) is None ==> trace::token_trace(
            conn_id,
            prefix + "#v2#"@ + v2,
            keys,
            source,
            v2_only,
            now,
        ) == seq![trace::prefix(conn_id) + "v2 token parse error: not valid base64"@],
        crypto::base64_bytes(encode_utf8(v2)) matches Some(b) ==> b.len() != 16
            ==> trace::token_trace(
            conn_id,
            prefix + "#v2#"@ + v2,
            keys,
            source,
            v2_only,
            now,
        ) == seq![
            trace::prefix(conn_id) + "v2 token parse error: "@ + number::dec(b.len())
                + " bytes (expected 16)"@,
        ],
        crypto::base64_bytes(encode_utf8(v2)) matches Some(b) ==> b.len() == 16 ==> {
            let t = trace::token_trace(
                conn_id,
                prefix + "#v2#"@ + v2,
                keys,
                None,
                v2_only,
                now,
            );
            t.len() == 2 && t[1] == trace::prefix(conn_id)
                + "v2 token rejected: source IP unavailable"@
        },
{
    token_laws::law_plain_prefix(prefix, v2);
}

/// The trace of a v1 token names the first key that signs it by its label, as it is, and
/// without one the UUID of the token.
pub proof fn law_v1_trace_tells_the_key(
    conn_id: usize,
    uuid: Seq<char>,
    start_time: int,
    mac: Seq<char>,
    keys: Seq<SecretKey>,
    k: int,
)
    requires
        !uuid.contains('_'),
        i64::MIN <= start_time <= i64::MAX,
        encode_utf8(uuid).len() == 36,
        encode_utf8(number::dec_int(start_time)).len() <= 12,
        0 <= k <= keys.len(),
        k < keys.len() ==> issue_laws::v1_signature(keys[k], uuid, start_time) == mac,
        forall|j: int|
            0 <= j < k ==> issue_laws::v1_signature(#[trigger] keys[j], uuid, start_time) != mac,
    ensures
        trace::v1_line(conn_id, uuid + "_"@ + (number::dec_int(start_time) + "_"@ + mac), keys)
            == trace::prefix(conn_id) + if k < keys.len() {
            "v1 token HMAC accepted by key '"@ + keys[k].label@ + "'"@
        } else {
            "token rejected: HMAC mismatch for uuid="@ + uuid
        },
{
    reveal_strlit("_");
    assert("_"@ == seq!['_']);
    let ts = number::dec_int(start_time);
    issue_laws::law_v1_token_fields(uuid, start_time, mac);
    lemma_v1_parts(uuid, start_time, mac);
    let m = token::v1_message(uuid, ts);
    let macs = token::v1_macs(keys, m);
    token_laws::lemma_first_label(macs, mac, 0);
    assert forall|j: int| 0 <= j < k implies (#[trigger] macs[j]).0 != mac by {
        assert(issue_laws::v1_signature(keys[j], uuid, start_time) != mac);
    }
    if k < keys.len() {
        assert(macs[k] == (mac, keys[k].label@));
        assert(trace::prefix(conn_id) + "v1 token HMAC accepted by key '"@ + keys[k].label@ + "'"@
            == trace::prefix(conn_id) + ("v1 token HMAC accepted by key '"@ + keys[k].label@
            + "'"@));
    } else {
        assert(trace::prefix(conn_id) + "token rejected: HMAC mismatch for uuid="@ + uuid
            == trace::prefix(conn_id) + ("token rejected: HMAC mismatch for uuid="@ + uuid));
    }
}

proof fn lemma_v1_parts(uuid: Seq<char>, start_time: int, mac: Seq<char>)
    requires
        !uuid.contains('_'),
        i64::MIN <= start_time <= i64::MAX,
    ensures
        ({
            let ts = number::dec_int(start_time);
            &&& crate::text::split_once(uuid + "_"@ + (ts + "_"@ + mac), "_"@) == Some(
                (uuid, ts + "_"@ + mac),
            )
            &&& crate::text::split_once(ts + "_"@ + mac, "_"@) == Some((ts, mac))
            &&& number::signed(ts) == Some(start_time)
            &&& ts.len() > 0
        }),
{
    reveal_strlit("_");
    assert("_"@ == seq!['_']);
    let ts = number::dec_int(start_time);
    issue_laws::lemma_time_text(start_time);
    law_split_at_char(uuid, '_', ts + "_"@ + mac);
    law_split_at_char(ts, '_', mac);
    number::law_signed_reads_decimal(start_time);
}

/// A token without a v2 part is traced as v1, or as refused where only v2 is accepted.
pub proof fn law_v1_trace(
    conn_id: usize,
    raw: Seq<char>,
    keys: Seq<SecretKey>,
    source: Option<(IpAddr, Seq<char>)>,
    now: int,
)
    requires
        !raw.contains('#'),
    ensures
        trace::token_trace(conn_id, raw, keys, source, false, now) == seq![
            trace::v1_line(conn_id, raw, keys),
        ],
        trace::token_trace(conn_id, raw, keys, source, true, now) == seq![
            trace::prefix(conn_id)
                + "token rejected: no v2 part (#v2# marker) and server is in v2-only mode"@,
        ],
{
    token_laws::law_plain_prefix(raw, raw);
}

/// A v1 token that cannot be judged is told with its fault.
pub proof fn law_unjudged_v1_is_told(
    conn_id: usize,
    uuid: Seq<char>,
    ts: Seq<char>,
    mac: Seq<char>,
    keys: Seq<SecretKey>,
)
    requires
        !uuid.contains('_'),
        !ts.contains('_'),
    ensures
        trace::v1_line(conn_id, uuid, keys) == trace::prefix(conn_id)
            + "token parse error: expected 3 parts, got 1"@,
        trace::v1_line(conn_id, uuid + "_"@ + ts, keys) == trace::prefix(conn_id)
            + "token parse error: expected 3 parts, got 2"@,
        encode_utf8(uuid).len() != 36 || ts.len() == 0 || encode_utf8(ts).len() > 12
            ==> trace::v1_line(conn_id, uuid + "_"@ + (ts + "_"@ + mac), keys) == trace::prefix(
            conn_id,
        ) + "token parse error: malformed uuid or timestamp"@,
        encode_utf8(uuid).len() == 36 && ts.len() > 0 && encode_utf8(ts).len() <= 12
            && number::signed(ts) is None ==> trace::v1_line(
            conn_id,
            uuid + "_"@ + (ts + "_"@ + mac),
            keys,
        ) == trace::prefix(conn_id) + "token parse error: invalid timestamp"@,
{
    reveal_strlit("_");
    assert("_"@ == seq!['_']);
    law_split_at_char(uuid, '_', ts + "_"@ + mac);
    law_split_at_char(uuid, '_', ts);
    law_split_at_char(ts, '_', mac);
}

} // verus!
