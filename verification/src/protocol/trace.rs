//! The debug trace of token verification: on a v2 token each step with the relevant bytes in
//! hex, so that a mismatch is easy to localise.

use vstd::prelude::*;
use vstd::utf8::encode_utf8;
use crate::config::SecretKey;
use crate::crypto::{self, base64_decode};
use crate::net::{self, mapped_ipv6, IpAddr};
use crate::number::{self, hex, push_dec, push_dec_int, read_signed};
use crate::protocol::token::{
    self, extract_v2, matching_label, reconstruct_time, tags_of, v1_tags, KeyMacs, LabelledMac,
    MacsView, V2Token,
};
use crate::text::{self, appended, cut_once};

verus! {

// ── Lines ───────────────────────────────────────────────────────────────────────
/// The beginning of every line on a connection.
pub open spec fn prefix(conn_id: usize) -> Seq<char> {
    "[conn "@ + number::dec(conn_id as nat) + "] "@
}

/// The parts of the token.
pub open spec fn token_line(conn_id: usize, token: Seq<u8>) -> Seq<char> {
    prefix(conn_id) + "v2 token: time="@ + number::hex_text(token.take(4)) + " packet_hash="@
        + number::hex_text(token.subrange(4, 12)) + " ip_hash="@ + number::hex_text(
        token.subrange(12, 16),
    )
}

/// The source address and the form of it that is hashed.
pub open spec fn source_line(conn_id: usize, ip: Seq<char>, ip16: Seq<u8>) -> Seq<char> {
    prefix(conn_id) + "v2 source ip "@ + ip + " (mapped "@ + number::hex_text(ip16) + ")"@
}

/// What is said of a key.
pub open spec fn key_line(conn_id: usize, label: Seq<char>, what: Seq<char>) -> Seq<char> {
    prefix(conn_id) + "v2 key '"@ + label + "': "@ + what
}

/// The times of the token, reconstructed at `now`.
pub open spec fn time_line(conn_id: usize, token: Seq<u8>, now: int) -> Seq<char> {
    let time = token::be32(token.take(4));
    let start = token::nearest(time, now);
    prefix(conn_id) + "v2 token time: u32="@ + number::dec(time as nat) + " reconstructed="@
        + number::dec_int(start) + " now="@ + number::dec_int(now) + " (early "@ + number::dec_int(
        start - now,
    ) + "s)"@
}

/// The key that accepts the token.
pub open spec fn accepted_line(conn_id: usize, label: Seq<char>) -> Seq<char> {
    prefix(conn_id) + "v2 token HMAC+IP accepted by key '"@ + label + "'"@
}

/// What follows when the time tag of a key matches.
pub open spec fn matched_lines(
    conn_id: usize,
    token: Seq<u8>,
    macs: MacsView,
    ip: Seq<char>,
    now: int,
) -> Seq<Seq<char>> {
    let own = number::hex_text(macs.ip_mac.take(4));
    if macs.ip_mac.take(4) == token.subrange(12, 16) {
        seq![
            key_line(conn_id, macs.label, "time HMAC matches"@),
            key_line(conn_id, macs.label, "ip HMAC matches (own "@ + own + ")"@),
            time_line(conn_id, token, now),
            accepted_line(conn_id, macs.label),
        ]
    } else {
        seq![
            key_line(conn_id, macs.label, "time HMAC matches"@),
            key_line(
                conn_id,
                macs.label,
                "ip HMAC MISMATCH (own "@ + own + " token "@ + number::hex_text(
                    token.subrange(12, 16),
                ) + ")"@,
            ),
            prefix(conn_id) + "v2 token rejected: source IP "@ + ip + " does not match token"@,
        ]
    }
}

/// The lines on the keys from position `i` on, up to the first whose time tag matches.
pub open spec fn key_lines(
    conn_id: usize,
    token: Seq<u8>,
    macs: Seq<MacsView>,
    ip: Seq<char>,
    now: int,
    i: int,
) -> Seq<Seq<char>>
    decreases macs.len() - i,
{
    if i < 0 || i >= macs.len() {
        seq![prefix(conn_id) + "v2 token rejected: HMAC mismatch"@]
    } else if macs[i].time_mac.take(8) == token.subrange(4, 12) {
        matched_lines(conn_id, token, macs[i], ip, now)
    } else {
        seq![
            key_line(
                conn_id,
                macs[i].label,
                "time HMAC no match (own "@ + number::hex_text(macs[i].time_mac.take(8)) + ")"@,
            ),
        ] + key_lines(conn_id, token, macs, ip, now, i + 1)
    }
}

/// The trace of the token with the bytes `token` from the source `ip`, when the keys make the
/// tags `macs`.
pub open spec fn trace(
    conn_id: usize,
    token: Seq<u8>,
    macs: Seq<MacsView>,
    ip: Seq<char>,
    ip16: Seq<u8>,
    now: int,
) -> Seq<Seq<char>> {
    seq![token_line(conn_id, token), source_line(conn_id, ip, ip16)] + key_lines(
        conn_id,
        token,
        macs,
        ip,
        now,
        0,
    )
}

/// The trace of a token whose v2 part decodes to `decoded`. `source` is the address of the
/// client and its text.
pub open spec fn decoded_trace(
    conn_id: usize,
    decoded: Option<Seq<u8>>,
    keys: Seq<SecretKey>,
    source: Option<(IpAddr, Seq<char>)>,
    now: int,
) -> Seq<Seq<char>> {
    match decoded {
        Some(token) => if token.len() != 16 {
            seq![
                prefix(conn_id) + "v2 token parse error: "@ + number::dec(token.len())
                    + " bytes (expected 16)"@,
            ]
        } else {
            match source {
                Some((ip, shown)) => trace(
                    conn_id,
                    token,
                    token::v2_macs(keys, token.take(4), net::mapped(ip)),
                    shown,
                    net::mapped(ip),
                    now,
                ),
                None => seq![
                    token_line(conn_id, token),
                    prefix(conn_id) + "v2 token rejected: source IP unavailable"@,
                ],
            }
        },
        None => seq![prefix(conn_id) + "v2 token parse error: not valid base64"@],
    }
}

/// The address of a client and its text.
pub open spec fn source_view(source: Option<(IpAddr, &str)>) -> Option<(IpAddr, Seq<char>)> {
    match source {
        Some((ip, shown)) => Some((ip, shown@)),
        None => None,
    }
}

// ── Writing the lines ───────────────────────────────────────────────────────────
fn start_line(conn_id: usize, what: &str) -> (r: String)
    ensures
        r@ == prefix(conn_id) + what@,
{
    let mut out = "[conn ".to_owned();
    push_dec(&mut out, conn_id as u128);
    out.append("] ");
    out.append(what);
    out
}

fn write_token_line(conn_id: usize, token: &V2Token) -> (r: String)
    ensures
        r@ == token_line(conn_id, token.bytes()),
{
    let ghost b = token.bytes();
    assert(b.take(4) == token.time@);
    assert(b.subrange(4, 12) == token.packet_hash@);
    assert(b.subrange(12, 16) == token.ip_hash@);
    let mut out = start_line(conn_id, "v2 token: time=");
    out.append(hex(token.time.as_slice()).as_str());
    out.append(" packet_hash=");
    out.append(hex(token.packet_hash.as_slice()).as_str());
    out.append(" ip_hash=");
    out.append(hex(token.ip_hash.as_slice()).as_str());
    out
}

fn write_source_line(conn_id: usize, ip: &str, ip16: &[u8; 16]) -> (r: String)
    ensures
        r@ == source_line(conn_id, ip@, ip16@),
{
    let mut out = start_line(conn_id, "v2 source ip ");
    out.append(ip);
    out.append(" (mapped ");
    out.append(hex(ip16.as_slice()).as_str());
    out.append(")");
    out
}

fn write_key_line(conn_id: usize, label: &str, what: &str) -> (r: String)
    ensures
        r@ == key_line(conn_id, label@, what@),
{
    let mut out = start_line(conn_id, "v2 key '");
    out.append(label);
    out.append("': ");
    out.append(what);
    out
}

fn write_time_line(conn_id: usize, token: &V2Token, now: i64) -> (r: String)
    ensures
        r@ == time_line(conn_id, token.bytes(), now as int),
{
    assert(token.bytes().take(4) == token.time@);
    let time: u32 = token.time_u32();
    let start: i128 = reconstruct_time(time, now);
    let mut out = start_line(conn_id, "v2 token time: u32=");
    push_dec(&mut out, time as u128);
    out.append(" reconstructed=");
    push_dec_int(&mut out, start);
    out.append(" now=");
    push_dec_int(&mut out, now as i128);
    out.append(" (early ");
    push_dec_int(&mut out, start - now as i128);
    out.append("s)");
    out
}

/// `head`, the bytes in hex, and `tail`.
fn with_hex(head: &str, bytes: &[u8], tail: &str) -> (r: String)
    ensures
        r@ == head@ + number::hex_text(bytes@) + tail@,
{
    let mut out = head.to_owned();
    out.append(hex(bytes).as_str());
    out.append(tail);
    out
}

fn write_matched_lines(
    conn_id: usize,
    token: &V2Token,
    macs: &KeyMacs,
    ip: &str,
    now: i64,
    out: &mut Vec<String>,
)
    ensures
        text::texts(final(out)@) == text::texts(old(out)@) + matched_lines(
            conn_id,
            token.bytes(),
            macs@,
            ip@,
            now as int,
        ),
{
    let ghost before = text::texts(out@);
    let ghost b = token.bytes();
    assert(b.subrange(12, 16) == token.ip_hash@);
    let label = macs.label.as_str();
    let own = vstd::slice::slice_subrange(macs.ip_mac.as_slice(), 0, 4);
    assert(own@ == macs.ip_mac@.take(4));
    out.push(write_key_line(conn_id, label, "time HMAC matches"));
    if own[0] == token.ip_hash[0] && own[1] == token.ip_hash[1] && own[2] == token.ip_hash[2]
        && own[3] == token.ip_hash[3] {
        assert(own@ == token.ip_hash@);
        let what = with_hex("ip HMAC matches (own ", own, ")");
        out.push(write_key_line(conn_id, label, what.as_str()));
        out.push(write_time_line(conn_id, token, now));
        let mut line = start_line(conn_id, "v2 token HMAC+IP accepted by key '");
        line.append(label);
        line.append("'");
        out.push(line);
    } else {
        assert(own@ != token.ip_hash@);
        let head = with_hex("ip HMAC MISMATCH (own ", own, " token ");
        let what = with_hex(head.as_str(), token.ip_hash.as_slice(), ")");
        out.push(write_key_line(conn_id, label, what.as_str()));
        let mut line = start_line(conn_id, "v2 token rejected: source IP ");
        line.append(ip);
        line.append(" does not match token");
        out.push(line);
    }
    assert(text::texts(out@) == before + matched_lines(conn_id, b, macs@, ip@, now as int));
}

/// Traces the verification of a v2 token from the source `ip`, given the tags that each key
/// makes for it.
pub fn v2_trace(
    conn_id: usize,
    token: &V2Token,
    macs: &Vec<KeyMacs>,
    ip: &str,
    ip16: &[u8; 16],
    now: i64,
) -> (r: Vec<String>)
    ensures
        text::texts(r@) == trace(
            conn_id,
            token.bytes(),
            token::macs_view(macs@),
            ip@,
            ip16@,
            now as int,
        ),
{
    let ghost b = token.bytes();
    let ghost tags = token::macs_view(macs@);
    assert(b.subrange(4, 12) == token.packet_hash@);
    let mut out: Vec<String> = Vec::new();
    out.push(write_token_line(conn_id, token));
    out.push(write_source_line(conn_id, ip, ip16));
    let ghost head = seq![token_line(conn_id, b), source_line(conn_id, ip@, ip16@)];
    assert(text::texts(out@) == head);
    for i in 0..macs.len()
        invariant
            b == token.bytes(),
            b.subrange(4, 12) == token.packet_hash@,
            tags == token::macs_view(macs@),
            head == seq![token_line(conn_id, b), source_line(conn_id, ip@, ip16@)],
            text::texts(out@) + key_lines(conn_id, b, tags, ip@, now as int, i as int) == head
                + key_lines(conn_id, b, tags, ip@, now as int, 0),
    {
        let ghost before = text::texts(out@);
        assert(tags[i as int] == macs@[i as int]@);
        if token::tag_begins(&macs[i].time_mac, token.packet_hash.as_slice()) {
            write_matched_lines(conn_id, token, &macs[i], ip, now, &mut out);
            return out;
        }
        let own = vstd::slice::slice_subrange(macs[i].time_mac.as_slice(), 0, 8);
        assert(own@ == macs@[i as int].time_mac@.take(8));
        let what = with_hex("time HMAC no match (own ", own, ")");
        let line = write_key_line(conn_id, macs[i].label.as_str(), what.as_str());
        out.push(line);
        assert(text::texts(out@) == before + seq![line@]);
        assert(text::texts(out@) + key_lines(conn_id, b, tags, ip@, now as int, i + 1) == before + (
        seq![line@] + key_lines(conn_id, b, tags, ip@, now as int, i + 1)));
    }
    let ghost before = text::texts(out@);
    let line = start_line(conn_id, "v2 token rejected: HMAC mismatch");
    out.push(line);
    assert(text::texts(out@) == before + seq![line@]);
    out
}

/// Traces the verification of a token whose v2 part decodes to `decoded`.
pub fn trace_decoded(
    conn_id: usize,
    decoded: Option<Vec<u8>>,
    keys: &[SecretKey],
    source: Option<(IpAddr, &str)>,
    now: i64,
) -> (r: Vec<String>)
    ensures
        text::texts(r@) == decoded_trace(
            conn_id,
            match decoded {
                Some(b) => Some(b@),
                None => None,
            },
            keys@,
            source_view(source),
            now as int,
        ),
{
    let mut out: Vec<String> = Vec::new();
    let bytes = match decoded {
        Some(b) => b,
        None => {
            let line = start_line(conn_id, "v2 token parse error: not valid base64");
            out.push(line);
            assert(text::texts(out@) == seq![line@]);
            return out;
        },
    };
    let token = match V2Token::from_bytes(bytes.as_slice()) {
        Some(t) => t,
        None => {
            let mut line = start_line(conn_id, "v2 token parse error: ");
            push_dec(&mut line, bytes.len() as u128);
            line.append(" bytes (expected 16)");
            out.push(line);
            assert(text::texts(out@) == seq![line@]);
            return out;
        },
    };
    assert(bytes@.take(4) == token.time@);
    match source {
        Some((ip, shown)) => {
            let ip16 = mapped_ipv6(ip);
            let macs = tags_of(keys, &token, &ip16);
            v2_trace(conn_id, &token, &macs, shown, &ip16, now)
        },
        None => {
            let first = write_token_line(conn_id, &token);
            let second = start_line(conn_id, "v2 token rejected: source IP unavailable");
            out.push(first);
            out.push(second);
            assert(text::texts(out@) == seq![first@, second@]);
            out
        },
    }
}

// ── v1 ──────────────────────────────────────────────────────────────────────────
/// What the tags `macs` of the keys say of a v1 token with the signature `given`.
pub open spec fn v1_outcome(
    conn_id: usize,
    uuid: Seq<char>,
    given: Seq<char>,
    macs: Seq<(Seq<char>, Seq<char>)>,
) -> Seq<char> {
    match token::first_label(macs, given, 0) {
        Some(label) => prefix(conn_id) + "v1 token HMAC accepted by key '"@ + label + "'"@,
        None => prefix(conn_id) + "token rejected: HMAC mismatch for uuid="@ + uuid,
    }
}

/// The trace of a token without a v2 part.
pub open spec fn v1_line(conn_id: usize, raw: Seq<char>, keys: Seq<SecretKey>) -> Seq<char> {
    match text::split_once(raw, "_"@) {
        Some((uuid, rest)) => match text::split_once(rest, "_"@) {
            Some((timestamp, mac)) => if encode_utf8(uuid).len() != 36 || timestamp.len() == 0
                || encode_utf8(timestamp).len() > 12 {
                prefix(conn_id) + "token parse error: malformed uuid or timestamp"@
            } else if number::signed(timestamp) is None {
                prefix(conn_id) + "token parse error: invalid timestamp"@
            } else {
                v1_outcome(
                    conn_id,
                    uuid,
                    mac,
                    token::v1_macs(keys, token::v1_message(uuid, timestamp)),
                )
            },
            None => prefix(conn_id) + "token parse error: expected 3 parts, got 2"@,
        },
        None => prefix(conn_id) + "token parse error: expected 3 parts, got 1"@,
    }
}

/// Says what the tags of the keys say of a v1 token with the signature `given`.
pub fn write_v1_outcome(conn_id: usize, uuid: &str, given: &str, macs: &Vec<LabelledMac>) -> (r:
    String)
    ensures
        r@ == v1_outcome(conn_id, uuid@, given@, token::labelled(macs@)),
{
    match matching_label(given, macs) {
        Some(label) => {
            let mut line = start_line(conn_id, "v1 token HMAC accepted by key '");
            line.append(label.as_str());
            line.append("'");
            line
        },
        None => {
            let mut line = start_line(conn_id, "token rejected: HMAC mismatch for uuid=");
            line.append(uuid);
            line
        },
    }
}

/// Traces the verification of a token without a v2 part.
pub fn v1_trace(conn_id: usize, raw_token: &str, keys: &[SecretKey]) -> (r: String)
    ensures
        r@ == v1_line(conn_id, raw_token@, keys@),
{
    let (uuid, rest) = match cut_once(raw_token, "_") {
        Some(p) => p,
        None => return start_line(conn_id, "token parse error: expected 3 parts, got 1"),
    };
    let (ts_str, mac) = match cut_once(rest, "_") {
        Some(p) => p,
        None => return start_line(conn_id, "token parse error: expected 3 parts, got 2"),
    };
    if uuid.as_bytes().len() != 36 || ts_str.is_empty() || ts_str.as_bytes().len() > 12 {
        return start_line(conn_id, "token parse error: malformed uuid or timestamp");
    }
    if read_signed(ts_str).is_none() {
        return start_line(conn_id, "token parse error: invalid timestamp");
    }
    let message = appended(appended(uuid, "_").as_str(), ts_str);
    let macs = v1_tags(keys, message.as_str());
    write_v1_outcome(conn_id, uuid, mac, &macs)
}

// ── Both versions ───────────────────────────────────────────────────────────────
/// The trace of a token: the steps on its v2 part, if it has one.
pub open spec fn token_trace(
    conn_id: usize,
    raw: Seq<char>,
    keys: Seq<SecretKey>,
    source: Option<(IpAddr, Seq<char>)>,
    v2_only: bool,
    now: int,
) -> Seq<Seq<char>> {
    match token::v2_part(raw) {
        Some(v2) => decoded_trace(
            conn_id,
            crypto::base64_bytes(encode_utf8(v2)),
            keys,
            source,
            now,
        ),
        None => if v2_only {
            seq![
                prefix(conn_id)
                    + "token rejected: no v2 part (#v2# marker) and server is in v2-only mode"@,
            ]
        } else {
            seq![v1_line(conn_id, raw, keys)]
        },
    }
}

/// Traces the verification of a token at the time `now`. `source` is the address of the client
/// and its text.
pub fn trace_token(
    conn_id: usize,
    raw_token: &str,
    keys: &[SecretKey],
    source: Option<(IpAddr, &str)>,
    v2_only: bool,
    now: i64,
) -> (r: Vec<String>)
    ensures
        text::texts(r@) == token_trace(
            conn_id,
            raw_token@,
            keys@,
            source_view(source),
            v2_only,
            now as int,
        ),
{
    match extract_v2(raw_token) {
        Some(v2) => trace_decoded(conn_id, base64_decode(v2.as_bytes()), keys, source, now),
        None => {
            let line = if v2_only {
                start_line(
                    conn_id,
                    "token rejected: no v2 part (#v2# marker) and server is in v2-only mode",
                )
            } else {
                v1_trace(conn_id, raw_token, keys)
            };
            let mut out: Vec<String> = Vec::new();
            out.push(line);
            assert(text::texts(out@) == seq![line@]);
            out
        },
    }
}

// ── Laws ────────────────────────────────────────────────────────────────────────
/// The trace of a token that comes from a known address tells its end truly: it ends with the
/// acceptance by a key exactly when that key's tags match, with the address otherwise, and
/// with the signature when no key's time tag matches.
pub proof fn law_trace_tells_the_end(
    conn_id: usize,
    token: Seq<u8>,
    macs: Seq<MacsView>,
    ip: Seq<char>,
    ip16: Seq<u8>,
    now: int,
)
    ensures
        trace(conn_id, token, macs, ip, ip16, now).last() == match token::first_time_match(
            macs,
            token.subrange(4, 12),
            0,
        ) {
            Some(k) => if macs[k].ip_mac.take(4) == token.subrange(12, 16) {
                accepted_line(conn_id, macs[k].label)
            } else {
                prefix(conn_id) + "v2 token rejected: source IP "@ + ip
                    + " does not match token"@
            },
            None => prefix(conn_id) + "v2 token rejected: HMAC mismatch"@,
        },
{
    lemma_key_lines_end(conn_id, token, macs, ip, now, 0);
}

proof fn lemma_key_lines_end(
    conn_id: usize,
    token: Seq<u8>,
    macs: Seq<MacsView>,
    ip: Seq<char>,
    now: int,
    i: int,
)
    requires
        0 <= i,
    ensures
        key_lines(conn_id, token, macs, ip, now, i).len() > 0,
        key_lines(conn_id, token, macs, ip, now, i).last() == match token::first_time_match(
            macs,
            token.subrange(4, 12),
            i,
        ) {
            Some(k) => if macs[k].ip_mac.take(4) == token.subrange(12, 16) {
                accepted_line(conn_id, macs[k].label)
            } else {
                prefix(conn_id) + "v2 token rejected: source IP "@ + ip
                    + " does not match token"@
            },
            None => prefix(conn_id) + "v2 token rejected: HMAC mismatch"@,
        },
    decreases macs.len() - i,
{
    if i < macs.len() && macs[i].time_mac.take(8) != token.subrange(4, 12) {
        lemma_key_lines_end(conn_id, token, macs, ip, now, i + 1);
    }
}

} // verus!
