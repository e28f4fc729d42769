//! Authentication tokens.
//!
//! The control server emits a combined token `<v1>_#v2#<base64-v2>`.
//!
//! **v1** (legacy): `<UUID>_<UNIX_TIMESTAMP>_<BASE64_HMAC_SHA1>`, where the HMAC-SHA1 is
//! computed over `UUID_TIMESTAMP`. A pure v1 token has no `#v2#` marker.
//!
//! **v2**: what follows the `#v2#` marker is the base64 text of 16 bytes
//! `time(4 BE) ‖ HMAC-SHA256(key, time)[0..8] ‖ HMAC-SHA256(key, time ‖ ip16)[0..4]`, where
//! `time` is the low 32 bits of the Unix start time and `ip16` is the client source address
//! as IPv4-mapped IPv6. Both the time and the source address are checked.

use vstd::prelude::*;
use vstd::utf8::encode_utf8;
use crate::clock::now_secs;
use crate::config::constants::{MAX_ACCEPT_EARLY, MAX_ACCEPT_LATE};
use crate::config::SecretKey;
use crate::crypto::{self, base64_decode, hmac_sha1_b64, hmac_sha256};
use crate::net::{self, mapped_ipv6, IpAddr};
use crate::number::{self, push_dec_int, read_signed};
use crate::text::{self, appended, cut_once, same_text};

verus! {

// ── Results ─────────────────────────────────────────────────────────────────────
/// Result of token validation.
#[derive(Debug)]
pub enum TokenResult {
    /// Token accepted; if `sleep_secs > 0` the caller should sleep that long
    /// before continuing (client connected slightly early).
    Accepted { sleep_secs: u64, label: String },
    /// HMAC signature did not match any loaded key (v1, or v2 time HMAC).
    InvalidHmac,
    /// v2 only: the time HMAC matched a key, but the connecting source IP does not
    /// match the token's IP HMAC (or the source IP was unavailable).
    InvalidIp,
    /// HMAC matched but the token is not valid yet: the client connected more than
    /// MAX_ACCEPT_EARLY seconds before the token's start time.
    TooEarly { reason: String },
    /// HMAC matched but the token has expired: the client connected more than
    /// MAX_ACCEPT_LATE seconds after the token's start time.
    TooLate { reason: String },
    /// Token string did not parse.
    ParseError,
    /// A legacy v1 token was presented but the server is configured for v2 only.
    V2Required,
}

/// What a `TokenResult` says.
pub enum Verdict {
    Accepted { sleep_secs: nat, label: Seq<char> },
    InvalidHmac,
    InvalidIp,
    TooEarly { reason: Seq<char> },
    TooLate { reason: Seq<char> },
    ParseError,
    V2Required,
}

impl View for TokenResult {
    type V = Verdict;

    open spec fn view(&self) -> Verdict {
        match self {
            TokenResult::Accepted { sleep_secs, label } => Verdict::Accepted {
                sleep_secs: *sleep_secs as nat,
                label: label@,
            },
            TokenResult::InvalidHmac => Verdict::InvalidHmac,
            TokenResult::InvalidIp => Verdict::InvalidIp,
            TokenResult::TooEarly { reason } => Verdict::TooEarly { reason: reason@ },
            TokenResult::TooLate { reason } => Verdict::TooLate { reason: reason@ },
            TokenResult::ParseError => Verdict::ParseError,
            TokenResult::V2Required => Verdict::V2Required,
        }
    }
}

// ── The accept window ───────────────────────────────────────────────────────────
/// The verdict on a token with a valid signature: accepted from `MAX_ACCEPT_EARLY` seconds
/// before its start time to `MAX_ACCEPT_LATE` seconds after it.
pub open spec fn window(start_time: int, now: int, label: Seq<char>) -> Verdict {
    let early = start_time - now;
    if early > MAX_ACCEPT_EARLY {
        Verdict::TooEarly {
            reason: "token not valid yet: client is "@ + number::dec_int(early)
                + "s early (max "@ + number::dec_int(MAX_ACCEPT_EARLY as int) + ")"@,
        }
    } else if -early > MAX_ACCEPT_LATE {
        Verdict::TooLate {
            reason: "token expired: client is "@ + number::dec_int(-early)
                + "s late (max "@ + number::dec_int(MAX_ACCEPT_LATE as int) + ")"@,
        }
    } else {
        Verdict::Accepted {
            sleep_secs: if early > 0 {
                early as nat
            } else {
                0
            },
            label,
        }
    }
}

fn window_reason(head: &str, seconds: i128, middle: &str, max: i64) -> (r: String)
    ensures
        r@ == head@ + number::dec_int(seconds as int) + middle@ + number::dec_int(
            max as int,
        ) + ")"@,
{
    let mut out = head.to_owned();
    push_dec_int(&mut out, seconds);
    out.append(middle);
    push_dec_int(&mut out, max as i128);
    out.append(")");
    out
}

/// Applies the early/late accept window (identical for v1 and v2).
pub fn time_window(start_time: i128, now: i64, label: String) -> (r: TokenResult)
    requires
        -0x2_0000_0000_0000_0000 <= start_time <= 0x2_0000_0000_0000_0000,
    ensures
        r@ == window(start_time as int, now as int, label@),
{
    let seconds_early: i128 = start_time - now as i128;
    let seconds_late: i128 = now as i128 - start_time;
    if seconds_early > MAX_ACCEPT_EARLY as i128 {
        let reason = window_reason(
            "token not valid yet: client is ",
            seconds_early,
            "s early (max ",
            MAX_ACCEPT_EARLY,
        );
        return TokenResult::TooEarly { reason };
    }
    if seconds_late > MAX_ACCEPT_LATE as i128 {
        let reason = window_reason(
            "token expired: client is ",
            seconds_late,
            "s late (max ",
            MAX_ACCEPT_LATE,
        );
        return TokenResult::TooLate { reason };
    }
    let sleep_secs: u64 = if seconds_early > 0 {
        seconds_early as u64
    } else {
        0
    };
    TokenResult::Accepted { sleep_secs, label }
}

// ── The 32-bit time of v2 ───────────────────────────────────────────────────────
/// The seconds after which the 32-bit time of a token repeats.
pub const PERIOD: i64 = 0x1_0000_0000;

/// The time nearest to `now` whose low 32 bits are `time`. Half a period away, of the two
/// times that are equally near, it is the one in the same period as `now`.
pub open spec fn nearest(time: int, now: int) -> int {
    let t = now - now % (PERIOD as int) + time;
    if t - now > PERIOD / 2 {
        t - PERIOD
    } else if now - t > PERIOD / 2 {
        t + PERIOD
    } else {
        t
    }
}

/// Maps the 32-bit token time back to an absolute Unix time near `now`, handling
/// the wrap after 2^32 seconds.
pub fn reconstruct_time(time_u32: u32, now: i64) -> (r: i128)
    ensures
        r == nearest(time_u32 as int, now as int),
        (r - time_u32) % (PERIOD as int) == 0,
        -(PERIOD / 2) <= r - now <= PERIOD / 2,
{
    let n: i128 = now as i128;
    let low: i128 = (n + 0x8000_0000_0000_0000) % 0x1_0000_0000;
    assert(low == n % 0x1_0000_0000);
    let mut t: i128 = n - low + time_u32 as i128;
    let half: i128 = 0x8000_0000;
    if t - n > half {
        t = t - 0x1_0000_0000;
    } else if n - t > half {
        t = t + 0x1_0000_0000;
    }
    t
}

// ── Version detection ───────────────────────────────────────────────────────────
/// The base64 v2 part of a token: what follows the first `#v2#` marker.
pub open spec fn v2_part(raw: Seq<char>) -> Option<Seq<char>> {
    match text::split_once(raw, "#v2#"@) {
        Some(p) => Some(p.1),
        None => None,
    }
}

/// The base64 v2 part if the `#v2#` marker is present (everything after it; `#` is not in
/// the base64 alphabet).
pub fn extract_v2(raw: &str) -> (r: Option<&str>)
    ensures
        match r {
            Some(t) => v2_part(raw@) == Some(t@),
            None => v2_part(raw@) is None,
        },
{
    match cut_once(raw, "#v2#") {
        Some((_, v2)) => Some(v2),
        None => None,
    }
}

// ── v1: UUID_TIMESTAMP_HMAC-SHA1 ────────────────────────────────────────────────
/// The fields of a v1 token.
pub struct V1Fields {
    pub uuid: Seq<char>,
    pub timestamp: Seq<char>,
    pub start_time: int,
    pub mac: Seq<char>,
}

/// The fields of `raw` as a v1 token: a first field of 36 bytes, a second field of at most 12
/// bytes that is a decimal number, and the rest after the second underscore.
pub open spec fn v1_fields(raw: Seq<char>) -> Option<V1Fields> {
    match text::split_once(raw, "_"@) {
        Some((uuid, rest)) => match text::split_once(rest, "_"@) {
            Some((timestamp, mac)) => match number::signed(timestamp) {
                Some(start_time) => if encode_utf8(uuid).len() == 36 && timestamp.len() > 0
                    && encode_utf8(timestamp).len() <= 12 {
                    Some(V1Fields { uuid, timestamp, start_time, mac })
                } else {
                    None
                },
                None => None,
            },
            None => None,
        },
        None => None,
    }
}

/// The signed message of a v1 token, `UUID_TIMESTAMP`.
pub open spec fn v1_message(uuid: Seq<char>, timestamp: Seq<char>) -> Seq<char> {
    uuid + "_"@ + timestamp
}

/// The text that a key signs a message with, and the label of the key.
pub struct LabelledMac {
    pub mac: String,
    pub label: String,
}

/// The base64 HMAC-SHA1 of `message` under the key text `key`.
pub open spec fn v1_mac(key: Seq<char>, message: Seq<char>) -> Seq<char> {
    crypto::base64_text(
        crypto::hmac_sha1_of(encode_utf8(key), encode_utf8(message)),
    )
}

/// The signature and label of each key for `message`.
pub open spec fn v1_macs(keys: Seq<SecretKey>, message: Seq<char>) -> Seq<
    (Seq<char>, Seq<char>),
> {
    keys.map_values(|k: SecretKey| (v1_mac(k.key@, message), k.label@))
}

/// The views of signatures and labels.
pub open spec fn labelled(macs: Seq<LabelledMac>) -> Seq<(Seq<char>, Seq<char>)> {
    macs.map_values(|m: LabelledMac| (m.mac@, m.label@))
}

/// The label of the first signature that is `given`, from position `i` on.
pub open spec fn first_label(
    macs: Seq<(Seq<char>, Seq<char>)>,
    given: Seq<char>,
    i: int,
) -> Option<Seq<char>>
    decreases macs.len() - i,
{
    if i < 0 || i >= macs.len() {
        None
    } else if macs[i].0 == given {
        Some(macs[i].1)
    } else {
        first_label(macs, given, i + 1)
    }
}

/// The verdict on a v1 token with the signature `given`, when the keys sign with `macs`.
pub open spec fn v1_judgement(
    given: Seq<char>,
    macs: Seq<(Seq<char>, Seq<char>)>,
    start_time: int,
    now: int,
) -> Verdict {
    match first_label(macs, given, 0) {
        Some(label) => window(start_time, now, label),
        None => Verdict::InvalidHmac,
    }
}

/// The verdict on `raw` as a v1 token.
pub open spec fn v1_verdict(raw: Seq<char>, keys: Seq<SecretKey>, now: int) -> Verdict {
    match v1_fields(raw) {
        Some(f) => v1_judgement(
            f.mac,
            v1_macs(keys, v1_message(f.uuid, f.timestamp)),
            f.start_time,
            now,
        ),
        None => Verdict::ParseError,
    }
}

/// The label of the first key that signs with `given`.
pub fn matching_label(given: &str, macs: &Vec<LabelledMac>) -> (r: Option<String>)
    ensures
        crate::config::text_option(r) == first_label(labelled(macs@), given@, 0),
{
    for i in 0..macs.len()
        invariant
            first_label(labelled(macs@), given@, 0) == first_label(
                labelled(macs@),
                given@,
                i as int,
            ),
    {
        assert(labelled(macs@)[i as int] == (macs@[i as int].mac@, macs@[i as int].label@));
        if same_text(macs[i].mac.as_str(), given) {
            return Some(macs[i].label.clone());
        }
    }
    None
}

/// Decides on a v1 token, given the text that each key signs its message with.
pub fn judge_v1(given: &str, macs: &Vec<LabelledMac>, start_time: i64, now: i64) -> (r: TokenResult)
    ensures
        r@ == v1_judgement(given@, labelled(macs@), start_time as int, now as int),
{
    match matching_label(given, macs) {
        Some(label) => time_window(start_time as i128, now, label),
        None => TokenResult::InvalidHmac,
    }
}

/// The text that each key signs a message with.
pub fn v1_tags(keys: &[SecretKey], message: &str) -> (macs: Vec<LabelledMac>)
    ensures
        labelled(macs@) == v1_macs(keys@, message@),
{
    let mut macs: Vec<LabelledMac> = Vec::new();
    for i in 0..keys.len()
        invariant
            labelled(macs@) == v1_macs(keys@, message@).take(i as int),
    {
        let ghost before = macs@;
        let mac = hmac_sha1_b64(
            keys[i].key.as_str().as_bytes(),
            message.as_bytes(),
        );
        macs.push(LabelledMac { mac, label: keys[i].label.clone() });
        assert(labelled(macs@) == labelled(before).push((mac@, keys@[i as int].label@)));
        assert(v1_macs(keys@, message@).take(i + 1) == v1_macs(keys@, message@).take(
            i as int,
        ).push(v1_macs(keys@, message@)[i as int]));
    }
    assert(v1_macs(keys@, message@).take(keys@.len() as int) == v1_macs(keys@, message@));
    macs
}

/// Validates a token without a v2 part at the time `now`.
pub fn validate_v1(raw_token: &str, keys: &[SecretKey], now: i64) -> (r: TokenResult)
    ensures
        r@ == v1_verdict(raw_token@, keys@, now as int),
{
    // The UUID uses hyphens, not underscores, so the first field is the whole UUID.
    let (uuid, rest) = match cut_once(raw_token, "_") {
        Some(p) => p,
        None => return TokenResult::ParseError,
    };
    let (ts_str, hmac_b64) = match cut_once(rest, "_") {
        Some(p) => p,
        None => return TokenResult::ParseError,
    };
    if uuid.as_bytes().len() != 36 || ts_str.is_empty() || ts_str.as_bytes().len() > 12 {
        return TokenResult::ParseError;
    }
    let start_time: i64 = match read_signed(ts_str) {
        Some(v) => v,
        None => return TokenResult::ParseError,
    };
    let message = appended(appended(uuid, "_").as_str(), ts_str);
    let macs = v1_tags(keys, message.as_str());
    judge_v1(hmac_b64, &macs, start_time, now)
}

// ── v2: SHA256, time and source address ─────────────────────────────────────────
/// The parts of a v2 token.
pub struct V2Token {
    pub time: [u8; 4],
    pub packet_hash: [u8; 8],
    pub ip_hash: [u8; 4],
}

/// The tags that a key makes of a token's time, and of its time and the source address,
/// and the label of the key.
pub struct KeyMacs {
    pub time_mac: [u8; 32],
    pub ip_mac: [u8; 32],
    pub label: String,
}

/// What a `KeyMacs` holds.
pub struct MacsView {
    pub time_mac: Seq<u8>,
    pub ip_mac: Seq<u8>,
    pub label: Seq<char>,
}

impl View for KeyMacs {
    type V = MacsView;

    open spec fn view(&self) -> MacsView {
        MacsView { time_mac: self.time_mac@, ip_mac: self.ip_mac@, label: self.label@ }
    }
}

/// The views of the tags of several keys.
pub open spec fn macs_view(macs: Seq<KeyMacs>) -> Seq<MacsView> {
    macs.map_values(|m: KeyMacs| m@)
}

/// The number with the big-endian bytes `b`.
pub open spec fn be32(b: Seq<u8>) -> int {
    b[0] * 0x100_0000 + b[1] * 0x1_0000 + b[2] * 0x100 + b[3]
}

/// The tags of one key for a token's time and the source address.
pub open spec fn key_macs(key: SecretKey, time: Seq<u8>, ip16: Seq<u8>) -> MacsView {
    MacsView {
        time_mac: crypto::hmac_sha256_of(encode_utf8(key.key@), time),
        ip_mac: crypto::hmac_sha256_of(encode_utf8(key.key@), time + ip16),
        label: key.label@,
    }
}

/// The tags of each key for a token's time and the source address.
pub open spec fn v2_macs(keys: Seq<SecretKey>, time: Seq<u8>, ip16: Seq<u8>) -> Seq<MacsView> {
    keys.map_values(|k: SecretKey| key_macs(k, time, ip16))
}

/// The first key, from position `i` on, whose time tag begins with `packet_hash`.
pub open spec fn first_time_match(
    macs: Seq<MacsView>,
    packet_hash: Seq<u8>,
    i: int,
) -> Option<int>
    decreases macs.len() - i,
{
    if i < 0 || i >= macs.len() {
        None
    } else if macs[i].time_mac.take(8) == packet_hash {
        Some(i)
    } else {
        first_time_match(macs, packet_hash, i + 1)
    }
}

/// The verdict on the v2 token with the bytes `token`, when the keys make the tags `macs`.
/// The time tag identifies the key; its address tag then binds the source address. The
/// start time is the one nearest to `now`; the window is applied at the time `later`.
pub open spec fn v2_judgement(
    token: Seq<u8>,
    macs: Seq<MacsView>,
    now: int,
    later: int,
) -> Verdict {
    match first_time_match(macs, token.subrange(4, 12), 0) {
        Some(i) => if macs[i].ip_mac.take(4) == token.subrange(12, 16) {
            window(nearest(be32(token.take(4)), now), later, macs[i].label)
        } else {
            Verdict::InvalidIp
        },
        None => Verdict::InvalidHmac,
    }
}

/// The verdict on a token whose v2 part decodes to `decoded`.
pub open spec fn v2_bytes_verdict(
    decoded: Option<Seq<u8>>,
    keys: Seq<SecretKey>,
    source_ip: Option<IpAddr>,
    now: int,
    later: int,
) -> Verdict {
    match decoded {
        Some(token) => if token.len() != 16 {
            Verdict::ParseError
        } else {
            match source_ip {
                Some(ip) => v2_judgement(
                    token,
                    v2_macs(keys, token.take(4), net::mapped(ip)),
                    now,
                    later,
                ),
                None => Verdict::InvalidIp,
            }
        },
        None => Verdict::ParseError,
    }
}

impl V2Token {
    /// The 16 bytes of the token.
    pub open spec fn bytes(&self) -> Seq<u8> {
        self.time@ + self.packet_hash@ + self.ip_hash@
    }

    /// Splits the 16 bytes of a token into its parts; any other length is no token.
    pub fn from_bytes(b: &[u8]) -> (r: Option<V2Token>)
        ensures
            match r {
                Some(t) => b@.len() == 16 && t.bytes() == b@,
                None => b@.len() != 16,
            },
    {
        if b.len() != 16 {
            return None;
        }
        let t = V2Token {
            time: [b[0], b[1], b[2], b[3]],
            packet_hash: [b[4], b[5], b[6], b[7], b[8], b[9], b[10], b[11]],
            ip_hash: [b[12], b[13], b[14], b[15]],
        };
        assert(t.bytes() == b@);
        Some(t)
    }

    /// The 32-bit time of the token.
    pub fn time_u32(&self) -> (r: u32)
        ensures
            r == be32(self.time@),
    {
        self.time[0] as u32 * 0x100_0000 + self.time[1] as u32 * 0x1_0000 + self.time[2] as u32
            * 0x100 + self.time[3] as u32
    }
}

/// Tells whether a tag begins with `hash`.
pub fn tag_begins(tag: &[u8; 32], hash: &[u8]) -> (r: bool)
    requires
        hash@.len() <= 32,
    ensures
        r == (tag@.take(hash@.len() as int) == hash@),
{
    for i in 0..hash.len()
        invariant
            hash@.len() <= 32,
            forall|j: int| 0 <= j < i ==> tag@[j] == hash@[j],
    {
        if tag[i] != hash[i] {
            assert(tag@.take(hash@.len() as int)[i as int] != hash@[i as int]);
            return false;
        }
    }
    assert(tag@.take(hash@.len() as int) == hash@);
    true
}

/// Decides on a v2 token, given the tags that each key makes for it.
pub fn judge_v2(token: &V2Token, macs: &Vec<KeyMacs>, now: i64, later: i64) -> (r: TokenResult)
    ensures
        r@ == v2_judgement(token.bytes(), macs_view(macs@), now as int, later as int),
{
    let ghost b = token.bytes();
    assert(b.subrange(4, 12) == token.packet_hash@);
    assert(b.subrange(12, 16) == token.ip_hash@);
    assert(b.take(4) == token.time@);
    for i in 0..macs.len()
        invariant
            b == token.bytes(),
            b.subrange(4, 12) == token.packet_hash@,
            b.subrange(12, 16) == token.ip_hash@,
            b.take(4) == token.time@,
            first_time_match(macs_view(macs@), b.subrange(4, 12), 0) == first_time_match(
                macs_view(macs@),
                b.subrange(4, 12),
                i as int,
            ),
    {
        assert(macs_view(macs@)[i as int] == macs@[i as int]@);
        if tag_begins(&macs[i].time_mac, token.packet_hash.as_slice()) {
            if tag_begins(&macs[i].ip_mac, token.ip_hash.as_slice()) {
                let start_time = reconstruct_time(token.time_u32(), now);
                return time_window(start_time, later, macs[i].label.clone());
            }
            return TokenResult::InvalidIp;
        }
    }
    TokenResult::InvalidHmac
}

/// The tags that each key makes for a token and an address.
pub fn tags_of(keys: &[SecretKey], token: &V2Token, ip16: &[u8; 16]) -> (macs: Vec<KeyMacs>)
    ensures
        macs_view(macs@) == v2_macs(keys@, token.time@, ip16@),
{
    let mut macs: Vec<KeyMacs> = Vec::new();
    let ghost all = v2_macs(keys@, token.time@, ip16@);
    for i in 0..keys.len()
        invariant
            all == v2_macs(keys@, token.time@, ip16@),
            macs_view(macs@) == all.take(i as int),
    {
        let ghost before = macs@;
        let kb = keys[i].key.as_str().as_bytes();
        let time_parts: [&[u8]; 1] = [token.time.as_slice()];
        let time_mac = hmac_sha256(kb, time_parts.as_slice());
        let ip_parts: [&[u8]; 2] = [token.time.as_slice(), ip16.as_slice()];
        let ip_mac = hmac_sha256(kb, ip_parts.as_slice());
        proof {
            reveal_with_fuel(crypto::joined, 3);
            assert(crypto::joined(time_parts@) == token.time@);
            assert(ip_parts@.drop_last().drop_last() == Seq::<&[u8]>::empty());
            assert(crypto::joined(ip_parts@) == token.time@ + ip16@);
        }
        macs.push(KeyMacs { time_mac, ip_mac, label: keys[i].label.clone() });
        assert(macs_view(macs@) == macs_view(before).push(macs@.last()@));
        assert(macs@.last()@ == all[i as int]);
        assert(all.take(i + 1) == all.take(i as int).push(all[i as int]));
    }
    assert(all.take(keys@.len() as int) == all);
    macs
}

/// Decides on a token whose v2 part decodes to `decoded`.
pub fn validate_v2_bytes(
    decoded: Option<Vec<u8>>,
    keys: &[SecretKey],
    source_ip: Option<IpAddr>,
    now: i64,
    later: i64,
) -> (r: TokenResult)
    ensures
        r@ == v2_bytes_verdict(
            match decoded {
                Some(b) => Some(b@),
                None => None,
            },
            keys@,
            source_ip,
            now as int,
            later as int,
        ),
{
    let bytes = match decoded {
        Some(b) => b,
        None => return TokenResult::ParseError,
    };
    let token = match V2Token::from_bytes(bytes.as_slice()) {
        Some(t) => t,
        None => return TokenResult::ParseError,
    };
    // v2 binds the source IP, so we must know where the connection came from.
    let ip = match source_ip {
        Some(ip) => ip,
        None => return TokenResult::InvalidIp,
    };
    let ip16 = mapped_ipv6(ip);
    assert(bytes@.take(4) == token.time@);
    let macs = tags_of(keys, &token, &ip16);
    judge_v2(&token, &macs, now, later)
}

/// Validates the base64 v2 part of a token.
pub fn validate_v2(
    raw: &str,
    keys: &[SecretKey],
    source_ip: Option<IpAddr>,
    now: i64,
    later: i64,
) -> (r: TokenResult)
    ensures
        r@ == v2_bytes_verdict(
            crypto::base64_bytes(encode_utf8(raw@)),
            keys@,
            source_ip,
            now as int,
            later as int,
        ),
{
    validate_v2_bytes(base64_decode(raw.as_bytes()), keys, source_ip, now, later)
}

// ── Both versions ───────────────────────────────────────────────────────────────
/// The verdict on a token, when the clock shows `now` and, for the accept window, `later`.
pub open spec fn token_verdict(
    raw: Seq<char>,
    keys: Seq<SecretKey>,
    source_ip: Option<IpAddr>,
    v2_only: bool,
    now: int,
    later: int,
) -> Verdict {
    match v2_part(raw) {
        Some(v2) => v2_bytes_verdict(
            crypto::base64_bytes(encode_utf8(v2)),
            keys,
            source_ip,
            now,
            later,
        ),
        None => if v2_only {
            Verdict::V2Required
        } else {
            v1_verdict(raw, keys, later)
        },
    }
}

/// Validates a token when the clock shows `now` and, for the accept window, `later`.
pub fn validate_token_at(
    raw_token: &str,
    keys: &[SecretKey],
    source_ip: Option<IpAddr>,
    v2_only: bool,
    now: i64,
    later: i64,
) -> (r: TokenResult)
    ensures
        r@ == token_verdict(raw_token@, keys@, source_ip, v2_only, now as int, later as int),
{
    match extract_v2(raw_token) {
        Some(v2_b64) => validate_v2(v2_b64, keys, source_ip, now, later),
        None => if v2_only {
            TokenResult::V2Required
        } else {
            validate_v1(raw_token, keys, later)
        },
    }
}

/// Validates an RMBT authentication token, detecting the version.
///
/// If the `#v2#` marker is present the v2 part is validated (the v1 prefix is ignored);
/// otherwise the token is validated as v1. `source_ip` is the address the connection
/// actually came from (required for v2). When `v2_only` is set, a token without a v2
/// part is rejected. Several keys are tried in order to support key rotation.
///
/// The clock is read here, so the verdict is the one at some times that it showed.
pub fn validate_token(
    raw_token: &str,
    keys: &[SecretKey],
    _conn_id: usize,
    source_ip: Option<IpAddr>,
    v2_only: bool,
) -> (r: TokenResult)
    ensures
        exists|now: i64, later: i64|
            r@ == #[trigger] token_verdict(
                raw_token@,
                keys@,
                source_ip,
                v2_only,
                now as int,
                later as int,
            ),
{
    let now = now_secs();
    let later = now_secs();
    validate_token_at(raw_token, keys, source_ip, v2_only, now, later)
}

} // verus!
