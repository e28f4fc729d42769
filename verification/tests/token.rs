use base64::engine::general_purpose::STANDARD;
use base64::Engine;
use rmbtd::clock::{now_secs, unix_time};
use rmbtd::config::SecretKey;
use rmbtd::crypto::{hmac_sha1_b64, hmac_sha256};
use rmbtd::net::{mapped_ipv6, IpAddr};
use rmbtd::number::hex;
use rmbtd::protocol::token::{
    extract_v2, judge_v1, judge_v2, matching_label, reconstruct_time, time_window, validate_token,
    validate_token_at, KeyMacs, LabelledMac, TokenResult, V2Token,
};
use rmbtd::protocol::trace::{
    trace_decoded, trace_token, v1_trace, v2_trace, write_v1_outcome,
};

const SEED: &str = "topsecret";

const UUID: &str = "8723358c-2037-4029-a70c-91e5d9d35cf3";

const V2_GOLDEN: &str = "ZVPxAEzErM6+VBk3HmTzPw==";

const V1_GOLDEN: &str =
    "8723358c-2037-4029-a70c-91e5d9d35cf3_1700000000_Q+55pZ/JOQgjMe49FlelxsfCxqA=";

const V4: IpAddr = IpAddr::V4([62, 1, 2, 3]);

/// `2001:db8::` with this last octet.
fn v6(last: u8) -> IpAddr {
    IpAddr::V6([0x20, 0x01, 0x0d, 0xb8, 0, 0, 0, 0, 0, 0, 0, 0, 0, 0, 0, last])
}

fn keys(k: &str) -> Vec<SecretKey> {
    vec![SecretKey { key: k.to_string(), label: "test".to_string() }]
}

/// The bare v2 token (base64).
fn v2_bare(seed: &str, ip: IpAddr, time: u32) -> String {
    let tb = time.to_be_bytes();
    let ph = hmac_sha256(seed.as_bytes(), &[&tb]);
    let ih = hmac_sha256(seed.as_bytes(), &[&tb, &mapped_ipv6(ip)]);
    let mut buf = Vec::with_capacity(16);
    buf.extend_from_slice(&tb);
    buf.extend_from_slice(&ph[..8]);
    buf.extend_from_slice(&ih[..4]);
    STANDARD.encode(buf)
}

/// A bare v2 token in the control server's combined form: `<v1>_#v2#<bare>`.
fn wrap_v2(bare: &str) -> String {
    format!("8723358c-2037-4029-a70c-91e5d9d35cf3_1700000000_v1hmac_#v2#{bare}")
}

/// The full combined token the control server issues for a v2-capable session.
fn make_v2(seed: &str, ip: IpAddr, time: u32) -> String {
    wrap_v2(&v2_bare(seed, ip, time))
}

fn make_v1(seed: &str, uuid: &str, ts: i64) -> String {
    let hmac = hmac_sha1_b64(seed.as_bytes(), format!("{uuid}_{ts}").as_bytes());
    format!("{uuid}_{ts}_{hmac}")
}

#[test]
fn v2_correct_ipv4_accepted() {
    let tok = make_v2(SEED, V4, now_secs() as u32);
    assert!(matches!(
        validate_token(&tok, &keys(SEED), 0, Some(V4), false),
        TokenResult::Accepted { .. }
    ));
}

#[test]
fn v2_correct_ipv6_accepted() {
    let ip = v6(1);
    let tok = make_v2(SEED, ip, now_secs() as u32);
    assert!(matches!(
        validate_token(&tok, &keys(SEED), 0, Some(ip), false),
        TokenResult::Accepted { .. }
    ));
}

#[test]
fn v2_wrong_ipv4_rejected() {
    let connecting = IpAddr::V4([9, 9, 9, 9]);
    let tok = make_v2(SEED, V4, now_secs() as u32);
    assert!(matches!(
        validate_token(&tok, &keys(SEED), 0, Some(connecting), false),
        TokenResult::InvalidIp
    ));
}

#[test]
fn v2_wrong_ipv6_rejected() {
    let tok = make_v2(SEED, v6(1), now_secs() as u32);
    assert!(matches!(
        validate_token(&tok, &keys(SEED), 0, Some(v6(2)), false),
        TokenResult::InvalidIp
    ));
}

#[test]
fn v2_ipv4_token_from_ipv6_rejected() {
    let tok = make_v2(SEED, V4, now_secs() as u32);
    assert!(matches!(
        validate_token(&tok, &keys(SEED), 0, Some(v6(1)), false),
        TokenResult::InvalidIp
    ));
}

#[test]
fn v2_wrong_key_rejected() {
    let tok = make_v2(SEED, V4, now_secs() as u32);
    assert!(matches!(
        validate_token(&tok, &keys("othersecret"), 0, Some(V4), false),
        TokenResult::InvalidHmac
    ));
}

#[test]
fn v2_too_late_rejected() {
    let tok = make_v2(SEED, V4, (now_secs() - 1000) as u32);
    assert!(matches!(
        validate_token(&tok, &keys(SEED), 0, Some(V4), false),
        TokenResult::TooLate { .. }
    ));
}

#[test]
fn v2_too_early_rejected() {
    let tok = make_v2(SEED, V4, (now_secs() + 1000) as u32);
    assert!(matches!(
        validate_token(&tok, &keys(SEED), 0, Some(V4), false),
        TokenResult::TooEarly { .. }
    ));
}

#[test]
fn v2_missing_source_ip_rejected() {
    let tok = make_v2(SEED, V4, now_secs() as u32);
    assert!(matches!(
        validate_token(&tok, &keys(SEED), 0, None, false),
        TokenResult::InvalidIp
    ));
}

#[test]
fn v1_still_accepted_by_default() {
    let tok = make_v1(SEED, UUID, now_secs());
    assert!(matches!(
        validate_token(&tok, &keys(SEED), 0, None, false),
        TokenResult::Accepted { .. }
    ));
}

#[test]
fn v1_rejected_in_v2_only_mode() {
    let tok = make_v1(SEED, UUID, now_secs());
    assert!(matches!(
        validate_token(&tok, &keys(SEED), 0, None, true),
        TokenResult::V2Required
    ));
}

#[test]
fn v2_accepted_in_v2_only_mode() {
    let tok = make_v2(SEED, V4, now_secs() as u32);
    assert!(matches!(
        validate_token(&tok, &keys(SEED), 0, Some(V4), true),
        TokenResult::Accepted { .. }
    ));
}

#[test]
fn ipv4_mapped_ipv6_matches_v4() {
    // ::ffff:62.1.2.3
    let mapped = IpAddr::V6([0, 0, 0, 0, 0, 0, 0, 0, 0, 0, 0xff, 0xff, 62, 1, 2, 3]);
    assert_eq!(mapped_ipv6(V4), mapped_ipv6(mapped));
}

#[test]
fn v2_golden_vector_is_byte_compatible_with_reference() {
    assert_eq!(v2_bare(SEED, V4, 1_700_000_000), V2_GOLDEN);
}

#[test]
fn v2_golden_token_crypto_valid_but_old() {
    assert!(matches!(
        validate_token(&wrap_v2(V2_GOLDEN), &keys(SEED), 0, Some(V4), false),
        TokenResult::TooLate { .. }
    ));
}

#[test]
fn combined_token_ignores_v1_prefix_and_uses_v2() {
    let tok = format!("garbage_not_a_real_v1_token_#v2#{}", v2_bare(SEED, V4, now_secs() as u32));
    assert!(matches!(
        validate_token(&tok, &keys(SEED), 0, Some(V4), false),
        TokenResult::Accepted { .. }
    ));
}

#[test]
fn v1_golden_token_crypto_valid_but_old() {
    assert!(matches!(
        validate_token(V1_GOLDEN, &keys(SEED), 0, None, false),
        TokenResult::TooLate { .. }
    ));
}

// ── The accept window ───────────────────────────────────────────────────────────
fn at(now: i64) -> TokenResult {
    validate_token_at(V1_GOLDEN, &keys(SEED), None, false, now, now)
}

#[test]
fn window_has_exact_bounds() {
    let t = 1_700_000_000;
    assert!(matches!(at(t - 21), TokenResult::TooEarly { .. }));
    assert!(matches!(at(t - 20), TokenResult::Accepted { sleep_secs: 20, .. }));
    assert!(matches!(at(t - 1), TokenResult::Accepted { sleep_secs: 1, .. }));
    assert!(matches!(at(t), TokenResult::Accepted { sleep_secs: 0, .. }));
    assert!(matches!(at(t + 90), TokenResult::Accepted { sleep_secs: 0, .. }));
    assert!(matches!(at(t + 91), TokenResult::TooLate { .. }));
}

#[test]
fn window_reasons_give_the_distance() {
    match time_window(1000, 900, "k".to_string()) {
        TokenResult::TooEarly { reason } => {
            assert_eq!(reason, "token not valid yet: client is 100s early (max 20)")
        }
        _ => panic!("not too early"),
    }
    match time_window(900, 1000, "k".to_string()) {
        TokenResult::TooLate { reason } => {
            assert_eq!(reason, "token expired: client is 100s late (max 90)")
        }
        _ => panic!("not too late"),
    }
    match time_window(900, 900, "k".to_string()) {
        TokenResult::Accepted { sleep_secs, label } => {
            assert_eq!(sleep_secs, 0);
            assert_eq!(label, "k");
        }
        _ => panic!("not accepted"),
    }
}

#[test]
fn time_is_reconstructed_across_the_wrap() {
    let period: i128 = 1 << 32;
    assert_eq!(reconstruct_time(1_700_000_000, 1_700_000_031), 1_700_000_000);
    // now just after the wrap, the token from just before it
    assert_eq!(reconstruct_time(0xffff_fff0, (period + 5) as i64), 0xffff_fff0);
    // now just before the wrap, the token from just after it
    assert_eq!(reconstruct_time(5, 0xffff_fff0), period + 5);
    assert_eq!(reconstruct_time(5, (3 * period + 7) as i64), 3 * period + 5);
}

#[test]
fn golden_v2_token_at_its_time() {
    let t = 1_700_000_000;
    let tok = wrap_v2(V2_GOLDEN);
    let result = validate_token_at(&tok, &keys(SEED), Some(V4), true, t - 7, t - 7);
    assert!(matches!(result, TokenResult::Accepted { sleep_secs: 7, .. }));
    // 2^32 seconds later the same 32 bits of time come round again
    let later = t + (1i64 << 32);
    let result = validate_token_at(&tok, &keys(SEED), Some(V4), true, later, later);
    assert!(matches!(result, TokenResult::Accepted { sleep_secs: 0, .. }));
}

// ── Several keys ────────────────────────────────────────────────────────────────
#[test]
fn keys_are_tried_in_order() {
    let many = vec![
        SecretKey { key: "first".to_string(), label: "one".to_string() },
        SecretKey { key: SEED.to_string(), label: "two".to_string() },
        SecretKey { key: SEED.to_string(), label: "three".to_string() },
    ];
    let t = 1_700_000_000;
    for tok in [V1_GOLDEN.to_string(), wrap_v2(V2_GOLDEN)] {
        match validate_token_at(&tok, &many, Some(V4), false, t, t) {
            TokenResult::Accepted { label, .. } => assert_eq!(label, "two"),
            _ => panic!("not accepted"),
        }
        // the key that fits gives the same verdict alone
        match validate_token_at(&tok, &many[1..2], Some(V4), false, t, t) {
            TokenResult::Accepted { label, .. } => assert_eq!(label, "two"),
            _ => panic!("not accepted"),
        }
    }
}

#[test]
fn no_keys_accept_nothing() {
    let t = 1_700_000_000;
    let v1 = validate_token_at(V1_GOLDEN, &[], Some(V4), false, t, t);
    assert!(matches!(v1, TokenResult::InvalidHmac));
    let v2 = validate_token_at(&wrap_v2(V2_GOLDEN), &[], Some(V4), false, t, t);
    assert!(matches!(v2, TokenResult::InvalidHmac));
}

#[test]
fn mapped_client_gets_the_same_verdict() {
    let t = 1_700_000_000;
    let mapped = IpAddr::V6([0, 0, 0, 0, 0, 0, 0, 0, 0, 0, 0xff, 0xff, 62, 1, 2, 3]);
    let other = IpAddr::V6([0, 0, 0, 0, 0, 0, 0, 0, 0, 0, 0, 0, 62, 1, 2, 3]);
    let tok = wrap_v2(V2_GOLDEN);
    let r = validate_token_at(&tok, &keys(SEED), Some(mapped), false, t, t);
    assert!(matches!(r, TokenResult::Accepted { .. }));
    let r = validate_token_at(&tok, &keys(SEED), Some(other), false, t, t);
    assert!(matches!(r, TokenResult::InvalidIp));
}

// ── Malformed tokens ────────────────────────────────────────────────────────────
#[test]
fn malformed_tokens_do_not_parse() {
    let t = 1_700_000_000;
    for tok in [
        "",
        "only-a-uuid",
        "uuid_1700000000",
        "uuid_1700000000_AAAA",
        "8723358c-2037-4029-a70c-91e5d9d35cf3__AAAA",
        "8723358c-2037-4029-a70c-91e5d9d35cf3_notanumber_AAAA",
        "8723358c-2037-4029-a70c-91e5d9d35cf3_0001700000000_AAAA",
        "x_#v2#",
        "x_#v2#not base64!",
        "x_#v2#AAAA",
        "#v2#ZVPxAEzErM6+VBk3HmTzPwA=",
    ] {
        let r = validate_token_at(tok, &keys(SEED), Some(V4), false, t, t);
        assert!(matches!(r, TokenResult::ParseError), "{tok}: {r:?}");
    }
}

#[test]
fn tampered_tokens_are_rejected() {
    let t = 1_700_000_000;
    let tok = V1_GOLDEN.replace("1700000000", "1700000001");
    let r = validate_token_at(&tok, &keys(SEED), None, false, t, t);
    assert!(matches!(r, TokenResult::InvalidHmac));
    let mut bytes = STANDARD.decode(V2_GOLDEN).unwrap();
    bytes[3] ^= 1;
    let r = validate_token_at(
        &wrap_v2(&STANDARD.encode(&bytes)),
        &keys(SEED),
        Some(V4),
        false,
        t,
        t,
    );
    assert!(matches!(r, TokenResult::InvalidHmac));
    bytes[3] ^= 1;
    bytes[15] ^= 1;
    let r = validate_token_at(
        &wrap_v2(&STANDARD.encode(&bytes)),
        &keys(SEED),
        Some(V4),
        false,
        t,
        t,
    );
    assert!(matches!(r, TokenResult::InvalidIp));
}

#[test]
fn v2_part_starts_at_the_first_marker() {
    assert_eq!(extract_v2("a_#v2#bcd"), Some("bcd"));
    assert_eq!(extract_v2("#v2#a#v2#b"), Some("a#v2#b"));
    assert_eq!(extract_v2("a_b_c"), None);
}

// ── Judgements on given codes ───────────────────────────────────────────────────
#[test]
fn v1_judgement_on_given_macs() {
    let macs = vec![
        LabelledMac { mac: "aaa".to_string(), label: "one".to_string() },
        LabelledMac { mac: "bbb".to_string(), label: "two".to_string() },
    ];
    match judge_v1("bbb", &macs, 100, 100) {
        TokenResult::Accepted { label, .. } => assert_eq!(label, "two"),
        _ => panic!("not accepted"),
    }
    assert!(matches!(judge_v1("ccc", &macs, 100, 100), TokenResult::InvalidHmac));
    assert!(matches!(judge_v1("aaa", &macs, 100, 300), TokenResult::TooLate { .. }));
}

#[test]
fn v2_judgement_on_given_macs() {
    let bytes: Vec<u8> = vec![0, 0, 0, 100, 1, 2, 3, 4, 5, 6, 7, 8, 9, 10, 11, 12];
    let token = V2Token::from_bytes(&bytes).unwrap();
    assert_eq!(token.time_u32(), 100);
    let macs = |time: [u8; 8], ip: [u8; 4]| {
        let mut t = [0u8; 32];
        t[..8].copy_from_slice(&time);
        let mut i = [0u8; 32];
        i[..4].copy_from_slice(&ip);
        vec![KeyMacs { time_mac: t, ip_mac: i, label: "k".to_string() }]
    };
    let good = macs([1, 2, 3, 4, 5, 6, 7, 8], [9, 10, 11, 12]);
    assert!(matches!(judge_v2(&token, &good, 100, 100), TokenResult::Accepted { .. }));
    let bad_ip = macs([1, 2, 3, 4, 5, 6, 7, 8], [9, 10, 11, 13]);
    assert!(matches!(judge_v2(&token, &bad_ip, 100, 100), TokenResult::InvalidIp));
    let bad_time = macs([1, 2, 3, 4, 5, 6, 7, 9], [9, 10, 11, 12]);
    assert!(matches!(judge_v2(&token, &bad_time, 100, 100), TokenResult::InvalidHmac));
    assert!(V2Token::from_bytes(&bytes[..15]).is_none());
}

// ── The debug trace ─────────────────────────────────────────────────────────────
#[test]
fn trace_follows_an_accepted_token() {
    let many = vec![
        SecretKey { key: "first".to_string(), label: "staging".to_string() },
        SecretKey { key: SEED.to_string(), label: "production".to_string() },
    ];
    let tok = wrap_v2(V2_GOLDEN);
    let source = Some((V4, "62.1.2.3"));
    let lines = trace_token(7, &tok, &many, source, true, 1_700_000_002);
    let own = hex(&hmac_sha256(b"first", &[&1_700_000_000u32.to_be_bytes()])[..8]);
    assert_eq!(
        lines,
        [
            "[conn 7] v2 token: time=6553f100 packet_hash=4cc4accebe541937 ip_hash=1e64f33f",
            "[conn 7] v2 source ip 62.1.2.3 (mapped 00000000000000000000ffff3e010203)",
            &format!("[conn 7] v2 key 'staging': time HMAC no match (own {own})"),
            "[conn 7] v2 key 'production': time HMAC matches",
            "[conn 7] v2 key 'production': ip HMAC matches (own 1e64f33f)",
            "[conn 7] v2 token time: u32=1700000000 reconstructed=1700000000 now=1700000002 \
             (early -2s)",
            "[conn 7] v2 token HMAC+IP accepted by key 'production'",
        ]
    );
}

#[test]
fn trace_shows_a_mismatch() {
    let tok = wrap_v2(V2_GOLDEN);
    let other = IpAddr::V4([9, 9, 9, 9]);
    let own = hmac_sha256(
        SEED.as_bytes(),
        &[&1_700_000_000u32.to_be_bytes(), &mapped_ipv6(other)],
    );
    let lines = trace_token(7, &tok, &keys(SEED), Some((other, "9.9.9.9")), false, 0);
    assert_eq!(
        lines[3],
        format!(
            "[conn 7] v2 key 'test': ip HMAC MISMATCH (own {} token 1e64f33f)",
            hex(&own[..4])
        )
    );
    assert_eq!(
        lines[4],
        "[conn 7] v2 token rejected: source IP 9.9.9.9 does not match token"
    );
    assert_eq!(lines.len(), 5);
    let lines = trace_token(1, &tok, &keys("x"), Some((V4, "62.1.2.3")), false, 0);
    assert_eq!(lines.last().unwrap(), "[conn 1] v2 token rejected: HMAC mismatch");
}

#[test]
fn trace_tells_what_cannot_be_verified() {
    let trace = |tok: &str| trace_token(7, tok, &keys(SEED), None, false, 0);
    assert_eq!(trace("#v2#?"), ["[conn 7] v2 token parse error: not valid base64"]);
    assert_eq!(trace("#v2#AAAA"), ["[conn 7] v2 token parse error: 3 bytes (expected 16)"]);
    let lines = trace(&wrap_v2(V2_GOLDEN));
    assert_eq!(lines.len(), 2);
    assert_eq!(lines[1], "[conn 7] v2 token rejected: source IP unavailable");
    let none = trace_decoded(7, None, &[], None, 0);
    assert_eq!(none, ["[conn 7] v2 token parse error: not valid base64"]);
    let token = V2Token::from_bytes(&[0; 16]).unwrap();
    let lines = v2_trace(7, &token, &vec![], "::", &[0; 16], 0);
    assert_eq!(lines[2], "[conn 7] v2 token rejected: HMAC mismatch");
}

#[test]
fn trace_follows_a_v1_token() {
    let trace = |tok: &str, v2_only| trace_token(7, tok, &keys(SEED), None, v2_only, 0);
    assert_eq!(trace(V1_GOLDEN, false), ["[conn 7] v1 token HMAC accepted by key 'test'"]);
    assert_eq!(
        trace(V1_GOLDEN, true),
        ["[conn 7] token rejected: no v2 part (#v2# marker) and server is in v2-only mode"]
    );
    for (tok, line) in [
        ("x".to_string(), "token parse error: expected 3 parts, got 1"),
        ("x_y".to_string(), "token parse error: expected 3 parts, got 2"),
        ("x_1_y".to_string(), "token parse error: malformed uuid or timestamp"),
        (format!("{UUID}__y"), "token parse error: malformed uuid or timestamp"),
        (format!("{UUID}_1x_y"), "token parse error: invalid timestamp"),
    ] {
        assert_eq!(trace(&tok, false), [format!("[conn 7] {line}")]);
    }
    assert_eq!(
        v1_trace(7, &format!("{UUID}_1_y"), &keys(SEED)),
        format!("[conn 7] token rejected: HMAC mismatch for uuid={UUID}")
    );
    let macs = vec![LabelledMac { mac: "m".to_string(), label: "k".to_string() }];
    assert_eq!(
        write_v1_outcome(7, "u", "m", &macs),
        "[conn 7] v1 token HMAC accepted by key 'k'"
    );
    assert_eq!(
        write_v1_outcome(7, "u", "n", &macs),
        "[conn 7] token rejected: HMAC mismatch for uuid=u"
    );
    assert_eq!(matching_label("m", &macs).as_deref(), Some("k"));
}

// ── Digests ─────────────────────────────────────────────────────────────────────
#[test]
fn hmac_sha256_matches_rfc_4231() {
    let tag = hmac_sha256(b"Jefe", &[b"what do ya want ", b"for nothing?"]);
    assert_eq!(
        hex(&tag),
        "5bdcc146bf60754e6a042426089575c75a003f089d2739839dec58b964ec3843"
    );
    assert_eq!(tag, hmac_sha256(b"Jefe", &[b"what do ya want for nothing?"]));
}

#[test]
fn hmac_sha1_matches_rfc_2202() {
    let text = hmac_sha1_b64(b"Jefe", b"what do ya want for nothing?");
    assert_eq!(
        hex(&STANDARD.decode(text).unwrap()),
        "effcdf6ae5eb2fa2d27416d5f184df9c259a7c79"
    );
}

// ── The clock ───────────────────────────────────────────────────────────────────
#[test]
fn clock_readings_become_seconds() {
    assert_eq!(unix_time(Ok(1_700_000_000)), 1_700_000_000);
    assert_eq!(unix_time(Err(5)), -5);
    assert_eq!(unix_time(Ok(u64::MAX)), i64::MAX);
    assert!(now_secs() > 1_700_000_000);
}
