use rmbtd::events::{hostname, ConnStats, EventSink, Measured, Moment};
use rmbtd::json::{json_escape, Decimal, Json};
use rmbtd::net::{IpAddr, SocketAddr};

#[test]
fn json_escapes_quotes_and_controls() {
    let mut s = String::new();
    json_escape("a\"b\\c\n", &mut s);
    assert_eq!(s, "a\\\"b\\\\c\\n");
}

#[test]
fn json_builder_emits_object() {
    let body = Json::new()
        .str("event", "x")
        .integer("conn", 3)
        .bool("tls", true)
        .number("v", &Decimal::new(&format!("{:.3}", 1.5)).unwrap())
        .done();
    assert_eq!(body, r#"{"event":"x","conn":3,"tls":true,"v":1.500}"#);
}

#[test]
fn stats_track_min_ping_and_totals() {
    let mut s = ConnStats::new();
    s.add_download(1000, 500);
    s.add_download(2000, 1500);
    s.add_ping(900);
    s.add_ping(300);
    assert_eq!(s.download_bytes, 3000);
    assert_eq!(s.download_ns, 2000);
    assert_eq!(s.ping_count, 2);
    assert_eq!(s.ping_min_ns, 300);
    assert_eq!(s.ping_max_ns, 900);
}

#[test]
fn stats_track_uploads() {
    let mut s = ConnStats::default();
    assert_eq!(s.ping_min_ns, u128::MAX);
    s.add_upload(7, 10);
    s.add_upload(8, 20);
    assert_eq!((s.upload_bytes, s.upload_ns), (15, 30));
    assert_eq!((s.download_bytes, s.commands), (0, 0));
}

#[test]
fn json_escapes_all_controls() {
    let mut s = String::from(">");
    json_escape("\t\r\u{1}\u{1f} é", &mut s);
    assert_eq!(s, ">\\t\\r\\u0001\\u001f é");
}

#[test]
fn json_objects_may_be_empty() {
    assert_eq!(Json::new().done(), "{}");
    assert_eq!(Json::new().integer("n", -5).done(), r#"{"n":-5}"#);
    // a value that ends in a brace does not hide the comma
    assert_eq!(Json::new().str("a", "{").bool("b", false).done(), r#"{"a":"{","b":false}"#);
}

#[test]
fn json_numbers_are_numbers() {
    for t in ["0", "7", "10", "-3", "0.102", "915.307", "-0.5", "100.000"] {
        assert_eq!(Decimal::new(t).unwrap().as_str(), t);
    }
    for t in ["", "-", ".", "1.", ".5", "01", "00.5", "1.2.3", "1e5", "inf", "NaN", "+1", "1,0"] {
        assert!(Decimal::new(t).is_none(), "{t}");
    }
}

// ── Frames ──────────────────────────────────────────────────────────────────────
const AT: Moment = Moment { secs: 1_782_057_490, nanos: 97_000_000 };

fn sink() -> EventSink {
    let target = SocketAddr::new(IpAddr::V4([127, 0, 0, 1]), 514);
    EventSink::new(target, Some("host".to_string()), None, 28936)
}

#[test]
fn sink_binds_in_the_family_of_its_target() {
    let v4 = sink();
    assert_eq!(v4.bind, SocketAddr::new(IpAddr::V4([0; 4]), 0));
    assert_eq!(v4.target.port, 514);
    let v6 = EventSink::new(SocketAddr::new(IpAddr::V6([1; 16]), 9), None, None, 1);
    assert_eq!(v6.bind, SocketAddr::new(IpAddr::V6([0; 16]), 0));
    assert_eq!(v6.hostname, "-");
}

#[test]
fn hostname_is_taken_from_the_environment() {
    let s = |t: &str| Some(t.to_string());
    assert_eq!(hostname(s("a"), s("b")), "a");
    assert_eq!(hostname(None, s("b")), "b");
    assert_eq!(hostname(None, None), "-");
    assert_eq!(hostname(s(""), s("b")), "-");
    assert_eq!(hostname(None, s("")), "-");
}

#[test]
fn frame_has_the_rfc_5424_form() {
    let text = sink().syslog_frame(5, "auth", "{}", "2026-06-21T15:58:10.097Z");
    assert_eq!(text, "<133>1 2026-06-21T15:58:10.097Z host rmbtd 28936 auth - {}");
}

#[test]
fn close_event_is_framed_and_stamped() {
    let mut stats = ConnStats::new();
    stats.commands = 3;
    stats.add_download(16384, 1);
    stats.add_upload(12288, 1);
    stats.add_ping(102_000);
    let t = |s: &str| Decimal::new(s).unwrap();
    let measured = Measured {
        duration_ms: t("18.482"),
        dl_mbps: t("7.765"),
        ul_mbps: t("915.307"),
        ping_min_ms: t("0.102"),
    };
    let frame = sink()
        .close(
            1,
            "8723358c-2037-4029-a70c-91e5d9d35cf3",
            "v2",
            "testlabel",
            false,
            &measured,
            &stats,
            "quit",
            AT,
        )
        .unwrap();
    assert_eq!(
        frame,
        "<134>1 2026-06-21T15:58:10.097Z host rmbtd 28936 close - \
         {\"event\":\"close\",\"conn\":1,\"uuid\":\"8723358c-2037-4029-a70c-91e5d9d35cf3\",\
         \"token\":\"v2\",\"secret\":\"testlabel\",\"tls\":false,\"end\":\"quit\",\
         \"duration_ms\":18.482,\"commands\":3,\"dl_bytes\":16384,\"dl_mbps\":7.765,\
         \"ul_bytes\":12288,\"ul_mbps\":915.307,\"ping_count\":1,\"ping_min_ms\":0.102}"
    );
}

#[test]
fn close_event_leaves_out_what_was_not_measured() {
    let e = || Decimal::new("0.000").unwrap();
    let measured = Measured {
        duration_ms: Decimal::new("1.000").unwrap(),
        dl_mbps: e(),
        ul_mbps: e(),
        ping_min_ms: e(),
    };
    let frame =
        sink().close(2, "", "", "", true, &measured, &ConnStats::new(), "auth_failed", AT).unwrap();
    assert!(frame.ends_with(
        " close - {\"event\":\"close\",\"conn\":2,\"uuid\":\"\",\"token\":\"\",\"secret\":\"\",\
         \"tls\":true,\"end\":\"auth_failed\",\"duration_ms\":1.000,\"commands\":0}"
    ));
}

#[test]
fn other_events_have_their_bodies() {
    let s = sink();
    assert!(s.startup("1.7.0", 200, 1, 2, AT).unwrap().ends_with(
        "<134>1 2026-06-21T15:58:10.097Z host rmbtd 28936 lifecycle - \
         {\"event\":\"startup\",\"version\":\"1.7.0\",\"workers\":200,\"tcp_listeners\":1,\
         \"tls_listeners\":2}"
    ));
    assert!(s.connect(7, "62.1.2.*", true, AT).unwrap().ends_with(
        " connect - {\"event\":\"connect\",\"conn\":7,\"client\":\"62.1.2.*\",\"tls\":true}"
    ));
    let rejected = s
        .auth(7, "62.1.2.*", "u", "v1", "rejected", None, Some("invalid_hmac"), AT)
        .unwrap();
    assert!(rejected.starts_with("<133>1 "));
    assert!(rejected.ends_with(
        " auth - {\"event\":\"auth\",\"conn\":7,\"client\":\"62.1.2.*\",\"uuid\":\"u\",\
         \"token\":\"v1\",\"result\":\"rejected\",\"reason\":\"invalid_hmac\"}"
    ));
    let accepted = s.auth(7, "c", "u", "v2", "accepted", Some("prod"), None, AT).unwrap();
    assert!(accepted.starts_with("<134>1 "));
    assert!(accepted.ends_with("\"result\":\"accepted\",\"secret\":\"prod\"}"));
    let error = s.error("bind", "in \"use\"", AT).unwrap();
    assert!(error.starts_with("<131>1 "));
    assert!(error.ends_with(
        " error - {\"event\":\"error\",\"context\":\"bind\",\"message\":\"in \\\"use\\\"\"}"
    ));
}

#[test]
fn moments_out_of_range_have_no_frame() {
    assert!(sink().error("a", "b", Moment { secs: i64::MAX, nanos: 0 }).is_none());
    let epoch = sink().error("a", "b", Moment { secs: 0, nanos: 0 }).unwrap();
    assert!(epoch.starts_with("<131>1 1970-01-01T00:00:00.000Z "));
}
