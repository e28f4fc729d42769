use rmbtd::clock::now_secs;
use rmbtd::config::{Config, SecretKey};
use rmbtd::crypto::hmac_sha1_b64;
use rmbtd::net::IpAddr;
use rmbtd::protocol::greeting::{
    auth_line, auth_report, close_report, run_greeting, token_type, token_uuid, Action, Auth, Event, Greeting, GreetingError, Stage,
};
use rmbtd::protocol::token::TokenResult;

fn keys() -> Vec<SecretKey> {
    vec![SecretKey { key: "topsecret".to_string(), label: "test".to_string() }]
}

fn show(a: Action) -> String {
    match a {
        Action::Send(s) => format!("send {}", s.trim_end()),
        Action::ReadLine => "line".to_string(),
        Action::AskPeer => "peer".to_string(),
        Action::Sleep { secs } => format!("sleep {secs}"),
        Action::Finish { uuid } => format!("finish {uuid}"),
        Action::Fail(e) => format!("fail {e:?}"),
    }
}

fn steps(g: &mut Greeting, events: Vec<Event>) -> Vec<String> {
    events.into_iter().map(|e| show(run_greeting(g, e, 0, &keys()))).collect()
}

fn line(s: &str) -> Event {
    Event::Line(s.to_string())
}

/// A greeting that waits for the token line.
fn prompted(config: &Config) -> Greeting {
    let mut g = Greeting::new(config);
    let seen = steps(&mut g, vec![Event::Done, Event::Done, Event::Done]);
    assert_eq!(seen, ["send RMBTv1.3.5", "send ACCEPT TOKEN QUIT", "line"]);
    g
}

/// A greeting that waits for the result on its token.
fn judged() -> Greeting {
    let mut g = prompted(&Config::default());
    assert_eq!(steps(&mut g, vec![line("TOKEN u_1_x")]), ["peer"]);
    g
}

fn v1_token(ts: i64) -> String {
    let hmac = hmac_sha1_b64(b"topsecret", format!("8723358c-2037-4029-a70c-91e5d9d35cf3_{ts}").as_bytes());
    format!("8723358c-2037-4029-a70c-91e5d9d35cf3_{ts}_{hmac}")
}

#[test]
fn valid_token_passes() {
    let mut g = prompted(&Config::default());
    let token = format!("TOKEN {}\n", v1_token(now_secs() - 5));
    let seen = steps(
        &mut g,
        vec![line(""), line(" \r"), line(&token), Event::Peer(None), Event::Done, Event::Done],
    );
    assert_eq!(
        seen,
        [
            "line", "line", "peer", "send OK", "send CHUNKSIZE 4096 4096 4194304",
            "finish 8723358c-2037-4029-a70c-91e5d9d35cf3",
        ]
    );
    assert!(matches!(g.auth, Auth::Accepted { label } if label == "test"));
}

#[test]
fn invalid_token_is_dropped() {
    let mut g = prompted(&Config::default());
    let seen = steps(
        &mut g,
        vec![line("TOKEN 8723358c-2037-4029-a70c-91e5d9d35cf3_1_b"), Event::Peer(Some(IpAddr::V4([1, 2, 3, 4]))), Event::Done],
    );
    assert_eq!(seen, ["peer", "send ERR", "fail TokenRejected"]);
    assert!(matches!(g.auth, Auth::Rejected { reason: "invalid_hmac", .. }));
}

#[test]
fn v1_token_is_dropped_in_v2_only_mode() {
    let mut config = Config::default();
    config.v2_only = true;
    let mut g = prompted(&config);
    let token = format!("TOKEN {}", v1_token(now_secs()));
    let seen = steps(&mut g, vec![line(&token), Event::Peer(None), Event::Done]);
    assert_eq!(seen, ["peer", "send ERR", "fail TokenRejected"]);
    assert!(matches!(g.auth, Auth::Rejected { reason: "v2_required", .. }));
}

#[test]
fn unchecked_token_passes() {
    let mut config = Config::default();
    config.check_token = false;
    config.max_chunk_size = Some(8192);
    let mut g = prompted(&config);
    let seen = steps(&mut g, vec![line("TOKEN whatever"), Event::Done, Event::Done]);
    assert_eq!(seen, ["send OK", "send CHUNKSIZE 4096 4096 8192", "finish whatever"]);
    assert!(matches!(g.auth, Auth::NotChecked));
}

#[test]
fn every_rejection_is_answered_alike() {
    let r = |s: &str| s.to_string();
    for (result, code) in [
        (TokenResult::InvalidHmac, "invalid_hmac"),
        (TokenResult::InvalidIp, "invalid_ip"),
        (TokenResult::TooEarly { reason: r("x") }, "too_early"),
        (TokenResult::TooLate { reason: r("x") }, "too_late"),
        (TokenResult::ParseError, "parse_error"),
        (TokenResult::V2Required, "v2_required"),
    ] {
        let mut g = judged();
        assert_eq!(show(g.take_result(result)), "send ERR");
        assert!(matches!(&g.auth, Auth::Rejected { reason, .. } if *reason == code));
        assert_eq!(steps(&mut g, vec![Event::Done]), ["fail TokenRejected"]);
    }
}

#[test]
fn early_client_waits() {
    let mut g = judged();
    let result = TokenResult::Accepted { sleep_secs: 7, label: "k".to_string() };
    assert_eq!(show(g.take_result(result)), "sleep 7");
    assert_eq!(g.stage, Stage::Early);
    let seen = steps(&mut g, vec![Event::Done, Event::Done, Event::Done]);
    assert_eq!(seen, ["send OK", "send CHUNKSIZE 4096 4096 4194304", "finish u"]);
}

#[test]
fn quit_and_nonsense_end_the_greeting() {
    let mut g = prompted(&Config::default());
    assert_eq!(
        steps(&mut g, vec![line("  QUITTING"), Event::Done]),
        ["send BYE", &format!("fail {:?}", GreetingError::QuitBeforeToken)]
    );
    // the prefix counts only at the very beginning of the line
    for text in [" TOKEN a_1_b", "TOKEN", "token a", "HELLO"] {
        let mut g = prompted(&Config::default());
        assert_eq!(
            steps(&mut g, vec![line(text), Event::Done]),
            ["send ERR", "fail ExpectedToken"],
            "{text}"
        );
    }
}

#[test]
fn events_out_of_turn_end_the_greeting() {
    let mut g = Greeting::new(&Config::default());
    assert_eq!(steps(&mut g, vec![line("x")]), ["fail OutOfTurn"]);
}

#[test]
fn events_say_what_is_known_of_a_client() {
    let label = "prod".to_string();
    let rejected = |reason, detail: &str| Auth::Rejected { reason, detail: detail.to_string() };
    assert_eq!(auth_report(&Auth::Pending), None);
    assert_eq!(auth_report(&Auth::NotChecked), Some(("not_checked", None, None)));
    assert_eq!(
        auth_report(&Auth::Accepted { label: label.clone() }),
        Some(("accepted", Some("prod"), None))
    );
    assert_eq!(
        auth_report(&rejected("too_late", "token expired: x")),
        Some(("rejected", None, Some("too_late")))
    );
    let mut g = Greeting::new(&Config::default());
    assert_eq!(close_report(&g), (String::new(), "", ""));
    g.token = "u-1_5_x_#v2#y".to_string();
    g.auth = rejected("invalid_ip", "");
    assert_eq!(close_report(&g), ("u-1".to_string(), "v2", ""));
    g.auth = Auth::Accepted { label };
    g.token = "u-1_5_x".to_string();
    assert_eq!(close_report(&g), ("u-1".to_string(), "v1", "prod"));
}

#[test]
fn log_tells_the_result_on_a_token() {
    let mut g = judged();
    assert_eq!(auth_line(7, &g), None);
    let text = "token expired: client is 100s late (max 90)".to_string();
    g.take_result(TokenResult::TooLate { reason: text });
    assert_eq!(
        auth_line(7, &g).unwrap(),
        "[conn 7] token rejected: token expired: client is 100s late (max 90); uuid=u"
    );
    let mut g = judged();
    g.take_result(TokenResult::InvalidIp);
    assert_eq!(auth_line(7, &g).unwrap(), "[conn 7] token rejected: invalid_ip; uuid=u");
    let mut g = judged();
    g.take_result(TokenResult::Accepted { sleep_secs: 0, label: "prod".to_string() });
    assert_eq!(auth_line(7, &g).unwrap(), "[conn 7] valid token; uuid=u key='prod'");
    g.auth = Auth::NotChecked;
    assert_eq!(auth_line(7, &g).unwrap(), "[conn 7] token NOT CHECKED; uuid=u");
}

#[test]
fn tokens_are_named() {
    assert_eq!(token_uuid("a-b_c_d"), "a-b");
    assert_eq!(token_uuid("abc"), "abc");
    assert_eq!(token_uuid("_x"), "");
    assert_eq!(token_type("a_1_b_#v2#c"), "v2");
    assert_eq!(token_type("a_1_b"), "v1");
}
