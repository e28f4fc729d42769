use rmbtd::config::Config;
use rmbtd::protocol::greeting::GreetingError;
use rmbtd::server::client::{anonymise_addr, client_name};
use rmbtd::server::connection::{
    announcement, handle_connection, ConnAction, ConnEvent, Connection, End, Failure,
};
use rmbtd::server::worker::{worker_loop, Worker, WorkerAction, WorkerEvent};
use rmbtd::server::{RunAction, RunEvent, Server, StartAction, StartError, StartEvent, Startup};

// ── Startup ─────────────────────────────────────────────────────────────────────
fn config(check_token: bool, tls: bool) -> Config {
    let mut c = Config::default();
    c.check_token = check_token;
    c.num_workers = 3;
    if tls {
        c.cert_path = Some("cert.pem".to_string());
        c.key_path = Some("key.pem".to_string());
    }
    c
}

fn show(a: &StartAction) -> String {
    match a {
        StartAction::ReadKeys => "keys".to_string(),
        StartAction::BuildTls => "tls".to_string(),
        StartAction::BindTcp { index } => format!("tcp {index}"),
        StartAction::BindTls { index } => format!("tls {index}"),
        StartAction::Run(s) => {
            format!("run {} {} {}", s.tcp_listeners, s.tls_listeners, s.num_workers)
        }
        StartAction::Fail(e) => format!("fail {e:?}"),
    }
}

fn start(s: &mut Startup, events: Vec<StartEvent>) -> Vec<String> {
    events.into_iter().map(|e| show(&Server::new(s, e))).collect()
}

fn key_file(s: &str) -> StartEvent {
    StartEvent::KeyFile(Some(s.to_string()))
}

#[test]
fn server_starts_with_keys_and_tls() {
    let mut s = Startup::new(&config(true, true), 2, 1);
    let seen = start(
        &mut s,
        vec![
            StartEvent::Begin,
            key_file("secret1 label\nsecret2\n"),
            StartEvent::TlsBuilt(true),
            StartEvent::Bound(true),
            StartEvent::Bound(true),
            StartEvent::Bound(true),
        ],
    );
    assert_eq!(seen, ["keys", "tls", "tcp 0", "tcp 1", "tls 0", "run 2 1 3"]);
    assert_eq!(s.keys.len(), 2);
    assert_eq!(s.keys[0].label, "label");
    assert!(s.tls_ready);
}

#[test]
fn server_starts_without_token_check_and_tls() {
    let mut s = Startup::new(&config(false, false), 1, 2);
    let seen = start(&mut s, vec![StartEvent::Begin, StartEvent::Bound(true)]);
    assert_eq!(seen, ["tcp 0", "run 1 0 3"]);
    assert!(s.keys.is_empty());
}

#[test]
fn one_tls_path_is_not_enough() {
    let mut c = config(false, false);
    c.cert_path = Some("cert.pem".to_string());
    let mut s = Startup::new(&c, 0, 1);
    assert_eq!(start(&mut s, vec![StartEvent::Begin]), ["run 0 0 3"]);
}

#[test]
fn broken_tls_is_switched_off() {
    let mut s = Startup::new(&config(false, true), 1, 1);
    let seen = start(
        &mut s,
        vec![StartEvent::Begin, StartEvent::TlsBuilt(false), StartEvent::Bound(true)],
    );
    assert_eq!(seen, ["tls", "tcp 0", "run 1 0 3"]);
    assert!(!s.tls_ready);
}

#[test]
fn startup_fails_on_keys_and_listeners() {
    let fail = |c: Config, events: Vec<StartEvent>, error: StartError| {
        let mut s = Startup::new(&c, 2, 2);
        let seen = start(&mut s, events);
        assert_eq!(seen.last().unwrap(), &format!("fail {error:?}"));
    };
    fail(
        config(true, false),
        vec![StartEvent::Begin, StartEvent::KeyFile(None)],
        StartError::KeyFile,
    );
    fail(
        config(true, false),
        vec![StartEvent::Begin, key_file("# none\n")],
        StartError::NoValidKeys,
    );
    fail(
        config(false, false),
        vec![StartEvent::Begin, StartEvent::Bound(true), StartEvent::Bound(false)],
        StartError::TcpBind { index: 1 },
    );
    fail(
        config(false, true),
        vec![
            StartEvent::Begin,
            StartEvent::TlsBuilt(true),
            StartEvent::Bound(true),
            StartEvent::Bound(true),
            StartEvent::Bound(false),
        ],
        StartError::TlsBind { index: 0 },
    );
    fail(config(false, false), vec![StartEvent::Bound(true)], StartError::OutOfTurn);
}

// ── The accept loop ─────────────────────────────────────────────────────────────
fn server(tcp: usize, tls: usize) -> Server {
    let mut s = Startup::new(&config(false, tls > 0), tcp, tls);
    let mut action = Server::new(&mut s, StartEvent::Begin);
    loop {
        action = match action {
            StartAction::BuildTls => Server::new(&mut s, StartEvent::TlsBuilt(true)),
            StartAction::Run(server) => return server,
            StartAction::Fail(e) => panic!("{e:?}"),
            _ => Server::new(&mut s, StartEvent::Bound(true)),
        };
    }
}

fn polled(ready: &[usize]) -> RunEvent {
    RunEvent::Polled { shutdown: false, ready: ready.to_vec() }
}

#[test]
fn server_without_listeners_does_not_run() {
    assert_eq!(server(0, 0).run(RunEvent::Begin), RunAction::NoListeners);
}

#[test]
fn connections_are_dispatched_in_turn() {
    let mut s = server(1, 1);
    assert_eq!(s.run(RunEvent::Begin), RunAction::Poll);
    assert_eq!(s.run(polled(&[])), RunAction::Poll);
    assert_eq!(s.run(polled(&[0, 1])), RunAction::Accept { listener: 0 });
    for worker in [0, 1] {
        assert_eq!(
            s.run(RunEvent::Accepted { usable: true }),
            RunAction::Dispatch { worker, is_tls: false }
        );
        assert_eq!(s.run(RunEvent::Dispatched), RunAction::Accept { listener: 0 });
    }
    // a connection that cannot be used takes no worker
    assert_eq!(
        s.run(RunEvent::Accepted { usable: false }),
        RunAction::Accept { listener: 0 }
    );
    assert_eq!(s.run(RunEvent::NotAccepted), RunAction::Accept { listener: 1 });
    for worker in [2, 0] {
        assert_eq!(
            s.run(RunEvent::Accepted { usable: true }),
            RunAction::Dispatch { worker, is_tls: true }
        );
        assert_eq!(s.run(RunEvent::Dispatched), RunAction::Accept { listener: 1 });
    }
    assert_eq!(s.run(RunEvent::NotAccepted), RunAction::Poll);
    let last = RunEvent::Polled { shutdown: true, ready: vec![0] };
    assert_eq!(s.run(last), RunAction::Stop);
    assert_eq!(s.run(RunEvent::Begin), RunAction::OutOfTurn);
}

// ── Workers ─────────────────────────────────────────────────────────────────────
#[test]
fn workers_number_their_connections() {
    let mut w = Worker::new(7);
    assert_eq!(worker_loop(&mut w, WorkerEvent::Idle { shutdown: false }), WorkerAction::Receive);
    assert_eq!(
        worker_loop(&mut w, WorkerEvent::Connection),
        WorkerAction::Handle { conn_id: 700_001 }
    );
    assert_eq!(
        worker_loop(&mut w, WorkerEvent::Connection),
        WorkerAction::Handle { conn_id: 700_002 }
    );
    for event in
        [WorkerEvent::Idle { shutdown: true }, WorkerEvent::Disconnected, WorkerEvent::Shutdown]
    {
        assert_eq!(worker_loop(&mut w, event), WorkerAction::Stop);
    }
}

// ── Connections ─────────────────────────────────────────────────────────────────
fn show_conn(a: &ConnAction) -> String {
    match a {
        ConnAction::Announce { client, is_tls } => format!("announce {client} {is_tls}"),
        ConnAction::SetTimeouts => "timeouts".to_string(),
        ConnAction::WrapPlain => "plain".to_string(),
        ConnAction::WrapTls => "tls".to_string(),
        ConnAction::Upgrade => "upgrade".to_string(),
        ConnAction::Greet { client } => format!("greet {client}"),
        ConnAction::RunCommands => "commands".to_string(),
        ConnAction::Close(end) => format!("close {}", end.name()),
    }
}

fn play(full_ip: bool, is_tls: bool, tls_ready: bool, events: &[ConnEvent]) -> Vec<String> {
    let mut config = Config::default();
    config.log_full_ip = full_ip;
    let mut c = Connection::new(&config, "62.1.2.3", is_tls, tls_ready);
    events.iter().map(|e| show_conn(&handle_connection(&mut c, *e))).collect()
}

const DONE: ConnEvent = ConnEvent::Done;

#[test]
fn connection_goes_through_its_parts() {
    assert_eq!(
        play(false, false, true, &[DONE; 7]),
        [
            "announce 62.1.2.* false", "timeouts", "plain", "upgrade", "greet 62.1.2.*",
            "commands", "close quit",
        ]
    );
    assert_eq!(play(false, true, true, &[DONE; 3])[2], "tls");
    assert_eq!(play(false, true, false, &[DONE; 3])[2], "close tls_failed");
}

#[test]
fn client_is_named_in_full_only_when_asked_for() {
    let seen = play(true, true, true, &[DONE; 5]);
    assert_eq!(seen[0], "announce 62.1.2.3 true");
    assert_eq!(seen[4], "greet 62.1.2.3");
    let seen = play(false, true, true, &[DONE; 5]);
    assert_eq!(seen[0], "announce 62.1.2.* true");
    assert_eq!(seen[4], "greet 62.1.2.*");
    assert_eq!(announcement(7, "62.1.2.*"), "[conn 7] connection from 62.1.2.*");
}

#[test]
fn connection_ends_where_it_fails() {
    let other = ConnEvent::Failed(Failure::Other);
    let lost = ConnEvent::Failed(Failure::Lost);
    let greeting = |e| ConnEvent::Failed(Failure::Greeting(e));
    for (before, event, end) in [
        (0, other, End::Error),
        (1, other, End::Error),
        (2, other, End::Error),
        (3, other, End::TlsFailed),
        (4, other, End::UpgradeFailed),
        (5, lost, End::Disconnect),
        (5, other, End::Error),
        (5, greeting(GreetingError::QuitBeforeToken), End::Quit),
        (5, greeting(GreetingError::ExpectedToken), End::AuthFailed),
        (5, greeting(GreetingError::TokenRejected), End::AuthFailed),
        (5, greeting(GreetingError::OutOfTurn), End::Error),
        (6, lost, End::Disconnect),
        (6, other, End::Error),
    ] {
        let mut events = vec![DONE; before];
        events.push(event);
        let seen = play(false, true, true, &events);
        assert_eq!(seen[before], format!("close {}", end.name()), "{before} {event:?}");
    }
}

#[test]
fn ends_have_names() {
    for (end, name) in [
        (End::Quit, "quit"),
        (End::Disconnect, "disconnect"),
        (End::Error, "error"),
        (End::AuthFailed, "auth_failed"),
        (End::TlsFailed, "tls_failed"),
        (End::UpgradeFailed, "upgrade_failed"),
    ] {
        assert_eq!(end.name(), name);
    }
}

// ── Clients ─────────────────────────────────────────────────────────────────────
#[test]
fn addresses_are_anonymised() {
    assert_eq!(anonymise_addr("62.1.2.3"), "62.1.2.*");
    assert_eq!(anonymise_addr("2001:db8::1"), "2001:db8::*");
    assert_eq!(anonymise_addr("::ffff:62.1.2.3"), "::ffff:62.1.2.*");
    assert_eq!(anonymise_addr("localhost"), "localhost");
    assert_eq!(client_name("62.1.2.3", false), "62.1.2.*");
    assert_eq!(client_name("62.1.2.3", true), "62.1.2.3");
}
