//! What the steps of the server come to, one by one.

use vstd::prelude::*;
use crate::config::{key_laws, parser};
use crate::protocol::greeting::GreetingError;
use crate::server::connection::{
    self, ConnActionView, ConnEvent, ConnStage, ConnectionView, End, Failure,
};
use crate::server::worker::{self, Worker, WorkerAction, WorkerEvent};
use crate::server::{
    self, RunAction, RunEventView, RunStage, ServerView, StartActionView, StartError,
    StartEventView, StartStage, StartupView,
};
use crate::{text, text_laws};

verus! {

// ── Startup ─────────────────────────────────────────────────────────────────────
/// A startup reads the keys first, if tokens are checked; else, or then, it builds the TLS
/// configuration where its files are configured.
pub proof fn law_startup_begins(s: StartupView)
    requires
        s.stage == StartStage::New,
    ensures
        s.check_token ==> server::start_step(s, StartEventView::Begin) == (
            StartupView { stage: StartStage::AwaitKeys, ..s },
            StartActionView::ReadKeys,
        ),
        !s.check_token && s.tls_paths ==> server::start_step(s, StartEventView::Begin) == (
            StartupView { stage: StartStage::AwaitTls, ..s },
            StartActionView::BuildTls,
        ),
{
}

/// The keys of a startup are those of the key file, in order. Without a file, or without a key
/// in it, the startup fails.
pub proof fn law_keys_are_those_of_the_file(
    s: StartupView,
    key: Seq<char>,
    label: Seq<char>,
    rest: Seq<char>,
    content: Seq<char>,
)
    requires
        s.stage == StartStage::AwaitKeys,
        text_laws::is_word(key),
        key.len() >= 5,
        key[0] != '#',
        text_laws::is_trimmed(label),
        label.len() > 0,
        !label.contains('\n'),
        parser::lines_keys(text::lines(content)).len() == 0,
    ensures
        ({
            let file = key + " "@ + label + seq!['\n'] + rest;
            let (t, action) = server::start_step(s, StartEventView::KeyFile(Some(file)));
            &&& t.keys == seq![(key, label)] + parser::lines_keys(text::lines(rest))
            &&& !(action is Fail)
            &&& s.tls_paths ==> action == StartActionView::BuildTls
        }),
        server::start_step(s, StartEventView::KeyFile(Some(content))).1 == StartActionView::Fail(
            StartError::NoValidKeys,
        ),
        server::start_step(s, StartEventView::KeyFile(None)).1 == StartActionView::Fail(
            StartError::KeyFile,
        ),
{
    key_laws::law_key_file(key, label, rest);
}

/// After the TLS configuration the listeners are bound: first those of plain TCP, then, where
/// the configuration could be built, those of TLS. Without any the server runs at once.
pub proof fn law_binding_begins(s: StartupView, ok: bool)
    requires
        s.stage == StartStage::AwaitTls,
    ensures
        ({
            let (t, action) = server::start_step(s, StartEventView::TlsBuilt(ok));
            &&& t.tls_ready == ok
            &&& t.keys == s.keys
            &&& if s.tcp_addrs > 0 {
                action == (StartActionView::BindTcp { index: 0 })
            } else if ok && s.tls_addrs > 0 {
                action == (StartActionView::BindTls { index: 0 })
            } else {
                action is Run
            }
        }),
{
}

/// A startup changes its keys, its TLS state and its stage, and nothing else; and the server
/// that runs has its numbers of listeners and workers.
pub proof fn law_startup_settings_stay(s: StartupView, event: StartEventView)
    ensures
        ({
            let (t, action) = server::start_step(s, event);
            &&& t.check_token == s.check_token
            &&& t.tls_paths == s.tls_paths
            &&& t.tcp_addrs == s.tcp_addrs
            &&& t.tls_addrs == s.tls_addrs
            &&& t.num_workers == s.num_workers
            &&& !(event is KeyFile) ==> t.keys == s.keys
            &&& !(event is TlsBuilt) ==> t.tls_ready == s.tls_ready
            &&& action matches StartActionView::Run(r) ==> {
                &&& r.tcp_listeners == s.tcp_addrs
                &&& r.tls_listeners == if t.tls_ready {
                    s.tls_addrs
                } else {
                    0
                }
                &&& r.num_workers == s.num_workers
                &&& r.next_worker == 0
                &&& r.stage == RunStage::Idle
            }
        }),
{
}

/// A listener that cannot be bound is named by its index.
pub proof fn law_failed_listener_is_named(s: StartupView, index: usize)
    ensures
        s.stage == (StartStage::BindTcp { index }) ==> server::start_step(
            s,
            StartEventView::Bound(false),
        ).1 == StartActionView::Fail(StartError::TcpBind { index }),
        s.stage == (StartStage::BindTls { index }) ==> server::start_step(
            s,
            StartEventView::Bound(false),
        ).1 == StartActionView::Fail(StartError::TlsBind { index }),
{
}

// ── The accept loop ─────────────────────────────────────────────────────────────
/// The loop waits for connections if there is a listener at all, and then accepts on the first
/// listener that has some.
pub proof fn law_accept_loop_begins(s: ServerView, ready: Seq<usize>)
    ensures
        s.stage == RunStage::Idle && s.tcp_listeners + s.tls_listeners > 0 ==> server::run_step(
            s,
            RunEventView::Begin,
        ) == (ServerView { stage: RunStage::Polling, ..s }, RunAction::Poll),
        s.stage == RunStage::Idle && s.tcp_listeners + s.tls_listeners == 0 ==> server::run_step(
            s,
            RunEventView::Begin,
        ).1 == RunAction::NoListeners,
        s.stage == RunStage::Polling && ready.len() > 0 ==> server::run_step(
            s,
            RunEventView::Polled { shutdown: false, ready },
        ) == (
            ServerView { stage: RunStage::Accepting, ready, drained: 0, ..s },
            RunAction::Accept { listener: ready[0] },
        ),
        s.stage == RunStage::Polling && ready.len() == 0 ==> server::run_step(
            s,
            RunEventView::Polled { shutdown: false, ready },
        ).1 == RunAction::Poll,
{
}

/// A usable connection goes to the worker whose turn it is, with the listener's kind, and the
/// turn passes to the next worker. No step changes the numbers of listeners and workers.
pub proof fn law_dispatch(s: ServerView, event: RunEventView)
    requires
        server::run_wf(s),
        s.num_workers > 0,
    ensures
        s.stage == RunStage::Accepting ==> server::run_step(
            s,
            RunEventView::Accepted { usable: true },
        ) == (
            ServerView {
                stage: RunStage::Dispatching,
                next_worker: if s.next_worker + 1 == s.num_workers {
                    0
                } else {
                    (s.next_worker + 1) as usize
                },
                ..s
            },
            RunAction::Dispatch {
                worker: s.next_worker,
                is_tls: s.ready[s.drained as int] >= s.tcp_listeners,
            },
        ),
        ({
            let t = server::run_step(s, event).0;
            &&& t.tcp_listeners == s.tcp_listeners
            &&& t.tls_listeners == s.tls_listeners
            &&& t.num_workers == s.num_workers
            &&& t.stage == RunStage::Accepting && s.stage != RunStage::Polling ==> t.ready
                == s.ready
        }),
{
}

// ── Workers ─────────────────────────────────────────────────────────────────────
/// The connections of worker `id` are numbered from `id * 100000 + 1` on, one by one. A worker
/// stops when it is told to, when no job will come, or when it is idle during a shutdown.
pub proof fn law_worker_steps(w: Worker)
    requires
        w.id * 100_000 + w.conn_seq + 1 <= usize::MAX,
        w.conn_seq < usize::MAX,
    ensures
        worker::worker_step(w, WorkerEvent::Connection) == (
            Worker { id: w.id, conn_seq: (w.conn_seq + 1) as usize },
            WorkerAction::Handle { conn_id: (w.id * 100_000 + w.conn_seq + 1) as usize },
        ),
        worker::worker_step(w, WorkerEvent::Idle { shutdown: false }) == (w, WorkerAction::Receive),
        worker::worker_step(w, WorkerEvent::Idle { shutdown: true }) == (w, WorkerAction::Stop),
        worker::worker_step(w, WorkerEvent::Disconnected) == (w, WorkerAction::Stop),
        worker::worker_step(w, WorkerEvent::Shutdown) == (w, WorkerAction::Stop),
{
}

// ── Connections ─────────────────────────────────────────────────────────────────
/// A connection on which nothing fails is announced, gets its timeouts and its transport, is
/// upgraded and greeted, and runs its commands; then the client has quit.
pub proof fn law_life_of_a_connection(c: ConnectionView)
    requires
        c.stage == ConnStage::Accepted,
        c.is_tls ==> c.tls_ready,
    ensures
        ({
            let done = ConnEvent::Done;
            let (c1, a1) = connection::conn_step(c, done);
            let (c2, a2) = connection::conn_step(c1, done);
            let (c3, a3) = connection::conn_step(c2, done);
            let (c4, a4) = connection::conn_step(c3, done);
            let (c5, a5) = connection::conn_step(c4, done);
            let (c6, a6) = connection::conn_step(c5, done);
            let (c7, a7) = connection::conn_step(c6, done);
            &&& a1 == (ConnActionView::Announce { client: c.client, is_tls: c.is_tls })
            &&& a2 == ConnActionView::SetTimeouts
            &&& a3 == if c.is_tls {
                ConnActionView::WrapTls
            } else {
                ConnActionView::WrapPlain
            }
            &&& a4 == ConnActionView::Upgrade
            &&& a5 == (ConnActionView::Greet { client: c.client })
            &&& a6 == ConnActionView::RunCommands
            &&& a7 == ConnActionView::Close(End::Quit)
            &&& c7.stage == ConnStage::Over
        }),
{
}

/// How a connection ends tells where it failed: in its transport, in its upgrade, in its
/// greeting or in its commands, and whether the connection was lost.
pub proof fn law_ends_of_a_connection(c: ConnectionView, f: Failure)
    ensures
        c.stage == ConnStage::Transport ==> connection::conn_step(c, ConnEvent::Failed(f)).1
            == ConnActionView::Close(End::TlsFailed),
        c.stage == ConnStage::Upgrade ==> connection::conn_step(c, ConnEvent::Failed(f)).1
            == ConnActionView::Close(End::UpgradeFailed),
        c.stage == ConnStage::Greeting ==> connection::conn_step(c, ConnEvent::Failed(f)).1
            == ConnActionView::Close(
            match f {
                Failure::Lost => End::Disconnect,
                Failure::Greeting(GreetingError::QuitBeforeToken) => End::Quit,
                Failure::Greeting(GreetingError::ExpectedToken) => End::AuthFailed,
                Failure::Greeting(GreetingError::TokenRejected) => End::AuthFailed,
                Failure::Greeting(GreetingError::OutOfTurn) => End::Error,
                Failure::Other => End::Error,
            },
        ),
        c.stage == ConnStage::Commands ==> connection::conn_step(c, ConnEvent::Failed(f)).1
            == ConnActionView::Close(
            if f is Lost {
                End::Disconnect
            } else {
                End::Error
            },
        ),
        c.stage == ConnStage::Timeouts && c.is_tls && !c.tls_ready ==> connection::conn_step(
            c,
            ConnEvent::Done,
        ).1 == ConnActionView::Close(End::TlsFailed),
{
}

// ── Events out of turn ──────────────────────────────────────────────────────────
/// An event that does not answer the last action ends a startup.
pub proof fn law_start_events_come_in_turn(s: StartupView, event: StartEventView)
    ensures
        ({
            let fitting = match s.stage {
                StartStage::New => event is Begin,
                StartStage::AwaitKeys => event is KeyFile,
                StartStage::AwaitTls => event is TlsBuilt,
                StartStage::BindTcp { .. } | StartStage::BindTls { .. } => event is Bound,
                StartStage::Over => false,
            };
            !fitting ==> server::start_step(s, event) == (
                StartupView { stage: StartStage::Over, ..s },
                StartActionView::Fail(StartError::OutOfTurn),
            )
        }),
{
}

/// An event that does not answer the last action ends the accept loop.
pub proof fn law_run_events_come_in_turn(s: ServerView, event: RunEventView)
    ensures
        ({
            let fitting = match s.stage {
                RunStage::Idle => event is Begin,
                RunStage::Polling => event is Polled,
                RunStage::Accepting => event is Accepted || event is NotAccepted,
                RunStage::Dispatching => event is Dispatched,
                RunStage::Over => false,
            };
            !fitting <==> server::run_step(s, event) == (
                ServerView { stage: RunStage::Over, ..s },
                RunAction::OutOfTurn,
            )
        }),
{
}

/// A failure before the transport is set up, and anything after the end, closes a connection
/// with an error.
pub proof fn law_early_failures_are_errors(c: ConnectionView, event: ConnEvent)
    ensures
        (c.stage == ConnStage::Accepted || c.stage == ConnStage::Announced || c.stage
            == ConnStage::Timeouts) && event is Failed || c.stage == ConnStage::Over
            ==> connection::conn_step(c, event) == (
            ConnectionView { stage: ConnStage::Over, ..c },
            ConnActionView::Close(End::Error),
        ),
{
}

} // verus!
