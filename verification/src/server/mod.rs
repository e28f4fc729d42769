//! The server: its startup and its accept loop. Both are state machines; each step takes what
//! came of the last action and yields the next action to perform.

pub mod client;
pub mod connection;
pub mod laws;
pub mod worker;

use vstd::prelude::*;
use crate::config::parser::{self, read_secret_keys};
use crate::config::{Config, SecretKey};
use crate::text;

verus! {

// ── Startup ─────────────────────────────────────────────────────────────────────
/// Why the server does not start.
#[derive(Clone, Copy, Debug, PartialEq, Eq, Structural)]
pub enum StartError {
    /// The secret key file cannot be read.
    KeyFile,
    /// The secret key file holds no valid key.
    NoValidKeys,
    /// A TCP listener cannot be bound: the one with this index.
    TcpBind { index: usize },
    /// A TLS listener cannot be bound: the one with this index.
    TlsBind { index: usize },
    /// The event does not answer the last action.
    OutOfTurn,
}

/// Where a startup stands.
#[derive(Clone, Copy, Debug, PartialEq, Eq, Structural)]
pub enum StartStage {
    /// Nothing has been done yet.
    New,
    /// The secret key file is awaited.
    AwaitKeys,
    /// The TLS configuration is awaited.
    AwaitTls,
    /// The TCP listener with this index is being bound.
    BindTcp { index: usize },
    /// The TLS listener with this index is being bound.
    BindTls { index: usize },
    /// The startup has ended.
    Over,
}

/// The startup of a server.
pub struct Startup {
    pub check_token: bool,
    /// A certificate and a key file are configured.
    pub tls_paths: bool,
    /// How many TCP listeners there have to be.
    pub tcp_addrs: usize,
    /// How many TLS listeners there have to be.
    pub tls_addrs: usize,
    pub num_workers: usize,
    pub stage: StartStage,
    /// The secret keys, once they are loaded.
    pub keys: Vec<SecretKey>,
    /// There is a TLS configuration.
    pub tls_ready: bool,
}

/// What a `Startup` says.
#[verifier::ext_equal]
pub struct StartupView {
    pub check_token: bool,
    pub tls_paths: bool,
    pub tcp_addrs: usize,
    pub tls_addrs: usize,
    pub num_workers: usize,
    pub stage: StartStage,
    pub keys: Seq<(Seq<char>, Seq<char>)>,
    pub tls_ready: bool,
}

impl View for Startup {
    type V = StartupView;

    open spec fn view(&self) -> StartupView {
        StartupView {
            check_token: self.check_token,
            tls_paths: self.tls_paths,
            tcp_addrs: self.tcp_addrs,
            tls_addrs: self.tls_addrs,
            num_workers: self.num_workers,
            stage: self.stage,
            keys: parser::key_texts(self.keys@),
            tls_ready: self.tls_ready,
        }
    }
}

/// What came of the last action of a startup.
pub enum StartEvent {
    /// The startup begins.
    Begin,
    /// The content of the secret key file, if it can be read.
    KeyFile(Option<String>),
    /// Whether the TLS configuration could be built.
    TlsBuilt(bool),
    /// Whether the listener could be bound.
    Bound(bool),
}

/// What a `StartEvent` says.
pub enum StartEventView {
    Begin,
    KeyFile(Option<Seq<char>>),
    TlsBuilt(bool),
    Bound(bool),
}

impl View for StartEvent {
    type V = StartEventView;

    open spec fn view(&self) -> StartEventView {
        match self {
            StartEvent::Begin => StartEventView::Begin,
            StartEvent::KeyFile(c) => StartEventView::KeyFile(crate::config::text_option(*c)),
            StartEvent::TlsBuilt(ok) => StartEventView::TlsBuilt(*ok),
            StartEvent::Bound(ok) => StartEventView::Bound(*ok),
        }
    }
}

/// What a startup does next.
pub enum StartAction {
    /// Read the secret key file.
    ReadKeys,
    /// Build the TLS configuration.
    BuildTls,
    /// Bind the TCP listener with this index.
    BindTcp { index: usize },
    /// Bind the TLS listener with this index.
    BindTls { index: usize },
    /// Spawn the workers and run the server.
    Run(Server),
    /// Give up.
    Fail(StartError),
}

/// What a `StartAction` says.
pub enum StartActionView {
    ReadKeys,
    BuildTls,
    BindTcp { index: usize },
    BindTls { index: usize },
    Run(ServerView),
    Fail(StartError),
}

impl View for StartAction {
    type V = StartActionView;

    open spec fn view(&self) -> StartActionView {
        match self {
            StartAction::ReadKeys => StartActionView::ReadKeys,
            StartAction::BuildTls => StartActionView::BuildTls,
            StartAction::BindTcp { index } => StartActionView::BindTcp { index: *index },
            StartAction::BindTls { index } => StartActionView::BindTls { index: *index },
            StartAction::Run(s) => StartActionView::Run(s@),
            StartAction::Fail(e) => StartActionView::Fail(*e),
        }
    }
}

/// The startup at another stage.
pub open spec fn at_stage(s: StartupView, stage: StartStage) -> StartupView {
    StartupView { stage, ..s }
}

/// The next listener to bind, when so many are bound already: first all TCP listeners, then
/// all TLS listeners if there is a TLS configuration. Then the server runs.
pub open spec fn bind_from(s: StartupView, tcp: int, tls: int) -> (StartupView, StartActionView) {
    if tcp < s.tcp_addrs {
        (
            at_stage(s, StartStage::BindTcp { index: tcp as usize }),
            StartActionView::BindTcp { index: tcp as usize },
        )
    } else if s.tls_ready && tls < s.tls_addrs {
        (
            at_stage(s, StartStage::BindTls { index: tls as usize }),
            StartActionView::BindTls { index: tls as usize },
        )
    } else {
        (
            at_stage(s, StartStage::Over),
            StartActionView::Run(
                idle_server(
                    s.tcp_addrs,
                    if s.tls_ready {
                        s.tls_addrs
                    } else {
                        0
                    },
                    s.num_workers,
                ),
            ),
        )
    }
}

/// What follows when the secret keys are there, or none are needed.
pub open spec fn after_keys(s: StartupView) -> (StartupView, StartActionView) {
    if s.tls_paths {
        (at_stage(s, StartStage::AwaitTls), StartActionView::BuildTls)
    } else {
        bind_from(s, 0, 0)
    }
}

/// One step of a startup.
pub open spec fn start_step(s: StartupView, event: StartEventView) -> (
    StartupView,
    StartActionView,
) {
    match (s.stage, event) {
        (StartStage::New, StartEventView::Begin) => if s.check_token {
            (at_stage(s, StartStage::AwaitKeys), StartActionView::ReadKeys)
        } else {
            after_keys(s)
        },
        (StartStage::AwaitKeys, StartEventView::KeyFile(Some(content))) => {
            let keys = parser::lines_keys(text::lines(content));
            if keys.len() == 0 {
                (
                    at_stage(s, StartStage::Over),
                    StartActionView::Fail(StartError::NoValidKeys),
                )
            } else {
                after_keys(StartupView { keys, ..s })
            }
        },
        (StartStage::AwaitKeys, StartEventView::KeyFile(None)) => (
            at_stage(s, StartStage::Over),
            StartActionView::Fail(StartError::KeyFile),
        ),
        (StartStage::AwaitTls, StartEventView::TlsBuilt(ok)) => bind_from(
            StartupView { tls_ready: ok, ..s },
            0,
            0,
        ),
        (StartStage::BindTcp { index }, StartEventView::Bound(true)) => bind_from(s, index + 1, 0),
        (StartStage::BindTcp { index }, StartEventView::Bound(false)) => (
            at_stage(s, StartStage::Over),
            StartActionView::Fail(StartError::TcpBind { index }),
        ),
        (StartStage::BindTls { index }, StartEventView::Bound(true)) => bind_from(
            s,
            s.tcp_addrs as int,
            index + 1,
        ),
        (StartStage::BindTls { index }, StartEventView::Bound(false)) => (
            at_stage(s, StartStage::Over),
            StartActionView::Fail(StartError::TlsBind { index }),
        ),
        _ => (at_stage(s, StartStage::Over), StartActionView::Fail(StartError::OutOfTurn)),
    }
}

/// The listener that is being bound is one of those that have to be, and the TLS
/// configuration has been asked for where it matters.
pub open spec fn start_wf(s: StartupView) -> bool {
    match s.stage {
        StartStage::New | StartStage::AwaitKeys | StartStage::AwaitTls => !s.tls_ready,
        StartStage::BindTcp { index } => index < s.tcp_addrs,
        StartStage::BindTls { index } => s.tls_ready && index < s.tls_addrs,
        StartStage::Over => true,
    }
}

impl Startup {
    /// The startup of a server with this configuration and so many listen addresses.
    pub fn new(config: &Config, tcp_addrs: usize, tls_addrs: usize) -> (r: Startup)
        ensures
            r@ == (StartupView {
                check_token: config.check_token,
                tls_paths: config.cert_path is Some && config.key_path is Some,
                tcp_addrs,
                tls_addrs,
                num_workers: config.num_workers,
                stage: StartStage::New,
                keys: seq![],
                tls_ready: false,
            }),
            start_wf(r@),
    {
        Startup {
            check_token: config.check_token,
            tls_paths: config.cert_path.is_some() && config.key_path.is_some(),
            tcp_addrs,
            tls_addrs,
            num_workers: config.num_workers,
            stage: StartStage::New,
            keys: Vec::new(),
            tls_ready: false,
        }
    }

    fn bind_next(&mut self, tcp: usize, tls: usize) -> (r: StartAction)
        ensures
            (final(self)@, r@) == bind_from(old(self)@, tcp as int, tls as int),
            final(self).keys == old(self).keys,
    {
        if tcp < self.tcp_addrs {
            self.stage = StartStage::BindTcp { index: tcp };
            StartAction::BindTcp { index: tcp }
        } else if self.tls_ready && tls < self.tls_addrs {
            self.stage = StartStage::BindTls { index: tls };
            StartAction::BindTls { index: tls }
        } else {
            self.stage = StartStage::Over;
            StartAction::Run(
                Server::idle(
                    self.tcp_addrs,
                    if self.tls_ready {
                        self.tls_addrs
                    } else {
                        0
                    },
                    self.num_workers,
                ),
            )
        }
    }

    fn keys_loaded(&mut self) -> (r: StartAction)
        ensures
            (final(self)@, r@) == after_keys(old(self)@),
    {
        if self.tls_paths {
            self.stage = StartStage::AwaitTls;
            StartAction::BuildTls
        } else {
            self.bind_next(0, 0)
        }
    }
}

// ── The accept loop ─────────────────────────────────────────────────────────────
/// Where the accept loop stands.
#[derive(Clone, Copy, Debug, PartialEq, Eq, Structural)]
pub enum RunStage {
    /// It has not begun.
    Idle,
    /// Connections are awaited.
    Polling,
    /// A connection is being accepted.
    Accepting,
    /// A connection is being handed to a worker.
    Dispatching,
    /// It has ended.
    Over,
}

/// The accept loop of a server. Listeners are counted from 0: first the TCP listeners, then
/// the TLS listeners.
pub struct Server {
    pub tcp_listeners: usize,
    pub tls_listeners: usize,
    pub num_workers: usize,
    /// The worker that gets the next connection.
    pub next_worker: usize,
    pub stage: RunStage,
    /// The listeners that have connections, and how many of them are drained.
    pub ready: Vec<usize>,
    pub drained: usize,
}

/// What a `Server` says.
#[verifier::ext_equal]
pub struct ServerView {
    pub tcp_listeners: usize,
    pub tls_listeners: usize,
    pub num_workers: usize,
    pub next_worker: usize,
    pub stage: RunStage,
    pub ready: Seq<usize>,
    pub drained: usize,
}

impl View for Server {
    type V = ServerView;

    open spec fn view(&self) -> ServerView {
        ServerView {
            tcp_listeners: self.tcp_listeners,
            tls_listeners: self.tls_listeners,
            num_workers: self.num_workers,
            next_worker: self.next_worker,
            stage: self.stage,
            ready: self.ready@,
            drained: self.drained,
        }
    }
}

/// A server whose accept loop has not begun.
pub open spec fn idle_server(tcp_listeners: usize, tls_listeners: usize, num_workers: usize)
    -> ServerView {
    ServerView {
        tcp_listeners,
        tls_listeners,
        num_workers,
        next_worker: 0,
        stage: RunStage::Idle,
        ready: seq![],
        drained: 0,
    }
}

/// What came of the last action of the accept loop.
pub enum RunEvent {
    /// The loop begins.
    Begin,
    /// The wait for connections is over; `ready` are the listeners that have some.
    Polled { shutdown: bool, ready: Vec<usize> },
    /// A connection was accepted; `usable` when it could be made ready for a worker.
    Accepted { usable: bool },
    /// No connection was accepted: there is none left, or accepting failed.
    NotAccepted,
    /// The connection was handed to the worker, or dropped because the worker is busy.
    Dispatched,
}

/// What a `RunEvent` says.
pub enum RunEventView {
    Begin,
    Polled { shutdown: bool, ready: Seq<usize> },
    Accepted { usable: bool },
    NotAccepted,
    Dispatched,
}

impl View for RunEvent {
    type V = RunEventView;

    open spec fn view(&self) -> RunEventView {
        match self {
            RunEvent::Begin => RunEventView::Begin,
            RunEvent::Polled { shutdown, ready } => RunEventView::Polled {
                shutdown: *shutdown,
                ready: ready@,
            },
            RunEvent::Accepted { usable } => RunEventView::Accepted { usable: *usable },
            RunEvent::NotAccepted => RunEventView::NotAccepted,
            RunEvent::Dispatched => RunEventView::Dispatched,
        }
    }
}

/// What the accept loop does next.
#[derive(Clone, Copy, Debug, PartialEq, Eq, Structural)]
pub enum RunAction {
    /// Wait for connections.
    Poll,
    /// Accept a connection on this listener.
    Accept { listener: usize },
    /// Hand the connection to this worker.
    Dispatch { worker: usize, is_tls: bool },
    /// Tell all workers to stop, and end.
    Stop,
    /// Give up: there are no listeners.
    NoListeners,
    /// Give up: the event does not answer the last action.
    OutOfTurn,
}

/// The accept loop at another stage.
pub open spec fn run_stage(s: ServerView, stage: RunStage) -> ServerView {
    ServerView { stage, ..s }
}

/// Goes on with the next listener that has connections, when so many are drained. When all
/// are, connections are awaited again.
pub open spec fn drain(s: ServerView, ready: Seq<usize>, drained: int) -> (
    ServerView,
    RunAction,
) {
    if drained < ready.len() {
        (
            ServerView {
                stage: RunStage::Accepting,
                ready,
                drained: drained as usize,
                ..s
            },
            RunAction::Accept { listener: ready[drained] },
        )
    } else {
        (
            ServerView { stage: RunStage::Polling, ready: seq![], drained: 0, ..s },
            RunAction::Poll,
        )
    }
}

/// The worker after `worker`, in turn.
pub open spec fn worker_after(worker: usize, num_workers: usize) -> usize {
    if worker + 1 < num_workers {
        (worker + 1) as usize
    } else {
        0
    }
}

/// One step of the accept loop.
pub open spec fn run_step(s: ServerView, event: RunEventView) -> (ServerView, RunAction) {
    match (s.stage, event) {
        (RunStage::Idle, RunEventView::Begin) => if s.tcp_listeners == 0 && s.tls_listeners
            == 0 {
            (run_stage(s, RunStage::Over), RunAction::NoListeners)
        } else {
            (run_stage(s, RunStage::Polling), RunAction::Poll)
        },
        (RunStage::Polling, RunEventView::Polled { shutdown, ready }) => if shutdown {
            (run_stage(s, RunStage::Over), RunAction::Stop)
        } else {
            drain(s, ready, 0)
        },
        (RunStage::Accepting, RunEventView::Accepted { usable: false }) => drain(
            s,
            s.ready,
            s.drained as int,
        ),
        (RunStage::Accepting, RunEventView::Accepted { usable: true }) => (
            ServerView {
                stage: RunStage::Dispatching,
                next_worker: worker_after(s.next_worker, s.num_workers),
                ..s
            },
            RunAction::Dispatch {
                worker: s.next_worker,
                is_tls: s.ready[s.drained as int] >= s.tcp_listeners,
            },
        ),
        (RunStage::Accepting, RunEventView::NotAccepted) => drain(s, s.ready, s.drained + 1),
        (RunStage::Dispatching, RunEventView::Dispatched) => drain(
            s,
            s.ready,
            s.drained as int,
        ),
        _ => (run_stage(s, RunStage::Over), RunAction::OutOfTurn),
    }
}

/// The next worker is one of the workers, and a listener is being drained where one has to
/// be.
pub open spec fn run_wf(s: ServerView) -> bool {
    &&& s.num_workers > 0 ==> s.next_worker < s.num_workers
    &&& s.stage == RunStage::Accepting || s.stage == RunStage::Dispatching ==> s.drained
        < s.ready.len()
}

impl Server {
    /// A server whose accept loop has not begun.
    fn idle(tcp_listeners: usize, tls_listeners: usize, num_workers: usize) -> (r: Server)
        ensures
            r@ == idle_server(tcp_listeners, tls_listeners, num_workers),
    {
        Server {
            tcp_listeners,
            tls_listeners,
            num_workers,
            next_worker: 0,
            stage: RunStage::Idle,
            ready: Vec::new(),
            drained: 0,
        }
    }

    /// One step of the startup: load secret keys, build the TLS configuration, bind listeners;
    /// then the server can run. A startup begins with `StartEvent::Begin`.
    pub fn new(startup: &mut Startup, event: StartEvent) -> (r: StartAction)
        requires
            start_wf(old(startup)@),
        ensures
            (final(startup)@, r@) == start_step(old(startup)@, event@),
            start_wf(final(startup)@),
            r matches StartAction::Run(s) ==> run_wf(s@),
    {
        match (startup.stage, event) {
            (StartStage::New, StartEvent::Begin) => if startup.check_token {
                startup.stage = StartStage::AwaitKeys;
                StartAction::ReadKeys
            } else {
                startup.keys_loaded()
            },
            (StartStage::AwaitKeys, StartEvent::KeyFile(Some(content))) => {
                match read_secret_keys(content.as_str()) {
                    Ok(keys) => {
                        startup.keys = keys;
                        startup.keys_loaded()
                    },
                    Err(_) => {
                        startup.stage = StartStage::Over;
                        StartAction::Fail(StartError::NoValidKeys)
                    },
                }
            },
            (StartStage::AwaitKeys, StartEvent::KeyFile(None)) => {
                startup.stage = StartStage::Over;
                StartAction::Fail(StartError::KeyFile)
            },
            (StartStage::AwaitTls, StartEvent::TlsBuilt(ok)) => {
                startup.tls_ready = ok;
                startup.bind_next(0, 0)
            },
            (StartStage::BindTcp { index }, StartEvent::Bound(ok)) => if ok {
                startup.bind_next(index + 1, 0)
            } else {
                startup.stage = StartStage::Over;
                StartAction::Fail(StartError::TcpBind { index })
            },
            (StartStage::BindTls { index }, StartEvent::Bound(ok)) => if ok {
                let tcp: usize = startup.tcp_addrs;
                startup.bind_next(tcp, index + 1)
            } else {
                startup.stage = StartStage::Over;
                StartAction::Fail(StartError::TlsBind { index })
            },
            _ => {
                startup.stage = StartStage::Over;
                StartAction::Fail(StartError::OutOfTurn)
            },
        }
    }

    fn drain_from(&mut self, drained: usize) -> (r: RunAction)
        ensures
            (final(self)@, r) == drain(old(self)@, old(self).ready@, drained as int),
    {
        if drained < self.ready.len() {
            self.stage = RunStage::Accepting;
            self.drained = drained;
            RunAction::Accept { listener: self.ready[drained] }
        } else {
            self.stage = RunStage::Polling;
            self.ready = Vec::new();
            self.drained = 0;
            RunAction::Poll
        }
    }

    /// One step of the accept loop, which dispatches connections round-robin to the workers.
    /// The loop begins with `RunEvent::Begin` and ends when the server is to shut down.
    pub fn run(&mut self, event: RunEvent) -> (r: RunAction)
        requires
            run_wf(old(self)@),
            event@ == (RunEventView::Accepted { usable: true }) ==> old(self).num_workers > 0,
        ensures
            (final(self)@, r) == run_step(old(self)@, event@),
            run_wf(final(self)@),
            r matches RunAction::Dispatch { worker, .. } ==> worker < final(self).num_workers,
    {
        match (self.stage, event) {
            (RunStage::Idle, RunEvent::Begin) => if self.tcp_listeners == 0 && self.tls_listeners
                == 0 {
                self.stage = RunStage::Over;
                RunAction::NoListeners
            } else {
                self.stage = RunStage::Polling;
                RunAction::Poll
            },
            (RunStage::Polling, RunEvent::Polled { shutdown, ready }) => if shutdown {
                self.stage = RunStage::Over;
                RunAction::Stop
            } else {
                self.ready = ready;
                self.drain_from(0)
            },
            (RunStage::Accepting, RunEvent::Accepted { usable }) => {
                let drained: usize = self.drained;
                if usable {
                    let worker: usize = self.next_worker;
                    let is_tls = self.ready[drained] >= self.tcp_listeners;
                    self.next_worker = if worker < self.num_workers - 1 {
                        worker + 1
                    } else {
                        0
                    };
                    self.stage = RunStage::Dispatching;
                    RunAction::Dispatch { worker, is_tls }
                } else {
                    self.drain_from(drained)
                }
            },
            (RunStage::Accepting, RunEvent::NotAccepted) => {
                let drained: usize = self.drained;
                assert(drained < self.ready.len());
                self.drain_from(drained + 1)
            },
            (RunStage::Dispatching, RunEvent::Dispatched) => {
                let drained: usize = self.drained;
                self.drain_from(drained)
            },
            _ => {
                self.stage = RunStage::Over;
                RunAction::OutOfTurn
            },
        }
    }
}

// ── Laws ────────────────────────────────────────────────────────────────────────
/// What a startup has seen to, as far as its stage says so.
pub open spec fn start_sound(s: StartupView) -> bool {
    &&& start_wf(s)
    &&& s.tls_ready || s.stage == StartStage::AwaitTls ==> s.tls_paths
    &&& match s.stage {
        StartStage::AwaitTls | StartStage::BindTcp { .. } | StartStage::BindTls { .. } =>
        s.check_token ==> s.keys.len() > 0,
        _ => true,
    }
}

/// How many TCP and TLS listeners are bound, as far as the stage says so.
pub open spec fn bound(s: StartupView) -> (int, int) {
    match s.stage {
        StartStage::BindTcp { index } => (index as int, 0),
        StartStage::BindTls { index } => (s.tcp_addrs as int, index as int),
        _ => (0, 0),
    }
}

/// How many TCP and TLS listeners are bound after one more event.
pub open spec fn bound_after(s: StartupView, event: StartEventView) -> (int, int) {
    let (tcp, tls) = bound(s);
    match (s.stage, event) {
        (StartStage::BindTcp { .. }, StartEventView::Bound(true)) => (tcp + 1, tls),
        (StartStage::BindTls { .. }, StartEventView::Bound(true)) => (tcp, tls + 1),
        _ => (tcp, tls),
    }
}

/// A server runs only when the keys for its token check are loaded, when every listener it
/// has to have is bound, and with TLS listeners only under a TLS configuration.
pub proof fn law_startup_is_complete(s: StartupView, event: StartEventView)
    requires
        start_sound(s),
    ensures
        ({
            let (t, action) = start_step(s, event);
            &&& start_sound(t)
            &&& action matches StartActionView::Run(server) ==> {
                &&& t.check_token ==> t.keys.len() > 0
                &&& server == idle_server(
                    t.tcp_addrs,
                    if t.tls_ready {
                        t.tls_addrs
                    } else {
                        0
                    },
                    t.num_workers,
                )
                &&& t.tls_ready ==> t.tls_paths
                &&& bound_after(s, event) == (
                    server.tcp_listeners as int,
                    server.tls_listeners as int,
                )
            }
            &&& t.stage != StartStage::Over ==> bound(t) == bound_after(s, event)
        }),
{
}

/// A TLS configuration that cannot be built does not keep the server from starting: TLS is
/// off then.
pub proof fn law_broken_tls_is_off(s: StartupView)
    requires
        start_wf(s),
        s.stage == StartStage::AwaitTls,
    ensures
        ({
            let (t, action) = start_step(s, StartEventView::TlsBuilt(false));
            &&& !t.tls_ready
            &&& !(action is Fail)
            &&& !(action is BindTls)
        }),
{
}

/// The listeners are bound one after the other, each once: after all TCP listeners and, under
/// a TLS configuration, all TLS listeners, the server runs.
pub proof fn law_listeners_are_bound_in_order(s: StartupView)
    requires
        start_wf(s),
    ensures
        s.stage matches StartStage::BindTcp { index } ==> start_step(
            s,
            StartEventView::Bound(true),
        ).1 == if index + 1 < s.tcp_addrs {
            StartActionView::BindTcp { index: (index + 1) as usize }
        } else if s.tls_ready && s.tls_addrs > 0 {
            StartActionView::BindTls { index: 0 }
        } else {
            bind_from(s, s.tcp_addrs as int, s.tls_addrs as int).1
        },
        s.stage matches StartStage::BindTls { index } ==> start_step(
            s,
            StartEventView::Bound(true),
        ).1 == if index + 1 < s.tls_addrs {
            StartActionView::BindTls { index: (index + 1) as usize }
        } else {
            bind_from(s, s.tcp_addrs as int, s.tls_addrs as int).1
        },
        bind_from(s, s.tcp_addrs as int, s.tls_addrs as int).1 is Run,
{
}

/// A listener that cannot be bound keeps the server from starting.
pub proof fn law_bind_failure_is_fatal(s: StartupView)
    requires
        s.stage is BindTcp || s.stage is BindTls,
    ensures
        start_step(s, StartEventView::Bound(false)).1 is Fail,
        start_step(s, StartEventView::Bound(false)).0.stage == StartStage::Over,
{
}

/// The accept loop after some events, and the workers that it has handed connections to, in
/// order.
pub open spec fn run_all(s: ServerView, events: Seq<RunEventView>) -> (ServerView, Seq<usize>)
    decreases events.len(),
{
    if events.len() == 0 {
        (s, seq![])
    } else {
        let (before, picked) = run_all(s, events.drop_last());
        let (after, action) = run_step(before, events.last());
        match action {
            RunAction::Dispatch { worker, .. } => (after, picked.push(worker)),
            _ => (after, picked),
        }
    }
}

proof fn lemma_turn(k: int, n: int)
    requires
        0 <= k,
        0 < n,
    ensures
        (k + 1) % n == if k % n + 1 < n {
            k % n + 1
        } else {
            0
        },
{
    let q = k / n;
    let r = k % n;
    vstd::arithmetic::div_mod::lemma_fundamental_div_mod(k, n);
    assert(n * q == q * n) by (nonlinear_arith);
    if r + 1 < n {
        vstd::arithmetic::div_mod::lemma_fundamental_div_mod_converse(k + 1, n, q, r + 1);
    } else {
        assert(q * n + n == (q + 1) * n) by (nonlinear_arith);
        vstd::arithmetic::div_mod::lemma_fundamental_div_mod_converse(k + 1, n, q + 1, 0);
    }
}

/// Connections are dispatched round-robin: the first to worker 0, and each to the next one in
/// turn, whatever happens in between.
pub proof fn law_round_robin(
    tcp_listeners: usize,
    tls_listeners: usize,
    num_workers: usize,
    events: Seq<RunEventView>,
)
    requires
        num_workers > 0,
    ensures
        ({
            let (s, picked) = run_all(
                idle_server(tcp_listeners, tls_listeners, num_workers),
                events,
            );
            &&& forall|i: int|
                0 <= i < picked.len() ==> #[trigger] picked[i] == i % (num_workers as int)
            &&& s.next_worker == picked.len() % num_workers as nat
            &&& s.num_workers == num_workers
        }),
    decreases events.len(),
{
    let fresh = idle_server(tcp_listeners, tls_listeners, num_workers);
    if events.len() == 0 {
        assert(0nat % num_workers as nat == 0);
    } else {
        law_round_robin(tcp_listeners, tls_listeners, num_workers, events.drop_last());
        let (before, picked) = run_all(fresh, events.drop_last());
        lemma_turn(picked.len() as int, num_workers as int);
    }
}

/// A connection is handed to a worker as TLS exactly when it came in on a TLS listener.
pub proof fn law_tls_listeners_give_tls(s: ServerView)
    requires
        s.stage == RunStage::Accepting,
    ensures
        run_step(s, RunEventView::Accepted { usable: true }).1 matches RunAction::Dispatch {
            is_tls,
            ..
        } && (is_tls <==> s.ready[s.drained as int] >= s.tcp_listeners),
{
}

/// Every listener that has connections is drained before connections are awaited again: after
/// each connection the same listener is asked again, until it has none.
pub proof fn law_listeners_are_drained(s: ServerView, event: RunEventView)
    requires
        run_wf(s),
        s.stage == RunStage::Accepting || s.stage == RunStage::Dispatching,
    ensures
        run_step(s, event).1 == RunAction::Poll ==> event is NotAccepted && s.drained + 1
            == s.ready.len(),
        event is Dispatched && s.stage == RunStage::Dispatching ==> run_step(s, event).1 == (
        RunAction::Accept { listener: s.ready[s.drained as int] }),
        event == (RunEventView::Accepted { usable: false }) && s.stage == RunStage::Accepting
            ==> run_step(s, event).1 == (RunAction::Accept {
            listener: s.ready[s.drained as int],
        }),
        event is NotAccepted && s.stage == RunStage::Accepting && s.drained + 1 < s.ready.len()
            ==> run_step(s, event).1 == (RunAction::Accept {
            listener: s.ready[s.drained + 1],
        }),
{
}

/// The accept loop ends at the first look at the shutdown flag after it was set.
pub proof fn law_shutdown_stops(s: ServerView, ready: Seq<usize>)
    requires
        s.stage == RunStage::Polling,
    ensures
        run_step(s, RunEventView::Polled { shutdown: true, ready }).1 == RunAction::Stop,
        !(run_step(s, RunEventView::Polled { shutdown: false, ready }).1 == RunAction::Stop),
{
}

} // verus!
