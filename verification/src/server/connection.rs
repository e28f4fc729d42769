//! The life of a connection, from its acceptance to its end.

use vstd::prelude::*;
use crate::config::Config;
use crate::number::{self, push_dec};
use crate::protocol::greeting::GreetingError;
use crate::server::client::{self, client_name};

verus! {

/// How a connection ended.
#[derive(Clone, Copy, Debug, PartialEq, Eq, Structural)]
pub enum End {
    /// The client quit.
    Quit,
    /// The connection was lost.
    Disconnect,
    /// Something else went wrong.
    Error,
    /// The client was not authenticated.
    AuthFailed,
    /// TLS could not be set up.
    TlsFailed,
    /// The HTTP upgrade failed.
    UpgradeFailed,
}

/// Why a part of a connection failed.
#[derive(Clone, Copy, Debug, PartialEq, Eq, Structural)]
pub enum Failure {
    /// The connection was lost.
    Lost,
    /// The greeting was refused.
    Greeting(GreetingError),
    /// Anything else.
    Other,
}

/// Where a connection stands.
#[derive(Clone, Copy, Debug, PartialEq, Eq, Structural)]
pub enum ConnStage {
    /// It was accepted.
    Accepted,
    /// It is being announced in the log and the events.
    Announced,
    /// The timeouts of the socket are being set.
    Timeouts,
    /// The transport is being set up.
    Transport,
    /// The HTTP upgrade runs.
    Upgrade,
    /// The greeting runs.
    Greeting,
    /// The command phase runs.
    Commands,
    /// It has ended.
    Over,
}

/// A connection.
pub struct Connection {
    /// The name of the client in logs and events.
    pub client: String,
    /// It came in on a TLS listener.
    pub is_tls: bool,
    /// The server has a TLS configuration.
    pub tls_ready: bool,
    pub stage: ConnStage,
}

/// What a `Connection` says.
#[verifier::ext_equal]
pub struct ConnectionView {
    pub client: Seq<char>,
    pub is_tls: bool,
    pub tls_ready: bool,
    pub stage: ConnStage,
}

impl View for Connection {
    type V = ConnectionView;

    open spec fn view(&self) -> ConnectionView {
        ConnectionView {
            client: self.client@,
            is_tls: self.is_tls,
            tls_ready: self.tls_ready,
            stage: self.stage,
        }
    }
}

/// What came of the last action.
#[derive(Clone, Copy, Debug, PartialEq, Eq, Structural)]
pub enum ConnEvent {
    /// The connection begins, or the action succeeded.
    Done,
    /// The action failed.
    Failed(Failure),
}

/// What to do next.
pub enum ConnAction {
    /// Log the connection under this name of the client, and send its `connect` event.
    Announce { client: String, is_tls: bool },
    /// Apply the I/O timeout to the socket.
    SetTimeouts,
    /// Use the socket as it is.
    WrapPlain,
    /// Set up TLS on the socket.
    WrapTls,
    /// Perform the HTTP upgrade.
    Upgrade,
    /// Run the greeting, and send the `auth` event under this name of the client.
    Greet { client: String },
    /// Run the command phase.
    RunCommands,
    /// Close the connection.
    Close(End),
}

/// What a `ConnAction` says.
pub enum ConnActionView {
    Announce { client: Seq<char>, is_tls: bool },
    SetTimeouts,
    WrapPlain,
    WrapTls,
    Upgrade,
    Greet { client: Seq<char> },
    RunCommands,
    Close(End),
}

impl View for ConnAction {
    type V = ConnActionView;

    open spec fn view(&self) -> ConnActionView {
        match self {
            ConnAction::Announce { client, is_tls } => ConnActionView::Announce {
                client: client@,
                is_tls: *is_tls,
            },
            ConnAction::SetTimeouts => ConnActionView::SetTimeouts,
            ConnAction::WrapPlain => ConnActionView::WrapPlain,
            ConnAction::WrapTls => ConnActionView::WrapTls,
            ConnAction::Upgrade => ConnActionView::Upgrade,
            ConnAction::Greet { client } => ConnActionView::Greet { client: client@ },
            ConnAction::RunCommands => ConnActionView::RunCommands,
            ConnAction::Close(end) => ConnActionView::Close(*end),
        }
    }
}

/// How a connection ends when its greeting fails.
pub open spec fn greeting_end(f: Failure) -> End {
    match f {
        Failure::Lost => End::Disconnect,
        Failure::Greeting(GreetingError::QuitBeforeToken) => End::Quit,
        Failure::Greeting(GreetingError::ExpectedToken) => End::AuthFailed,
        Failure::Greeting(GreetingError::TokenRejected) => End::AuthFailed,
        Failure::Greeting(GreetingError::OutOfTurn) => End::Error,
        Failure::Other => End::Error,
    }
}

/// How a connection ends when its command phase fails.
pub open spec fn commands_end(f: Failure) -> End {
    if f == Failure::Lost {
        End::Disconnect
    } else {
        End::Error
    }
}

/// One step of a connection.
pub open spec fn conn_step(c: ConnectionView, event: ConnEvent) -> (
    ConnectionView,
    ConnActionView,
) {
    match (c.stage, event) {
        (ConnStage::Accepted, ConnEvent::Done) => (
            ConnectionView { stage: ConnStage::Announced, ..c },
            ConnActionView::Announce { client: c.client, is_tls: c.is_tls },
        ),
        (ConnStage::Announced, ConnEvent::Done) => (
            ConnectionView { stage: ConnStage::Timeouts, ..c },
            ConnActionView::SetTimeouts,
        ),
        (ConnStage::Timeouts, ConnEvent::Done) => if !c.is_tls {
            (ConnectionView { stage: ConnStage::Transport, ..c }, ConnActionView::WrapPlain)
        } else if c.tls_ready {
            (ConnectionView { stage: ConnStage::Transport, ..c }, ConnActionView::WrapTls)
        } else {
            (ConnectionView { stage: ConnStage::Over, ..c }, ConnActionView::Close(End::TlsFailed))
        },
        (ConnStage::Transport, ConnEvent::Done) => (
            ConnectionView { stage: ConnStage::Upgrade, ..c },
            ConnActionView::Upgrade,
        ),
        (ConnStage::Transport, ConnEvent::Failed(_)) => (
            ConnectionView { stage: ConnStage::Over, ..c },
            ConnActionView::Close(End::TlsFailed),
        ),
        (ConnStage::Upgrade, ConnEvent::Done) => (
            ConnectionView { stage: ConnStage::Greeting, ..c },
            ConnActionView::Greet { client: c.client },
        ),
        (ConnStage::Upgrade, ConnEvent::Failed(_)) => (
            ConnectionView { stage: ConnStage::Over, ..c },
            ConnActionView::Close(End::UpgradeFailed),
        ),
        (ConnStage::Greeting, ConnEvent::Done) => (
            ConnectionView { stage: ConnStage::Commands, ..c },
            ConnActionView::RunCommands,
        ),
        (ConnStage::Greeting, ConnEvent::Failed(f)) => (
            ConnectionView { stage: ConnStage::Over, ..c },
            ConnActionView::Close(greeting_end(f)),
        ),
        (ConnStage::Commands, ConnEvent::Done) => (
            ConnectionView { stage: ConnStage::Over, ..c },
            ConnActionView::Close(End::Quit),
        ),
        (ConnStage::Commands, ConnEvent::Failed(f)) => (
            ConnectionView { stage: ConnStage::Over, ..c },
            ConnActionView::Close(commands_end(f)),
        ),
        _ => (ConnectionView { stage: ConnStage::Over, ..c }, ConnActionView::Close(End::Error)),
    }
}

impl End {
    /// The name of the end in events.
    pub fn name(&self) -> (r: &'static str)
        ensures
            r@ == match self {
                End::Quit => "quit"@,
                End::Disconnect => "disconnect"@,
                End::Error => "error"@,
                End::AuthFailed => "auth_failed"@,
                End::TlsFailed => "tls_failed"@,
                End::UpgradeFailed => "upgrade_failed"@,
            },
    {
        match self {
            End::Quit => "quit",
            End::Disconnect => "disconnect",
            End::Error => "error",
            End::AuthFailed => "auth_failed",
            End::TlsFailed => "tls_failed",
            End::UpgradeFailed => "upgrade_failed",
        }
    }
}

impl Connection {
    /// A connection from the address `ip` that was just accepted. The client is named by its
    /// full address only under `log_full_ip`.
    pub fn new(config: &Config, ip: &str, is_tls: bool, tls_ready: bool) -> (r: Connection)
        ensures
            r@ == (ConnectionView {
                client: if config.log_full_ip {
                    ip@
                } else {
                    client::anonymised(ip@)
                },
                is_tls,
                tls_ready,
                stage: ConnStage::Accepted,
            }),
    {
        Connection {
            client: client_name(ip, config.log_full_ip),
            is_tls,
            tls_ready,
            stage: ConnStage::Accepted,
        }
    }
}

/// The log line that announces a connection.
pub fn announcement(conn_id: usize, client: &str) -> (r: String)
    ensures
        r@ == "[conn "@ + number::dec(conn_id as nat) + "] connection from "@ + client@,
{
    let mut out = "[conn ".to_owned();
    push_dec(&mut out, conn_id as u128);
    out.append("] connection from ");
    out.append(client);
    out
}

fn end_of_greeting(f: Failure) -> (r: End)
    ensures
        r == greeting_end(f),
{
    match f {
        Failure::Lost => End::Disconnect,
        Failure::Greeting(GreetingError::QuitBeforeToken) => End::Quit,
        Failure::Greeting(GreetingError::ExpectedToken) => End::AuthFailed,
        Failure::Greeting(GreetingError::TokenRejected) => End::AuthFailed,
        Failure::Greeting(GreetingError::OutOfTurn) => End::Error,
        Failure::Other => End::Error,
    }
}

/// One step of a connection: takes what came of the last action and yields the next action. A
/// connection begins with `ConnEvent::Done`.
pub fn handle_connection(c: &mut Connection, event: ConnEvent) -> (r: ConnAction)
    ensures
        (final(c)@, r@) == conn_step(old(c)@, event),
{
    let (stage, action) = match (c.stage, event) {
        (ConnStage::Accepted, ConnEvent::Done) => (
            ConnStage::Announced,
            ConnAction::Announce { client: c.client.clone(), is_tls: c.is_tls },
        ),
        (ConnStage::Announced, ConnEvent::Done) => (ConnStage::Timeouts, ConnAction::SetTimeouts),
        (ConnStage::Timeouts, ConnEvent::Done) => if !c.is_tls {
            (ConnStage::Transport, ConnAction::WrapPlain)
        } else if c.tls_ready {
            (ConnStage::Transport, ConnAction::WrapTls)
        } else {
            (ConnStage::Over, ConnAction::Close(End::TlsFailed))
        },
        (ConnStage::Transport, ConnEvent::Done) => (ConnStage::Upgrade, ConnAction::Upgrade),
        (ConnStage::Transport, ConnEvent::Failed(_)) => (
            ConnStage::Over,
            ConnAction::Close(End::TlsFailed),
        ),
        (ConnStage::Upgrade, ConnEvent::Done) => (
            ConnStage::Greeting,
            ConnAction::Greet { client: c.client.clone() },
        ),
        (ConnStage::Upgrade, ConnEvent::Failed(_)) => (
            ConnStage::Over,
            ConnAction::Close(End::UpgradeFailed),
        ),
        (ConnStage::Greeting, ConnEvent::Done) => (ConnStage::Commands, ConnAction::RunCommands),
        (ConnStage::Greeting, ConnEvent::Failed(f)) => (
            ConnStage::Over,
            ConnAction::Close(end_of_greeting(f)),
        ),
        (ConnStage::Commands, ConnEvent::Done) => (ConnStage::Over, ConnAction::Close(End::Quit)),
        (ConnStage::Commands, ConnEvent::Failed(f)) => (
            ConnStage::Over,
            ConnAction::Close(
                if f == Failure::Lost {
                    End::Disconnect
                } else {
                    End::Error
                },
            ),
        ),
        _ => (ConnStage::Over, ConnAction::Close(End::Error)),
    };
    c.stage = stage;
    action
}

// ── Laws ────────────────────────────────────────────────────────────────────────
/// How many parts of its life a connection has got through.
pub open spec fn progress(stage: ConnStage) -> nat {
    match stage {
        ConnStage::Accepted => 0,
        ConnStage::Announced => 1,
        ConnStage::Timeouts => 2,
        ConnStage::Transport => 3,
        ConnStage::Upgrade => 4,
        ConnStage::Greeting => 5,
        ConnStage::Commands => 6,
        ConnStage::Over => 7,
    }
}

/// A connection gets through its parts in order, each only after the one before has
/// succeeded; commands are run only after a successful greeting; and a connection ends
/// exactly when it is over.
pub proof fn law_connection_goes_in_order(c: ConnectionView, event: ConnEvent)
    requires
        c.stage != ConnStage::Over,
    ensures
        ({
            let (d, action) = conn_step(c, event);
            &&& d.stage != ConnStage::Over ==> event == ConnEvent::Done && progress(d.stage)
                == progress(c.stage) + 1
            &&& action is RunCommands ==> c.stage == ConnStage::Greeting && event
                == ConnEvent::Done
            &&& action is Close <==> d.stage == ConnStage::Over
        }),
{
}

/// A connection after some events, one after the other, and its actions.
pub open spec fn conn_run(c: ConnectionView, events: Seq<ConnEvent>) -> (
    ConnectionView,
    Seq<ConnActionView>,
)
    decreases events.len(),
{
    if events.len() == 0 {
        (c, seq![])
    } else {
        let (before, actions) = conn_run(c, events.drop_last());
        let (after, action) = conn_step(before, events.last());
        (after, actions.push(action))
    }
}

/// Every connection is announced before anything else is done with it, and nothing that
/// happens changes the name of its client: whatever is said of the client in logs and events
/// is said under the name of the announcement.
pub proof fn law_connections_are_announced(c: ConnectionView, events: Seq<ConnEvent>)
    requires
        c.stage == ConnStage::Accepted,
        events.len() > 0,
        events[0] == ConnEvent::Done,
    ensures
        ({
            let (d, actions) = conn_run(c, events);
            &&& d.client == c.client
            &&& d.is_tls == c.is_tls
            &&& actions.len() == events.len()
            &&& actions[0] == (ConnActionView::Announce { client: c.client, is_tls: c.is_tls })
            &&& forall|i: int|
                0 <= i < actions.len() ==> match #[trigger] actions[i] {
                    ConnActionView::Announce { client, is_tls } => i == 0 && client == c.client
                        && is_tls == c.is_tls,
                    ConnActionView::Greet { client } => client == c.client,
                    _ => true,
                }
            &&& d.stage != ConnStage::Accepted
        }),
    decreases events.len(),
{
    let rest = events.drop_last();
    let (before, actions) = conn_run(c, rest);
    if rest.len() == 0 {
        assert(before == c);
        assert(events.last() == events[0]);
    } else {
        assert(rest[0] == events[0]);
        law_connections_are_announced(c, rest);
        let all = conn_run(c, events).1;
        assert(all[0] == actions[0]);
        assert forall|i: int| 0 <= i < all.len() implies match #[trigger] all[i] {
            ConnActionView::Announce { client, is_tls } => i == 0 && client == c.client && is_tls
                == c.is_tls,
            ConnActionView::Greet { client } => client == c.client,
            _ => true,
        } by {
            if i < actions.len() {
                assert(all[i] == actions[i]);
            }
        }
    }
}

/// A connection that came in on a TLS listener is never handled in the clear, and is refused
/// without a TLS configuration.
pub proof fn law_tls_stays_tls(c: ConnectionView, event: ConnEvent)
    requires
        c.is_tls,
    ensures
        !(conn_step(c, event).1 is WrapPlain),
        conn_step(c, event).0.is_tls,
        c.stage == ConnStage::Timeouts && !c.tls_ready ==> conn_step(c, event).1 is Close,
{
}

} // verus!
