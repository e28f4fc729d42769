//! The greeting and authentication phase:
//!
//! ```text
//! S -> C:  RMBTv1.3.5\n
//! S -> C:  ACCEPT TOKEN QUIT\n
//! C -> S:  TOKEN <uuid>_<ts>_<hmac>\n
//! S -> C:  OK\n                           (on success)
//! S -> C:  CHUNKSIZE 4096 4096 4194304\n
//! ```
//!
//! The phase is a state machine. Each step takes what came of the last action and yields the
//! next action to perform.

use vstd::prelude::*;
use crate::config::constants::{
    CHUNK_SIZE, GREETING, MAX_ACCEPT_EARLY, MAX_ACCEPT_LATE, MAX_CHUNK_SIZE, MIN_CHUNK_SIZE,
};
use crate::config::{Config, SecretKey};
use crate::net::IpAddr;
use crate::number::{self, push_dec};
use crate::protocol::token::{self, extract_v2, validate_token, TokenResult, Verdict, PERIOD};
use crate::protocol::token_laws;
use crate::text::{self, cut_once, has_prefix, trimmed, trimmed_start, without_prefix};

verus! {

// ── The machine ─────────────────────────────────────────────────────────────────
/// Why a greeting fails.
#[derive(Clone, Copy, Debug, PartialEq, Eq, Structural)]
pub enum GreetingError {
    /// The client sent QUIT before TOKEN.
    QuitBeforeToken,
    /// The client sent something else than TOKEN.
    ExpectedToken,
    /// The token was rejected.
    TokenRejected,
    /// The event does not answer the last action.
    OutOfTurn,
}

/// Where a greeting stands.
#[derive(Clone, Copy, Debug, PartialEq, Eq, Structural)]
pub enum Stage {
    /// The version string has to be sent next.
    Start,
    /// The version string is on its way.
    Greeted,
    /// The token prompt is on its way.
    Prompted,
    /// The token line is awaited.
    AwaitLine,
    /// The address of the client is awaited.
    AwaitPeer,
    /// The token is accepted from a time on that is awaited.
    Early,
    /// `OK` is on its way.
    Acknowledged,
    /// The chunk size range is on its way.
    Advertised,
    /// The last line before the connection is dropped is on its way.
    Dropping(GreetingError),
    /// The greeting is over.
    Over,
}

/// What is known of the client's token.
pub enum Auth {
    /// It has not been judged.
    Pending,
    /// Tokens are not checked.
    NotChecked,
    /// It was accepted by the key with this label.
    Accepted { label: String },
    /// It was rejected, for the reason with this code. `detail` says by how much it is too
    /// early or too late.
    Rejected { reason: &'static str, detail: String },
}

/// What an `Auth` says.
pub enum AuthView {
    Pending,
    NotChecked,
    Accepted { label: Seq<char> },
    Rejected { reason: Seq<char>, detail: Seq<char> },
}

impl View for Auth {
    type V = AuthView;

    open spec fn view(&self) -> AuthView {
        match self {
            Auth::Pending => AuthView::Pending,
            Auth::NotChecked => AuthView::NotChecked,
            Auth::Accepted { label } => AuthView::Accepted { label: label@ },
            Auth::Rejected { reason, detail } => AuthView::Rejected {
                reason: reason@,
                detail: detail@,
            },
        }
    }
}

/// The greeting of a connection.
pub struct Greeting {
    pub check_token: bool,
    pub v2_only: bool,
    pub max_chunk_size: Option<u32>,
    pub stage: Stage,
    /// The token of the client, once it is known.
    pub token: String,
    pub auth: Auth,
}

/// What a `Greeting` says.
pub struct GreetingView {
    pub check_token: bool,
    pub v2_only: bool,
    pub max_chunk_size: Option<u32>,
    pub stage: Stage,
    pub token: Seq<char>,
    pub auth: AuthView,
}

impl View for Greeting {
    type V = GreetingView;

    open spec fn view(&self) -> GreetingView {
        GreetingView {
            check_token: self.check_token,
            v2_only: self.v2_only,
            max_chunk_size: self.max_chunk_size,
            stage: self.stage,
            token: self.token@,
            auth: self.auth@,
        }
    }
}

/// What came of the last action.
pub enum Event {
    /// The greeting begins, the line was sent, or the time has passed.
    Done,
    /// A line was read.
    Line(String),
    /// The address of the client, if it is available.
    Peer(Option<IpAddr>),
}

/// What an `Event` says.
pub enum EventView {
    Done,
    Line(Seq<char>),
    Peer(Option<IpAddr>),
}

impl View for Event {
    type V = EventView;

    open spec fn view(&self) -> EventView {
        match self {
            Event::Done => EventView::Done,
            Event::Line(l) => EventView::Line(l@),
            Event::Peer(ip) => EventView::Peer(*ip),
        }
    }
}

/// What to do next.
pub enum Action {
    /// Send this protocol line.
    Send(String),
    /// Read a line.
    ReadLine,
    /// Look up the address that the connection came from.
    AskPeer,
    /// Wait for this many seconds: the client connected slightly early.
    Sleep { secs: u64 },
    /// Go on with the commands of the client with this UUID.
    Finish { uuid: String },
    /// Drop the connection.
    Fail(GreetingError),
}

/// What an `Action` says.
pub enum ActionView {
    Send(Seq<char>),
    ReadLine,
    AskPeer,
    Sleep { secs: nat },
    Finish { uuid: Seq<char> },
    Fail(GreetingError),
}

impl View for Action {
    type V = ActionView;

    open spec fn view(&self) -> ActionView {
        match self {
            Action::Send(s) => ActionView::Send(s@),
            Action::ReadLine => ActionView::ReadLine,
            Action::AskPeer => ActionView::AskPeer,
            Action::Sleep { secs } => ActionView::Sleep { secs: *secs as nat },
            Action::Finish { uuid } => ActionView::Finish { uuid: uuid@ },
            Action::Fail(e) => ActionView::Fail(*e),
        }
    }
}

/// What is read of the client's first line that is not blank.
pub enum Opening {
    /// A blank line, which is skipped.
    Blank,
    /// `TOKEN <value>`
    Token(Seq<char>),
    /// `QUIT`
    Quit,
    /// Anything else.
    Other,
}

/// What a line says before the client is authenticated.
pub open spec fn opening(line: Seq<char>) -> Opening {
    if text::trim(line).len() == 0 {
        Opening::Blank
    } else if text::begins_with(line, "TOKEN "@) {
        Opening::Token(text::trim(line.skip("TOKEN "@.len() as int)))
    } else if text::begins_with(text::trim_start(line), "QUIT"@) {
        Opening::Quit
    } else {
        Opening::Other
    }
}

/// The UUID of a token: what stands before its first underscore.
pub open spec fn uuid_of(token: Seq<char>) -> Seq<char> {
    match text::split_once(token, "_"@) {
        Some((uuid, rest)) => uuid,
        None => token,
    }
}

/// The version of a token.
pub open spec fn token_type_of(token: Seq<char>) -> Seq<char> {
    if token::v2_part(token) is Some {
        "v2"@
    } else {
        "v1"@
    }
}

/// The code of a rejection.
pub open spec fn reason_of(verdict: Verdict) -> Seq<char> {
    match verdict {
        Verdict::Accepted { .. } => ""@,
        Verdict::InvalidHmac => "invalid_hmac"@,
        Verdict::InvalidIp => "invalid_ip"@,
        Verdict::TooEarly { .. } => "too_early"@,
        Verdict::TooLate { .. } => "too_late"@,
        Verdict::ParseError => "parse_error"@,
        Verdict::V2Required => "v2_required"@,
    }
}

/// By how much a token is too early or too late.
pub open spec fn detail_of(verdict: Verdict) -> Seq<char> {
    match verdict {
        Verdict::TooEarly { reason } => reason,
        Verdict::TooLate { reason } => reason,
        _ => ""@,
    }
}

/// What is logged of a token, once it was judged.
pub open spec fn auth_text(conn_id: usize, token: Seq<char>, auth: AuthView) -> Option<Seq<char>> {
    let start = "[conn "@ + number::dec(conn_id as nat) + "] "@;
    match auth {
        AuthView::Pending => None,
        AuthView::NotChecked => Some(start + "token NOT CHECKED; uuid="@ + uuid_of(token)),
        AuthView::Accepted { label } => Some(
            start + "valid token; uuid="@ + uuid_of(token) + " key='"@ + label + "'"@,
        ),
        AuthView::Rejected { reason, detail } => Some(
            start + "token rejected: "@ + (if detail.len() > 0 {
                detail
            } else {
                reason
            }) + "; uuid="@ + uuid_of(token),
        ),
    }
}

/// The range of chunk sizes.
pub open spec fn chunk_size_line(max: Option<u32>) -> Seq<char> {
    "CHUNKSIZE "@ + number::dec(CHUNK_SIZE as nat) + " "@ + number::dec(MIN_CHUNK_SIZE as nat)
        + " "@ + number::dec(
        match max {
            Some(n) => n as nat,
            None => MAX_CHUNK_SIZE as nat,
        },
    ) + "\n"@
}

/// The greeting at another stage.
pub open spec fn at_stage(s: GreetingView, stage: Stage) -> GreetingView {
    GreetingView { stage, ..s }
}

/// The answer to a line.
pub open spec fn on_line(s: GreetingView, line: Seq<char>) -> (GreetingView, ActionView) {
    match opening(line) {
        Opening::Blank => (s, ActionView::ReadLine),
        Opening::Token(token) => if s.check_token {
            (GreetingView { stage: Stage::AwaitPeer, token, ..s }, ActionView::AskPeer)
        } else {
            (
                GreetingView {
                    stage: Stage::Acknowledged,
                    token,
                    auth: AuthView::NotChecked,
                    ..s
                },
                ActionView::Send("OK\n"@),
            )
        },
        Opening::Quit => (
            at_stage(s, Stage::Dropping(GreetingError::QuitBeforeToken)),
            ActionView::Send("BYE\n"@),
        ),
        Opening::Other => (
            at_stage(s, Stage::Dropping(GreetingError::ExpectedToken)),
            ActionView::Send("ERR\n"@),
        ),
    }
}

/// The answer to a verdict on the token: every verdict but acceptance is answered with `ERR`,
/// and the connection is dropped.
pub open spec fn on_verdict(s: GreetingView, verdict: Verdict) -> (GreetingView, ActionView) {
    match verdict {
        Verdict::Accepted { sleep_secs, label } => {
            let t = GreetingView { auth: AuthView::Accepted { label }, ..s };
            if sleep_secs > 0 {
                (at_stage(t, Stage::Early), ActionView::Sleep { secs: sleep_secs })
            } else {
                (at_stage(t, Stage::Acknowledged), ActionView::Send("OK\n"@))
            }
        },
        _ => (
            GreetingView {
                stage: Stage::Dropping(GreetingError::TokenRejected),
                auth: AuthView::Rejected {
                    reason: reason_of(verdict),
                    detail: detail_of(verdict),
                },
                ..s
            },
            ActionView::Send("ERR\n"@),
        ),
    }
}

/// One step of a greeting, when the last action came to `event`. The verdict on the token
/// matters only when the address of the client has come.
pub open spec fn step(s: GreetingView, event: EventView, verdict: Verdict) -> (
    GreetingView,
    ActionView,
) {
    match (s.stage, event) {
        (Stage::Start, EventView::Done) => (
            at_stage(s, Stage::Greeted),
            ActionView::Send(GREETING@),
        ),
        (Stage::Greeted, EventView::Done) => (
            at_stage(s, Stage::Prompted),
            ActionView::Send("ACCEPT TOKEN QUIT\n"@),
        ),
        (Stage::Prompted, EventView::Done) => (
            at_stage(s, Stage::AwaitLine),
            ActionView::ReadLine,
        ),
        (Stage::AwaitLine, EventView::Line(line)) => on_line(s, line),
        (Stage::AwaitPeer, EventView::Peer(ip)) => on_verdict(s, verdict),
        (Stage::Early, EventView::Done) => (
            at_stage(s, Stage::Acknowledged),
            ActionView::Send("OK\n"@),
        ),
        (Stage::Acknowledged, EventView::Done) => (
            at_stage(s, Stage::Advertised),
            ActionView::Send(chunk_size_line(s.max_chunk_size)),
        ),
        (Stage::Advertised, EventView::Done) => (
            at_stage(s, Stage::Over),
            ActionView::Finish { uuid: uuid_of(s.token) },
        ),
        (Stage::Dropping(error), EventView::Done) => (
            at_stage(s, Stage::Over),
            ActionView::Fail(error),
        ),
        _ => (at_stage(s, Stage::Over), ActionView::Fail(GreetingError::OutOfTurn)),
    }
}

/// The greeting of a new connection under these settings.
pub open spec fn fresh(check_token: bool, v2_only: bool, max_chunk_size: Option<u32>)
    -> GreetingView {
    GreetingView {
        check_token,
        v2_only,
        max_chunk_size,
        stage: Stage::Start,
        token: ""@,
        auth: AuthView::Pending,
    }
}

/// The verdict is one that the token can get at some time that the clock shows, when the
/// address of the client comes in.
pub open spec fn possible(
    s: GreetingView,
    event: EventView,
    keys: Seq<SecretKey>,
    verdict: Verdict,
) -> bool {
    match (s.stage, event) {
        (Stage::AwaitPeer, EventView::Peer(ip)) => exists|now: i64, later: i64|
            verdict == #[trigger] token::token_verdict(
                s.token,
                keys,
                ip,
                s.v2_only,
                now as int,
                later as int,
            ),
        _ => true,
    }
}

/// The UUID of a token, for logging.
pub fn token_uuid(token: &str) -> (r: String)
    ensures
        r@ == uuid_of(token@),
{
    match cut_once(token, "_") {
        Some((uuid, _)) => uuid.to_owned(),
        None => token.to_owned(),
    }
}

/// The version of a token, for logging: `v2` when it has a v2 part, else `v1`.
pub fn token_type(token: &str) -> (r: &'static str)
    ensures
        r@ == token_type_of(token@),
{
    if extract_v2(token).is_some() {
        "v2"
    } else {
        "v1"
    }
}

/// The code of a rejection, for logging; empty when the token was accepted.
pub fn rejection_reason(result: &TokenResult) -> (r: &'static str)
    ensures
        r@ == reason_of(result@),
{
    match result {
        TokenResult::Accepted { .. } => "",
        TokenResult::InvalidHmac => "invalid_hmac",
        TokenResult::InvalidIp => "invalid_ip",
        TokenResult::TooEarly { .. } => "too_early",
        TokenResult::TooLate { .. } => "too_late",
        TokenResult::ParseError => "parse_error",
        TokenResult::V2Required => "v2_required",
    }
}

/// By how much a token is too early or too late, for logging; empty on any other result.
pub fn rejection_detail(result: &TokenResult) -> (r: String)
    ensures
        r@ == detail_of(result@),
{
    match result {
        TokenResult::TooEarly { reason } => reason.clone(),
        TokenResult::TooLate { reason } => reason.clone(),
        _ => "".to_owned(),
    }
}

/// The log line on a token, once it was judged.
pub fn auth_line(conn_id: usize, g: &Greeting) -> (r: Option<String>)
    ensures
        crate::config::text_option(r) == auth_text(conn_id, g@.token, g@.auth),
{
    let uuid = token_uuid(g.token.as_str());
    let mut out = "[conn ".to_owned();
    push_dec(&mut out, conn_id as u128);
    out.append("] ");
    match &g.auth {
        Auth::Pending => return None,
        Auth::NotChecked => {
            out.append("token NOT CHECKED; uuid=");
            out.append(uuid.as_str());
        },
        Auth::Accepted { label } => {
            out.append("valid token; uuid=");
            out.append(uuid.as_str());
            out.append(" key='");
            out.append(label.as_str());
            out.append("'");
        },
        Auth::Rejected { reason, detail } => {
            out.append("token rejected: ");
            if detail.as_str().is_empty() {
                out.append(reason);
            } else {
                out.append(detail.as_str());
            }
            out.append("; uuid=");
            out.append(uuid.as_str());
        },
    }
    Some(out)
}

/// What an `auth` event says of a token: the result, the label of the key that accepted it,
/// and the code of its rejection; nothing before the token was judged.
pub fn auth_report(a: &Auth) -> (r: Option<(&'static str, Option<&str>, Option<&'static str>)>)
    ensures
        match a@ {
            AuthView::Pending => r is None,
            AuthView::NotChecked => r matches Some((result, label, reason)) && result@
                == "not_checked"@ && label is None && reason is None,
            AuthView::Accepted { label: l } => r matches Some((result, label, reason)) && result@
                == "accepted"@ && (label matches Some(t) && t@ == l) && reason is None,
            AuthView::Rejected { reason: c, .. } => r matches Some((result, label, reason)) && result@
                == "rejected"@ && label is None && (reason matches Some(t) && t@ == c),
        },
{
    match a {
        Auth::Pending => None,
        Auth::NotChecked => Some(("not_checked", None, None)),
        Auth::Accepted { label } => Some(("accepted", Some(label.as_str()), None)),
        Auth::Rejected { reason, .. } => Some(("rejected", None, Some(*reason))),
    }
}

/// What a `close` event says of the client: the UUID and the version of its token, and the
/// label of the key that accepted it. Each is empty as long as it is not known.
pub fn close_report(g: &Greeting) -> (r: (String, &'static str, &str))
    ensures
        r.0@ == uuid_of(g@.token),
        r.1@ == if g@.token.len() == 0 {
            ""@
        } else {
            token_type_of(g@.token)
        },
        r.2@ == match g@.auth {
            AuthView::Accepted { label } => label,
            _ => ""@,
        },
{
    let kind = if g.token.as_str().is_empty() {
        ""
    } else {
        token_type(g.token.as_str())
    };
    let secret = match &g.auth {
        Auth::Accepted { label } => label.as_str(),
        _ => "",
    };
    (token_uuid(g.token.as_str()), kind, secret)
}

fn chunk_size_text(max: Option<u32>) -> (r: String)
    ensures
        r@ == chunk_size_line(max),
{
    let mut out = "CHUNKSIZE ".to_owned();
    push_dec(&mut out, CHUNK_SIZE as u128);
    out.append(" ");
    push_dec(&mut out, MIN_CHUNK_SIZE as u128);
    out.append(" ");
    push_dec(
        &mut out,
        match max {
            Some(n) => n as u128,
            None => MAX_CHUNK_SIZE as u128,
        },
    );
    out.append("\n");
    out
}

impl Greeting {
    /// The greeting of a new connection.
    pub fn new(config: &Config) -> (r: Greeting)
        ensures
            r@ == fresh(config.check_token, config.v2_only, config.max_chunk_size),
    {
        Greeting {
            check_token: config.check_token,
            v2_only: config.v2_only,
            max_chunk_size: config.max_chunk_size,
            stage: Stage::Start,
            token: "".to_owned(),
            auth: Auth::Pending,
        }
    }

    /// Answers the client's line.
    fn take_line(&mut self, line: &str) -> (r: Action)
        ensures
            (final(self)@, r@) == on_line(old(self)@, line@),
    {
        if trimmed(line).is_empty() {
            return Action::ReadLine;
        }
        match without_prefix(line, "TOKEN ") {
            Some(rest) => {
                self.token = trimmed(rest).to_owned();
                if self.check_token {
                    self.stage = Stage::AwaitPeer;
                    Action::AskPeer
                } else {
                    self.auth = Auth::NotChecked;
                    self.stage = Stage::Acknowledged;
                    Action::Send("OK\n".to_owned())
                }
            },
            None => if has_prefix(trimmed_start(line), "QUIT") {
                self.stage = Stage::Dropping(GreetingError::QuitBeforeToken);
                Action::Send("BYE\n".to_owned())
            } else {
                self.stage = Stage::Dropping(GreetingError::ExpectedToken);
                Action::Send("ERR\n".to_owned())
            },
        }
    }

    /// Answers the result of token validation: everything but acceptance is answered with
    /// `ERR`, and the connection is dropped.
    pub fn take_result(&mut self, result: TokenResult) -> (r: Action)
        ensures
            (final(self)@, r@) == on_verdict(old(self)@, result@),
    {
        let reason = rejection_reason(&result);
        let detail = rejection_detail(&result);
        match result {
            TokenResult::Accepted { sleep_secs, label } => {
                self.auth = Auth::Accepted { label };
                if sleep_secs > 0 {
                    self.stage = Stage::Early;
                    Action::Sleep { secs: sleep_secs }
                } else {
                    self.stage = Stage::Acknowledged;
                    Action::Send("OK\n".to_owned())
                }
            },
            _ => {
                self.auth = Auth::Rejected { reason, detail };
                self.stage = Stage::Dropping(GreetingError::TokenRejected);
                Action::Send("ERR\n".to_owned())
            },
        }
    }
}

/// One step of the greeting/authentication phase: takes what came of the last action and
/// yields the next action. A greeting begins with `Event::Done`.
///
/// The clock is read when the address of the client comes in, so the verdict on the token is
/// then the one at some times that it showed.
pub fn run_greeting(s: &mut Greeting, event: Event, conn_id: usize, keys: &[SecretKey]) -> (r:
    Action)
    ensures
        exists|verdict: Verdict|
            possible(old(s)@, event@, keys@, verdict) && (final(s)@, r@) == #[trigger] step(
                old(s)@,
                event@,
                verdict,
            ),
{
    let ghost before = s@;
    let ghost seen = event@;
    let ghost mut verdict = Verdict::ParseError;
    let action = match (s.stage, event) {
        (Stage::Start, Event::Done) => {
            s.stage = Stage::Greeted;
            Action::Send(GREETING.to_owned())
        },
        (Stage::Greeted, Event::Done) => {
            s.stage = Stage::Prompted;
            Action::Send("ACCEPT TOKEN QUIT\n".to_owned())
        },
        (Stage::Prompted, Event::Done) => {
            s.stage = Stage::AwaitLine;
            Action::ReadLine
        },
        (Stage::AwaitLine, Event::Line(line)) => s.take_line(line.as_str()),
        (Stage::AwaitPeer, Event::Peer(ip)) => {
            let result = validate_token(s.token.as_str(), keys, conn_id, ip, s.v2_only);
            proof {
                verdict = result@;
            }
            s.take_result(result)
        },
        (Stage::Early, Event::Done) => {
            s.stage = Stage::Acknowledged;
            Action::Send("OK\n".to_owned())
        },
        (Stage::Acknowledged, Event::Done) => {
            s.stage = Stage::Advertised;
            Action::Send(chunk_size_text(s.max_chunk_size))
        },
        (Stage::Advertised, Event::Done) => {
            s.stage = Stage::Over;
            Action::Finish { uuid: token_uuid(s.token.as_str()) }
        },
        (Stage::Dropping(error), Event::Done) => {
            s.stage = Stage::Over;
            Action::Fail(error)
        },
        _ => {
            s.stage = Stage::Over;
            Action::Fail(GreetingError::OutOfTurn)
        },
    };
    assert((s@, action@) == step(before, seen, verdict));
    assert(possible(before, seen, keys@, verdict));
    action
}

// ── Laws ────────────────────────────────────────────────────────────────────────
/// The token has passed, as far as the stage says so.
pub open spec fn sound(s: GreetingView) -> bool {
    match s.stage {
        Stage::Early | Stage::Acknowledged | Stage::Advertised => {
            ||| s.auth == AuthView::NotChecked && !s.check_token
            ||| s.auth is Accepted
        },
        Stage::Start | Stage::Greeted | Stage::Prompted | Stage::AwaitLine | Stage::AwaitPeer =>
            s.auth is Pending,
        _ => true,
    }
}

/// A client gets past the greeting only when its token was accepted, or tokens are not
/// checked; and a token counts as accepted only by a verdict.
pub proof fn law_only_accepted_tokens_pass(s: GreetingView, event: EventView, verdict: Verdict)
    requires
        sound(s),
    ensures
        ({
            let (t, action) = step(s, event, verdict);
            &&& sound(t)
            &&& t.check_token == s.check_token
            &&& action is Finish ==> t.auth is Accepted || (t.auth == AuthView::NotChecked
                && !t.check_token)
            &&& t.auth is Accepted && !(s.auth is Accepted) ==> verdict is Accepted
                && event is Peer
        }),
{
}

/// A new greeting has let nobody pass.
pub proof fn law_new_greeting_is_sound(
    check_token: bool,
    v2_only: bool,
    max_chunk_size: Option<u32>,
)
    ensures
        sound(fresh(check_token, v2_only, max_chunk_size)),
{
}

/// Every verdict but acceptance is answered with `ERR`, and then the connection is dropped.
pub proof fn law_rejection(s: GreetingView, ip: Option<IpAddr>, verdict: Verdict, any: Verdict)
    requires
        s.stage == Stage::AwaitPeer,
        !(verdict is Accepted),
    ensures
        ({
            let (t, first) = step(s, EventView::Peer(ip), verdict);
            let (u, second) = step(t, EventView::Done, any);
            &&& first == ActionView::Send("ERR\n"@)
            &&& second == ActionView::Fail(GreetingError::TokenRejected)
            &&& u.stage == Stage::Over
        }),
{
}

/// An accepted token is answered with `OK` and the chunk size range, after the time by which
/// the client came early; then the commands of the client with the token's UUID follow.
pub proof fn law_acceptance(
    s: GreetingView,
    ip: Option<IpAddr>,
    sleep_secs: nat,
    label: Seq<char>,
    any: Verdict,
)
    requires
        s.stage == Stage::AwaitPeer,
    ensures
        ({
            let (t, first) = step(s, EventView::Peer(ip), Verdict::Accepted { sleep_secs, label });
            let (u, ok) = if sleep_secs > 0 {
                step(t, EventView::Done, any)
            } else {
                (t, first)
            };
            let (v, range) = step(u, EventView::Done, any);
            let (w, last) = step(v, EventView::Done, any);
            &&& sleep_secs > 0 ==> first == (ActionView::Sleep { secs: sleep_secs })
            &&& ok == ActionView::Send("OK\n"@)
            &&& range == ActionView::Send(chunk_size_line(s.max_chunk_size))
            &&& last == (ActionView::Finish { uuid: uuid_of(s.token) })
            &&& w.auth == (AuthView::Accepted { label })
        }),
{
}

/// Every greeting begins with the version string and the token prompt, and then a line is
/// read.
pub proof fn law_opening(
    check_token: bool,
    v2_only: bool,
    max_chunk_size: Option<u32>,
    any: Verdict,
)
    ensures
        ({
            let (a, first) = step(fresh(check_token, v2_only, max_chunk_size), EventView::Done, any);
            let (b, second) = step(a, EventView::Done, any);
            let (c, third) = step(b, EventView::Done, any);
            &&& first == ActionView::Send(GREETING@)
            &&& second == ActionView::Send("ACCEPT TOKEN QUIT\n"@)
            &&& third == ActionView::ReadLine
            &&& c.stage == Stage::AwaitLine
        }),
{
}

/// Blank lines before the token are skipped, however many there are: each changes nothing,
/// and another line is read.
pub proof fn law_blank_lines_are_skipped(s: GreetingView, line: Seq<char>, any: Verdict)
    requires
        s.stage == Stage::AwaitLine,
        text::trim(line).len() == 0,
    ensures
        step(s, EventView::Line(line), any) == (s, ActionView::ReadLine),
{
}

/// A `QUIT` before the token is answered with `BYE`, anything else that is no token with
/// `ERR`; then the connection is dropped.
pub proof fn law_no_token(s: GreetingView, line: Seq<char>, any: Verdict)
    requires
        s.stage == Stage::AwaitLine,
        opening(line) is Quit || opening(line) is Other,
    ensures
        ({
            let (t, first) = step(s, EventView::Line(line), any);
            let (u, second) = step(t, EventView::Done, any);
            &&& first == ActionView::Send(
                if opening(line) is Quit {
                    "BYE\n"@
                } else {
                    "ERR\n"@
                },
            )
            &&& second == ActionView::Fail(
                if opening(line) is Quit {
                    GreetingError::QuitBeforeToken
                } else {
                    GreetingError::ExpectedToken
                },
            )
        }),
{
}

/// The greeting after events with the verdicts at their time, one after the other, and the
/// last action.
pub open spec fn run(s: GreetingView, events: Seq<(EventView, Verdict)>) -> (
    GreetingView,
    Option<ActionView>,
)
    decreases events.len(),
{
    if events.len() == 0 {
        (s, None)
    } else {
        let before = run(s, events.drop_last()).0;
        let (after, action) = step(before, events.last().0, events.last().1);
        (after, Some(action))
    }
}

proof fn lemma_acceptance_was_judged(
    check_token: bool,
    v2_only: bool,
    max_chunk_size: Option<u32>,
    events: Seq<(EventView, Verdict)>,
)
    ensures
        ({
            let (t, _) = run(fresh(check_token, v2_only, max_chunk_size), events);
            &&& sound(t)
            &&& t.check_token == check_token
            &&& t.auth is Accepted ==> exists|i: int|
                0 <= i < events.len() && (#[trigger] events[i]).0 is Peer && events[i].1
                    is Accepted
        }),
    decreases events.len(),
{
    if events.len() > 0 {
        let rest = events.drop_last();
        lemma_acceptance_was_judged(check_token, v2_only, max_chunk_size, rest);
        let before = run(fresh(check_token, v2_only, max_chunk_size), rest).0;
        law_only_accepted_tokens_pass(before, events.last().0, events.last().1);
        if before.auth is Accepted {
            let i = choose|i: int|
                0 <= i < rest.len() && (#[trigger] rest[i]).0 is Peer && rest[i].1 is Accepted;
            assert(events[i] == rest[i]);
        } else {
            assert(events[events.len() - 1] == events.last());
        }
    }
}

/// Whatever a client does, it gets to the commands of a server that checks tokens only after
/// a verdict has accepted its token.
pub proof fn law_commands_need_an_accepted_token(
    check_token: bool,
    v2_only: bool,
    max_chunk_size: Option<u32>,
    events: Seq<(EventView, Verdict)>,
)
    requires
        check_token,
        run(fresh(check_token, v2_only, max_chunk_size), events).1 matches Some(
            ActionView::Finish { .. },
        ),
    ensures
        exists|i: int|
            0 <= i < events.len() && (#[trigger] events[i]).0 is Peer && events[i].1 is Accepted,
{
    let rest = events.drop_last();
    let s = fresh(check_token, v2_only, max_chunk_size);
    lemma_acceptance_was_judged(check_token, v2_only, max_chunk_size, rest);
    lemma_acceptance_was_judged(check_token, v2_only, max_chunk_size, events);
    law_only_accepted_tokens_pass(run(s, rest).0, events.last().0, events.last().1);
}

/// A client that presents a v2 token issued for its address, while the window is open, is
/// welcomed: at once, or after the time by which it came early.
pub proof fn law_issued_v2_token_is_welcomed(
    s: GreetingView,
    bytes: Seq<u8>,
    keys: Seq<SecretKey>,
    k: int,
    ip: IpAddr,
    start_time: int,
    now: int,
    later: int,
)
    requires
        s.stage == Stage::AwaitPeer,
        token_laws::carries_v2(s.token, bytes),
        token_laws::identifies(keys, k, bytes),
        token_laws::signs_ip(keys[k], bytes, ip),
        token::be32(bytes.take(4)) == start_time % (PERIOD as int),
        -(PERIOD / 2) < start_time - now < PERIOD / 2,
        start_time - MAX_ACCEPT_EARLY <= later <= start_time + MAX_ACCEPT_LATE,
    ensures
        ({
            let verdict = token::token_verdict(s.token, keys, Some(ip), s.v2_only, now, later);
            step(s, EventView::Peer(Some(ip)), verdict).1 == if later < start_time {
                ActionView::Sleep { secs: (start_time - later) as nat }
            } else {
                ActionView::Send("OK\n"@)
            }
        }),
{
    token_laws::law_issued_v2_token_is_accepted(
        s.token,
        bytes,
        keys,
        k,
        ip,
        s.v2_only,
        start_time,
        now,
        later,
    );
}

/// A client that presents the v2 token of another address is answered with `ERR`.
pub proof fn law_foreign_v2_token_is_refused(
    s: GreetingView,
    bytes: Seq<u8>,
    keys: Seq<SecretKey>,
    k: int,
    ip: IpAddr,
    now: int,
    later: int,
)
    requires
        s.stage == Stage::AwaitPeer,
        token_laws::carries_v2(s.token, bytes),
        token_laws::identifies(keys, k, bytes),
        !token_laws::signs_ip(keys[k], bytes, ip),
    ensures
        ({
            let verdict = token::token_verdict(s.token, keys, Some(ip), s.v2_only, now, later);
            step(s, EventView::Peer(Some(ip)), verdict).1 == ActionView::Send("ERR\n"@)
        }),
{
    token_laws::law_other_address_is_invalid_ip(
        s.token,
        bytes,
        keys,
        k,
        ip,
        s.v2_only,
        now,
        later,
    );
}

} // verus!
