//! The views of the library's types hold what the values hold, part by part.

use vstd::prelude::*;
use crate::config::parser::{self, Cli, CliError, CliMeaning, CliRequest};
use crate::config::{self, Config, SecretKey};
use crate::json::Json;
use crate::net::IpAddr;
use crate::protocol::commands;
use crate::protocol::greeting::{self, Auth, AuthView, Greeting, GreetingError};
use crate::protocol::token::{self, KeyMacs, LabelledMac, TokenResult, Verdict};
use crate::protocol::trace;
use crate::server::connection::{ConnAction, ConnActionView, Connection, End};
use crate::server::{
    RunEvent, RunEventView, Server, StartAction, StartActionView, StartError, StartEvent,
    StartEventView, Startup,
};
use crate::stream::upgrade::{Upgrade, UpgradeError, UpgradeView};
use crate::stream::{
    self, Incoming, IncomingView, Message, MessageView, Outgoing, OutgoingView, Stream, StreamError,
};
use crate::tls::{self, PrivateKey, PrivateKeyView, TlsError, TlsErrorView};
use crate::{events, net};

verus! {

// ── Optional texts and lists ────────────────────────────────────────────────────
/// An optional text is the text itself, where there is one.
pub proof fn law_optional_texts(s: String, t: &str, ip: IpAddr, e: StreamError)
    ensures
        config::text_option(Some(s)) == Some(s@),
        config::text_option(None) is None,
        events::frame_text(Some(s)) == Some(s@),
        events::frame_text(None) is None,
        events::slice_text(Some(t)) == Some(t@),
        events::slice_text(None) is None,
        stream::line_view(Ok(Some(s))) == Ok::<Option<Seq<char>>, StreamError>(Some(s@)),
        stream::line_view(Ok(None)) == Ok::<Option<Seq<char>>, StreamError>(None),
        stream::line_view(Err(e)) == Err::<Option<Seq<char>>, StreamError>(e),
        trace::source_view(Some((ip, t))) == Some((ip, t@)),
        trace::source_view(None) is None,
{
}

/// The signatures, tags and certificates of a list are its own, one by one.
pub proof fn law_lists(
    macs: Seq<LabelledMac>,
    tags: Seq<KeyMacs>,
    certs: Seq<Vec<u8>>,
    i: int,
)
    requires
        0 <= i < macs.len(),
        i < tags.len(),
        i < certs.len(),
    ensures
        token::labelled(macs).len() == macs.len(),
        token::labelled(macs)[i] == (macs[i].mac@, macs[i].label@),
        token::macs_view(tags).len() == tags.len(),
        token::macs_view(tags)[i].time_mac == tags[i].time_mac@,
        token::macs_view(tags)[i].ip_mac == tags[i].ip_mac@,
        token::macs_view(tags)[i].label == tags[i].label@,
        tls::contents(certs).len() == certs.len(),
        tls::contents(certs)[i] == certs[i]@,
{
}

/// The keys and tags of a list of keys belong to its keys, one by one.
pub proof fn law_key_lists(keys: Seq<SecretKey>, time: Seq<u8>, ip16: Seq<u8>, m: Seq<char>, i: int)
    requires
        0 <= i < keys.len(),
    ensures
        token::v2_macs(keys, time, ip16).len() == keys.len(),
        token::v2_macs(keys, time, ip16)[i].label == keys[i].label@,
        token::v1_macs(keys, m).len() == keys.len(),
        token::v1_macs(keys, m)[i].1 == keys[i].label@,
{
}

// ── Protocol ────────────────────────────────────────────────────────────────────
/// What the commands take in and give out.
pub proof fn law_command_views(s: String, size: usize, terminal: bool, count: usize, byte: u8)
    ensures
        commands::Event::Done@ == commands::EventView::Done,
        commands::Event::Line(s)@ == commands::EventView::Line(s@),
        (commands::Event::Data { count, last_byte: byte })@ == (commands::EventView::Data {
            count,
            last_byte: byte,
        }),
        commands::Action::Send(s)@ == commands::ActionView::Send(s@),
        (commands::Action::SendChunk { size, terminal })@ == (commands::ActionView::SendChunk {
            size,
            terminal,
        }),
        commands::Action::StartClock@ == commands::ActionView::StartClock,
        commands::Action::ReadLine@ == commands::ActionView::ReadLine,
        (commands::Action::ReadData { size })@ == (commands::ActionView::ReadData { size }),
        commands::Action::Quit@ == commands::ActionView::Quit,
        commands::Action::UnexpectedEof@ == commands::ActionView::UnexpectedEof,
        commands::Action::OutOfTurn@ == commands::ActionView::OutOfTurn,
{
}

/// What the greeting takes in, keeps and gives out.
pub proof fn law_greeting_views(
    g: Greeting,
    s: String,
    t: String,
    reason: &'static str,
    secs: u64,
    ip: Option<IpAddr>,
    e: GreetingError,
)
    ensures
        Auth::Pending@ == AuthView::Pending,
        Auth::NotChecked@ == AuthView::NotChecked,
        (Auth::Accepted { label: s })@ == (AuthView::Accepted { label: s@ }),
        (Auth::Rejected { reason, detail: s })@ == (AuthView::Rejected {
            reason: reason@,
            detail: s@,
        }),
        g@.check_token == g.check_token,
        g@.v2_only == g.v2_only,
        g@.max_chunk_size == g.max_chunk_size,
        g@.stage == g.stage,
        g@.token == g.token@,
        g@.auth == g.auth@,
        greeting::Event::Done@ == greeting::EventView::Done,
        greeting::Event::Line(s)@ == greeting::EventView::Line(s@),
        greeting::Event::Peer(ip)@ == greeting::EventView::Peer(ip),
        greeting::Action::Send(s)@ == greeting::ActionView::Send(s@),
        greeting::Action::ReadLine@ == greeting::ActionView::ReadLine,
        greeting::Action::AskPeer@ == greeting::ActionView::AskPeer,
        (greeting::Action::Sleep { secs })@ == (greeting::ActionView::Sleep { secs: secs as nat }),
        (greeting::Action::Finish { uuid: t })@ == (greeting::ActionView::Finish { uuid: t@ }),
        greeting::Action::Fail(e)@ == greeting::ActionView::Fail(e),
{
}

/// What token validation gives out.
pub proof fn law_token_views(secs: u64, s: String)
    ensures
        (TokenResult::Accepted { sleep_secs: secs, label: s })@ == (Verdict::Accepted {
            sleep_secs: secs as nat,
            label: s@,
        }),
        TokenResult::InvalidHmac@ == Verdict::InvalidHmac,
        TokenResult::InvalidIp@ == Verdict::InvalidIp,
        (TokenResult::TooEarly { reason: s })@ == (Verdict::TooEarly { reason: s@ }),
        (TokenResult::TooLate { reason: s })@ == (Verdict::TooLate { reason: s@ }),
        TokenResult::ParseError@ == Verdict::ParseError,
        TokenResult::V2Required@ == Verdict::V2Required,
{
}

// ── Streams ─────────────────────────────────────────────────────────────────────
/// What connections take in and give out.
pub proof fn law_stream_views(s: String, b: Vec<u8>, m: Message, x: Stream, e: UpgradeError)
    ensures
        Message::Text(s)@ == MessageView::Text(s@),
        Message::Binary(b)@ == MessageView::Binary(b@),
        Message::Close@ == MessageView::Close,
        Message::Control@ == MessageView::Control,
        Incoming::Line(s)@ == IncomingView::Line(s@),
        Incoming::Frame(m)@ == IncomingView::Frame(m@),
        Outgoing::Bytes(b)@ == OutgoingView::Bytes(b@),
        Outgoing::Frame(m)@ == OutgoingView::Frame(m@),
        (Upgrade::Accepted { stream: x, response: s })@ == (UpgradeView::Accepted {
            stream: x,
            response: s@,
        }),
        (Upgrade::Refused { response: Some(s), error: e })@ == (UpgradeView::Refused {
            response: Some(s@),
            error: e,
        }),
        (Upgrade::Refused { response: None, error: e })@ == (UpgradeView::Refused {
            response: None,
            error: e,
        }),
{
}

// ── Server ──────────────────────────────────────────────────────────────────────
/// What the startup and the accept loop take in, keep and give out.
pub proof fn law_server_views(
    u: Startup,
    r: Server,
    s: String,
    ok: bool,
    index: usize,
    e: StartError,
    ready: Vec<usize>,
)
    ensures
        u@.check_token == u.check_token,
        u@.tls_paths == u.tls_paths,
        u@.tcp_addrs == u.tcp_addrs,
        u@.tls_addrs == u.tls_addrs,
        u@.num_workers == u.num_workers,
        u@.stage == u.stage,
        u@.keys == parser::key_texts(u.keys@),
        u@.tls_ready == u.tls_ready,
        StartEvent::Begin@ == StartEventView::Begin,
        StartEvent::KeyFile(Some(s))@ == StartEventView::KeyFile(Some(s@)),
        StartEvent::KeyFile(None)@ == StartEventView::KeyFile(None),
        StartEvent::TlsBuilt(ok)@ == StartEventView::TlsBuilt(ok),
        StartEvent::Bound(ok)@ == StartEventView::Bound(ok),
        StartAction::ReadKeys@ == StartActionView::ReadKeys,
        StartAction::BuildTls@ == StartActionView::BuildTls,
        (StartAction::BindTcp { index })@ == (StartActionView::BindTcp { index }),
        (StartAction::BindTls { index })@ == (StartActionView::BindTls { index }),
        StartAction::Run(r)@ == StartActionView::Run(r@),
        StartAction::Fail(e)@ == StartActionView::Fail(e),
        r@.tcp_listeners == r.tcp_listeners,
        r@.tls_listeners == r.tls_listeners,
        r@.num_workers == r.num_workers,
        r@.next_worker == r.next_worker,
        r@.stage == r.stage,
        r@.ready == r.ready@,
        r@.drained == r.drained,
        RunEvent::Begin@ == RunEventView::Begin,
        (RunEvent::Polled { shutdown: ok, ready })@ == (RunEventView::Polled {
            shutdown: ok,
            ready: ready@,
        }),
        (RunEvent::Accepted { usable: ok })@ == (RunEventView::Accepted { usable: ok }),
        RunEvent::NotAccepted@ == RunEventView::NotAccepted,
        RunEvent::Dispatched@ == RunEventView::Dispatched,
{
}

/// What a connection keeps and gives out.
pub proof fn law_connection_views(c: Connection, s: String, is_tls: bool, end: End)
    ensures
        c@.client == c.client@,
        c@.is_tls == c.is_tls,
        c@.tls_ready == c.tls_ready,
        c@.stage == c.stage,
        (ConnAction::Announce { client: s, is_tls })@ == (ConnActionView::Announce {
            client: s@,
            is_tls,
        }),
        ConnAction::SetTimeouts@ == ConnActionView::SetTimeouts,
        ConnAction::WrapPlain@ == ConnActionView::WrapPlain,
        ConnAction::WrapTls@ == ConnActionView::WrapTls,
        ConnAction::Upgrade@ == ConnActionView::Upgrade,
        (ConnAction::Greet { client: s })@ == (ConnActionView::Greet { client: s@ }),
        ConnAction::RunCommands@ == ConnActionView::RunCommands,
        ConnAction::Close(end)@ == ConnActionView::Close(end),
{
}

/// What the TLS configuration gives out.
pub proof fn law_tls_views(k: Vec<u8>, s: String, certs: Vec<Vec<u8>>)
    ensures
        PrivateKey::Pkcs8(k)@ == PrivateKeyView::Pkcs8(k@),
        PrivateKey::Pkcs1(k)@ == PrivateKeyView::Pkcs1(k@),
        TlsError::CertFile@ == TlsErrorView::CertFile,
        TlsError::BadCerts(s)@ == TlsErrorView::BadCerts(s@),
        TlsError::NoCertificates@ == TlsErrorView::NoCertificates,
        TlsError::KeyFile@ == TlsErrorView::KeyFile,
        TlsError::BadPkcs8Key(s)@ == TlsErrorView::BadPkcs8Key(s@),
        TlsError::BadRsaKey(s)@ == TlsErrorView::BadRsaKey(s@),
        TlsError::NoPrivateKey@ == TlsErrorView::NoPrivateKey,
        tls::certs_view(Ok(certs)) == Ok::<Seq<Seq<u8>>, Seq<char>>(tls::contents(certs@)),
        tls::certs_view(Err(s)) == Err::<Seq<Seq<u8>>, Seq<char>>(s@),
        tls::key_view(Some(Ok(k))) == Some(Ok::<Seq<u8>, Seq<char>>(k@)),
        tls::key_view(Some(Err(s))) == Some(Err::<Seq<u8>, Seq<char>>(s@)),
        tls::key_view(None) is None,
{
}

// ── Configuration ───────────────────────────────────────────────────────────────
/// What a configuration and a command line say.
pub proof fn law_config_views(c: Config, cli: Cli, e: CliError, j: Json)
    ensures
        c@.cert_path == config::text_option(c.cert_path),
        c@.key_path == config::text_option(c.key_path),
        c@.tls13_only == c.tls13_only,
        c@.num_workers == c.num_workers,
        c@.secret_key_path == c.secret_key_path@,
        c@.check_token == c.check_token,
        c@.v2_only == c.v2_only,
        c@.max_chunk_size == c.max_chunk_size,
        c@.log_level == c.log_level,
        c@.syslog_target == c.syslog_target,
        c@.log_full_ip == c.log_full_ip,
        cli@.config == cli.config@,
        cli@.tcp_addrs == cli.tcp_addrs@,
        cli@.tls_addrs == cli.tls_addrs@,
        parser::meaning(Ok(CliRequest::Run(cli))) == CliMeaning::Run(cli@),
        parser::meaning(Ok(CliRequest::Help)) == CliMeaning::Help,
        parser::meaning(Ok(CliRequest::Version)) == CliMeaning::Version,
        parser::meaning(Err(e)) == CliMeaning::Refused(e),
        j@ == j.text@,
{
}

/// The unspecified addresses are all zeros, and an address made of an IP address and a port
/// holds just these.
pub proof fn law_addresses(ip: IpAddr, port: u16)
    ensures
        net::unspecified_v4() == IpAddr::V4([0u8, 0, 0, 0]),
        net::unspecified_v6() == IpAddr::V6([0u8, 0, 0, 0, 0, 0, 0, 0, 0, 0, 0, 0, 0, 0, 0, 0]),
        net::SocketAddr::spec_new(ip, port).ip == ip,
        net::SocketAddr::spec_new(ip, port).port == port,
        net::SocketAddr::spec_new(ip, port).scope_id == 0,
{
}

} // verus!
