//! The secret key file, listen addresses, and the command line.

use vstd::prelude::*;
use crate::config::constants::DEFAULT_TLS_PORT;
use crate::config::level::{self, parse_level};
use crate::config::{self, Config, SecretKey, Settings};
use crate::net::{self, any_v4, any_v6, IpAddr, SocketAddr};
use crate::number::{self, read_unsigned};
use crate::text::{self, chars_of, cut_once, same_text, split_lines, trimmed};

verus! {

// ── Secret key file ─────────────────────────────────────────────────────────────
/// A key file without a single valid key.
#[derive(Clone, Copy, Debug, PartialEq, Eq, Structural)]
pub struct NoValidKeys;

/// The key and label that a line of the key file holds, if it holds one. White space around
/// the line is dropped. A line of fewer than 5 characters, or one that starts with `#`, holds
/// none. The label is what follows the first space.
pub open spec fn line_key(line: Seq<char>) -> Option<(Seq<char>, Seq<char>)> {
    let t = text::trim(line);
    if t.len() < 5 || t[0] == '#' {
        None
    } else {
        match text::split_once(t, " "@) {
            Some((key, label)) => Some((key, text::trim(label))),
            None => Some((t, seq![])),
        }
    }
}

/// The keys and labels of some lines, in order.
pub open spec fn lines_keys(lines: Seq<Seq<char>>) -> Seq<(Seq<char>, Seq<char>)>
    decreases lines.len(),
{
    if lines.len() == 0 {
        seq![]
    } else {
        match line_key(lines.last()) {
            Some(k) => lines_keys(lines.drop_last()).push(k),
            None => lines_keys(lines.drop_last()),
        }
    }
}

/// The texts of keys and labels.
pub open spec fn key_texts(keys: Seq<SecretKey>) -> Seq<(Seq<char>, Seq<char>)> {
    keys.map_values(|k: SecretKey| (k.key@, k.label@))
}

fn read_key_line(line: &str) -> (r: Option<SecretKey>)
    ensures
        match r {
            Some(k) => line_key(line@) == Some((k.key@, k.label@)),
            None => line_key(line@) is None,
        },
{
    let t = trimmed(line);
    let cs = chars_of(t);
    if cs.len() < 5 || cs[0] == '#' {
        return None;
    }
    match cut_once(t, " ") {
        Some((key, label)) => Some(
            SecretKey { key: key.to_owned(), label: trimmed(label).to_owned() },
        ),
        None => Some(SecretKey { key: t.to_owned(), label: String::new() }),
    }
}

/// Reads HMAC secret keys from the content of a key file.
///
/// File format (one key per line, optional label after a space):
/// ```text
/// mysecretkey1 production
/// oldsecretkey staging
/// ```
/// Lines shorter than 5 characters or starting with `#` are skipped.
/// Multiple keys allow key rotation: the server tries all keys and accepts
/// whichever matches.
pub fn read_secret_keys(content: &str) -> (r: Result<Vec<SecretKey>, NoValidKeys>)
    ensures
        match r {
            Ok(keys) => key_texts(keys@) == lines_keys(text::lines(content@)) && keys@.len() > 0,
            Err(_) => lines_keys(text::lines(content@)).len() == 0,
        },
{
    let lines = split_lines(content);
    let ghost all = text::lines(content@);
    let mut keys: Vec<SecretKey> = Vec::new();
    for i in 0..lines.len()
        invariant
            all == text::texts(lines@),
            key_texts(keys@) == lines_keys(all.take(i as int)),
    {
        let ghost before = keys@;
        assert(all.take(i + 1).drop_last() == all.take(i as int));
        assert(all.take(i + 1).last() == lines@[i as int]@);
        if let Some(k) = read_key_line(lines[i].as_str()) {
            keys.push(k);
            assert(key_texts(keys@) == key_texts(before).push((k.key@, k.label@)));
        }
    }
    assert(all.take(lines@.len() as int) == all);
    assert(key_texts(keys@).len() == keys@.len());
    if keys.is_empty() {
        Err(NoValidKeys)
    } else {
        Ok(keys)
    }
}

// ── Addresses ───────────────────────────────────────────────────────────────────
/// What the system's address parser makes of a text: of the text without surrounding white
/// space as a socket address and as an IP address, of the text in its brackets as an IPv6
/// address, and of the text before its first colon as an IPv4 address.
#[derive(Clone, Copy, Debug)]
pub struct AddrReading {
    pub socket: Option<SocketAddr>,
    pub ip: Option<IpAddr>,
    pub v6: Option<[u8; 16]>,
    pub v4: Option<[u8; 4]>,
}

/// The texts that an `AddrReading` is about.
pub struct AddrTexts {
    pub whole: String,
    pub bracketed: Option<String>,
    pub before_colon: Option<String>,
}

/// The parts of `[address]:port`: what stands between the opening bracket and the last
/// closing one, and what follows the colon after that.
pub open spec fn bracket_parts(t: Seq<char>) -> Option<(Seq<char>, Seq<char>)> {
    match text::last_of(t, ']') {
        Some(e) => if t[0] == '[' && 1 <= e && e + 1 < t.len() && t[e + 1] == ':' {
            Some((t.subrange(1, e), t.skip(e + 2)))
        } else {
            None
        },
        None => None,
    }
}

/// The port number that `s` spells.
pub open spec fn port_of(s: Seq<char>) -> Option<nat> {
    number::unsigned(s, u16::MAX as nat)
}

/// The listen address that `s` names: `[IPv6]:port`, `IPv4:port`, any other form of a socket
/// address that the system knows, or a bare port, which stands for `0.0.0.0:port`.
pub open spec fn listen_addr(s: Seq<char>, reading: AddrReading) -> Option<SocketAddr> {
    let t = text::trim(s);
    let bracketed = match bracket_parts(t) {
        Some((_, port)) => match (reading.v6, port_of(port)) {
            (Some(ip), Some(p)) => Some(SocketAddr::spec_new(IpAddr::V6(ip), p as u16)),
            _ => None,
        },
        None => None,
    };
    let dotted = match text::split_once(t, ":"@) {
        Some((_, port)) => match (reading.v4, port_of(port)) {
            (Some(ip), Some(p)) => Some(SocketAddr::spec_new(IpAddr::V4(ip), p as u16)),
            _ => None,
        },
        None => None,
    };
    if reading.socket is Some {
        reading.socket
    } else if bracketed is Some {
        bracketed
    } else if dotted is Some {
        dotted
    } else {
        match port_of(t) {
            Some(p) => Some(SocketAddr::spec_new(net::unspecified_v4(), p as u16)),
            None => None,
        }
    }
}

/// The syslog target that `s` names: a socket address, or an IP address with port 514.
pub open spec fn syslog_addr(reading: AddrReading) -> Option<SocketAddr> {
    if reading.socket is Some {
        reading.socket
    } else {
        match reading.ip {
            Some(ip) => Some(SocketAddr::spec_new(ip, 514)),
            None => None,
        }
    }
}

fn cut_brackets(t: &str) -> (r: Option<(String, String)>)
    ensures
        match r {
            Some(p) => bracket_parts(t@) == Some((p.0@, p.1@)),
            None => bracket_parts(t@) is None,
        },
{
    let cs = chars_of(t);
    let n: usize = cs.len();
    match text::last_position(&cs, ']') {
        Some(e) => {
            if cs[0] == '[' && 1 <= e && e < n - 1 && cs[e + 1] == ':' {
                let inner = t.substring_char(1, e);
                let port = t.substring_char(e + 2, n);
                assert(t@.skip(e + 2) == t@.subrange(e + 2, n as int));
                Some((inner.to_owned(), port.to_owned()))
            } else {
                None
            }
        },
        None => None,
    }
}

/// The texts of which `parse_addr` and `parse_syslog_target` want the system's reading.
pub fn addr_texts(s: &str) -> (r: AddrTexts)
    ensures
        r.whole@ == text::trim(s@),
        match r.bracketed {
            Some(b) => bracket_parts(text::trim(s@)) is Some && b@ == (bracket_parts(
                text::trim(s@),
            )->0).0,
            None => bracket_parts(text::trim(s@)) is None,
        },
        match r.before_colon {
            Some(b) => text::split_once(text::trim(s@), ":"@) is Some && b@ == (text::split_once(
                text::trim(s@),
                ":"@,
            )->0).0,
            None => text::split_once(text::trim(s@), ":"@) is None,
        },
{
    let t = trimmed(s);
    let bracketed = match cut_brackets(t) {
        Some((inner, _)) => Some(inner),
        None => None,
    };
    let before_colon = match cut_once(t, ":") {
        Some((ip, _)) => Some(ip.to_owned()),
        None => None,
    };
    AddrTexts { whole: t.to_owned(), bracketed, before_colon }
}

fn read_port(s: &str) -> (r: Option<u16>)
    ensures
        match r {
            Some(p) => port_of(s@) == Some(p as nat),
            None => port_of(s@) is None,
        },
{
    match read_unsigned(s, 65535) {
        Some(p) => Some(p as u16),
        None => None,
    }
}

/// Parses a listen address: bare port, IPv4:port, `[IPv6]:port`. `reading` is what the
/// system's address parser makes of its parts.
pub fn parse_addr(s: &str, reading: &AddrReading) -> (r: Option<SocketAddr>)
    ensures
        r == listen_addr(s@, *reading),
{
    let t = trimmed(s);
    if let Some(sa) = reading.socket {
        return Some(sa);
    }
    if let Some((_, port_str)) = cut_brackets(t) {
        if let Some(port) = read_port(port_str.as_str()) {
            if let Some(ip) = reading.v6 {
                return Some(SocketAddr::new(IpAddr::V6(ip), port));
            }
        }
    }
    if let Some((_, port_s)) = cut_once(t, ":") {
        if let Some(port) = read_port(port_s) {
            if let Some(ip) = reading.v4 {
                return Some(SocketAddr::new(IpAddr::V4(ip), port));
            }
        }
    }
    match read_port(t) {
        Some(port) => Some(SocketAddr::new(any_v4(), port)),
        None => None,
    }
}

/// Parses a syslog target of the form `IP` or `IP:port` (port defaults to 514).
/// `reading` is what the system's address parser makes of the text.
pub fn parse_syslog_target(reading: &AddrReading) -> (r: Option<SocketAddr>)
    ensures
        r == syslog_addr(*reading),
{
    if let Some(sa) = reading.socket {
        return Some(sa);
    }
    match reading.ip {
        Some(ip) => Some(SocketAddr::new(ip, 514)),
        None => None,
    }
}

// ── Command line ────────────────────────────────────────────────────────────────
/// Fully-resolved configuration parsed from the command line: the runtime
/// [`Config`] plus the listen addresses (which are not part of `Config`).
pub struct Cli {
    pub config: Config,
    pub tcp_addrs: Vec<SocketAddr>,
    pub tls_addrs: Vec<SocketAddr>,
}

/// What a `Cli` says.
#[verifier::ext_equal]
pub struct CliView {
    pub config: Settings,
    pub tcp_addrs: Seq<SocketAddr>,
    pub tls_addrs: Seq<SocketAddr>,
}

impl View for Cli {
    type V = CliView;

    open spec fn view(&self) -> CliView {
        CliView {
            config: self.config@,
            tcp_addrs: self.tcp_addrs@,
            tls_addrs: self.tls_addrs@,
        }
    }
}

/// What the command line asks for.
pub enum CliRequest {
    /// Run the server.
    Run(Cli),
    /// Print the help text.
    Help,
    /// Print the version.
    Version,
}

/// A command line that cannot be followed. Each variant holds the position of the argument
/// at fault.
#[derive(Clone, Copy, Debug, PartialEq, Eq, Structural)]
pub enum CliError {
    InvalidAddress(usize),
    InvalidSyslogTarget(usize),
    InvalidWorkerCount(usize),
    InvalidLogLevel(usize),
    UnknownOption(usize),
}

/// What a command line comes to.
pub enum CliMeaning {
    Run(CliView),
    Help,
    Version,
    Refused(CliError),
}

/// What the result of reading a command line says.
pub open spec fn meaning(r: Result<CliRequest, CliError>) -> CliMeaning {
    match r {
        Ok(CliRequest::Run(cli)) => CliMeaning::Run(cli@),
        Ok(CliRequest::Help) => CliMeaning::Help,
        Ok(CliRequest::Version) => CliMeaning::Version,
        Err(e) => CliMeaning::Refused(e),
    }
}

/// The settings and addresses with the TLS addresses filled in: without any, TLS listens on
/// `[::]:443` and `0.0.0.0:443`.
pub open spec fn with_tls_default(c: CliView) -> CliView {
    if c.tls_addrs.len() == 0 {
        CliView {
            tls_addrs: seq![
                SocketAddr::spec_new(net::unspecified_v6(), DEFAULT_TLS_PORT),
                SocketAddr::spec_new(net::unspecified_v4(), DEFAULT_TLS_PORT),
            ],
            ..c
        }
    } else {
        c
    }
}

/// Where reading stands after one option.
pub enum CliStep {
    /// It goes on at this position, with what has been asked for so far.
    More(int, CliView),
    /// It is over.
    Done(CliMeaning),
}

/// Reads the option at position `i`, when those before came to `c`. An option that takes a
/// value and stands last is passed over.
pub open spec fn cli_step(
    args: Seq<Seq<char>>,
    readings: Seq<AddrReading>,
    i: int,
    c: CliView,
) -> CliStep {
    let a = args[i];
    let valued = a == "-l"@ || a == "-L"@ || a == "-c"@ || a == "-k"@ || a == "-S"@ || a == "-t"@
        || a == "-log"@ || a == "--syslog"@;
    if valued && i + 1 >= args.len() {
        CliStep::More(i + 1, c)
    } else if valued {
        match option_value(a, args[i + 1], readings[i + 1], (i + 1) as usize, c) {
            Ok(d) => CliStep::More(i + 2, d),
            Err(e) => CliStep::Done(CliMeaning::Refused(e)),
        }
    } else if a == "--help"@ || a == "-h"@ {
        CliStep::Done(CliMeaning::Help)
    } else if a == "-v"@ || a == "--version"@ {
        CliStep::Done(CliMeaning::Version)
    } else {
        match option_switch(a, c) {
            Some(d) => CliStep::More(i + 1, d),
            None => CliStep::Done(CliMeaning::Refused(CliError::UnknownOption(i as usize))),
        }
    }
}

/// What the option `a` with the value `v`, at position `at`, makes of `c`.
pub open spec fn option_value(
    a: Seq<char>,
    v: Seq<char>,
    reading: AddrReading,
    at: usize,
    c: CliView,
) -> Result<CliView, CliError> {
    if a == "-l"@ {
        match listen_addr(v, reading) {
            Some(x) => Ok(CliView { tcp_addrs: c.tcp_addrs.push(x), ..c }),
            None => Err(CliError::InvalidAddress(at)),
        }
    } else if a == "-L"@ {
        match listen_addr(v, reading) {
            Some(x) => Ok(CliView { tls_addrs: c.tls_addrs.push(x), ..c }),
            None => Err(CliError::InvalidAddress(at)),
        }
    } else if a == "-c"@ {
        Ok(CliView { config: Settings { cert_path: Some(v), ..c.config }, ..c })
    } else if a == "-k"@ {
        Ok(CliView { config: Settings { key_path: Some(v), ..c.config }, ..c })
    } else if a == "-S"@ {
        Ok(CliView { config: Settings { secret_key_path: v, ..c.config }, ..c })
    } else if a == "-t"@ {
        match number::unsigned(v, usize::MAX as nat) {
            Some(n) => Ok(
                CliView { config: Settings { num_workers: n as usize, ..c.config }, ..c },
            ),
            None => Err(CliError::InvalidWorkerCount(at)),
        }
    } else if a == "-log"@ {
        match level::level_named(v) {
            Some(l) => Ok(CliView { config: Settings { log_level: l, ..c.config }, ..c }),
            None => Err(CliError::InvalidLogLevel(at)),
        }
    } else {
        match syslog_addr(reading) {
            Some(x) => Ok(
                CliView { config: Settings { syslog_target: Some(x), ..c.config }, ..c },
            ),
            None => Err(CliError::InvalidSyslogTarget(at)),
        }
    }
}

/// What the switch `a` makes of `c`, if it is one. `-s`, "start as server", changes nothing.
pub open spec fn option_switch(a: Seq<char>, c: CliView) -> Option<CliView> {
    if a == "--tls13-only"@ {
        Some(CliView { config: Settings { tls13_only: true, ..c.config }, ..c })
    } else if a == "-s"@ {
        Some(c)
    } else if a == "--no-token-check"@ {
        Some(CliView { config: Settings { check_token: false, ..c.config }, ..c })
    } else if a == "--v2-only"@ {
        Some(CliView { config: Settings { v2_only: true, ..c.config }, ..c })
    } else if a == "--log-full-ip"@ {
        Some(CliView { config: Settings { log_full_ip: true, ..c.config }, ..c })
    } else {
        None
    }
}

/// What the arguments from position `i` on come to, when those before came to `c`.
pub open spec fn cli_from(
    args: Seq<Seq<char>>,
    readings: Seq<AddrReading>,
    i: int,
    c: CliView,
) -> CliMeaning
    decreases args.len() - i + 1,
{
    if i < 0 || i >= args.len() {
        CliMeaning::Run(with_tls_default(c))
    } else {
        match cli_step(args, readings, i, c) {
            CliStep::More(j, d) => cli_from(args, readings, j, d),
            CliStep::Done(m) => m,
        }
    }
}

/// The settings and addresses of an empty command line on top of a configuration, before the
/// TLS default.
pub open spec fn cli_on(base: Settings) -> CliView {
    CliView { config: base, tcp_addrs: seq![], tls_addrs: seq![] }
}

/// The settings and addresses of an empty command line, before the TLS default.
pub open spec fn cli_start() -> CliView {
    cli_on(config::default_settings())
}

/// Applies the option `a` with the value `v`, which stands at position `at`.
fn apply_value(
    cli: &mut Cli,
    a: &str,
    v: &String,
    reading: &AddrReading,
    at: usize,
) -> (r: Result<(), CliError>)
    ensures
        match r {
            Ok(_) => option_value(a@, v@, *reading, at, old(cli)@) == Ok::<CliView, CliError>(
                final(cli)@,
            ),
            Err(e) => option_value(a@, v@, *reading, at, old(cli)@) == Err::<CliView, CliError>(e),
        },
{
    if same_text(a, "-l") {
        match parse_addr(v.as_str(), reading) {
            Some(x) => cli.tcp_addrs.push(x),
            None => return Err(CliError::InvalidAddress(at)),
        }
    } else if same_text(a, "-L") {
        match parse_addr(v.as_str(), reading) {
            Some(x) => cli.tls_addrs.push(x),
            None => return Err(CliError::InvalidAddress(at)),
        }
    } else if same_text(a, "-c") {
        cli.config.cert_path = Some(v.clone());
    } else if same_text(a, "-k") {
        cli.config.key_path = Some(v.clone());
    } else if same_text(a, "-S") {
        cli.config.secret_key_path = v.clone();
    } else if same_text(a, "-t") {
        match read_unsigned(v.as_str(), usize::MAX as u64) {
            Some(w) => cli.config.num_workers = w as usize,
            None => return Err(CliError::InvalidWorkerCount(at)),
        }
    } else if same_text(a, "-log") {
        match parse_level(v.as_str()) {
            Some(l) => cli.config.log_level = l,
            None => return Err(CliError::InvalidLogLevel(at)),
        }
    } else {
        match parse_syslog_target(reading) {
            Some(x) => cli.config.syslog_target = Some(x),
            None => return Err(CliError::InvalidSyslogTarget(at)),
        }
    }
    Ok(())
}

/// Applies the switch `a`, if it is one.
fn apply_switch(cli: &mut Cli, a: &str) -> (r: bool)
    ensures
        match option_switch(a@, old(cli)@) {
            Some(d) => r && final(cli)@ == d,
            None => !r,
        },
{
    if same_text(a, "--tls13-only") {
        cli.config.tls13_only = true;
    } else if same_text(a, "-s") {
    } else if same_text(a, "--no-token-check") {
        cli.config.check_token = false;
    } else if same_text(a, "--v2-only") {
        cli.config.v2_only = true;
    } else if same_text(a, "--log-full-ip") {
        cli.config.log_full_ip = true;
    } else {
        return false;
    }
    true
}

/// Parses the command-line arguments into the final configuration. All settings start from
/// the built-in defaults and are overridden by flags, from left to right. `readings` holds
/// what the system's address parser makes of each argument.
pub fn parse_cli(args: &[String], readings: &[AddrReading]) -> (r: Result<CliRequest, CliError>)
    requires
        readings@.len() == args@.len(),
    ensures
        meaning(r) == cli_from(text::texts(args@), readings@, 0, cli_start()),
{
    parse_cli_on(Config::default(), args, readings)
}

/// Parses the command-line arguments on top of a configuration, such as that of the
/// configuration file.
pub fn parse_cli_on(base: Config, args: &[String], readings: &[AddrReading]) -> (r: Result<
    CliRequest,
    CliError,
>)
    requires
        readings@.len() == args@.len(),
    ensures
        meaning(r) == cli_from(text::texts(args@), readings@, 0, cli_on(base@)),
{
    let ghost start = cli_on(base@);
    let mut cli = Cli { config: base, tcp_addrs: Vec::new(), tls_addrs: Vec::new() };
    assert(cli@ == start);
    let ghost texts = text::texts(args@);
    let n: usize = args.len();
    let mut i: usize = 0;
    while i < n
        invariant
            texts == text::texts(args@),
            start == cli_on(base@),
            n == args@.len(),
            readings@.len() == n,
            0 <= i <= n,
            cli_from(texts, readings@, 0, start) == cli_from(
                texts,
                readings@,
                i as int,
                cli@,
            ),
        decreases n - i,
    {
        let a = args[i].as_str();
        assert(texts[i as int] == a@);
        if same_text(a, "-l") || same_text(a, "-L") || same_text(a, "-c") || same_text(a, "-k")
            || same_text(a, "-S") || same_text(a, "-t") || same_text(a, "-log") || same_text(
            a,
            "--syslog",
        ) {
            if i == n - 1 {
                i += 1;
            } else {
                assert(texts[i + 1] == args@[i + 1]@);
                if let Err(e) = apply_value(&mut cli, a, &args[i + 1], &readings[i + 1], i + 1) {
                    return Err(e);
                }
                i += 2;
            }
        } else if same_text(a, "--help") || same_text(a, "-h") {
            return Ok(CliRequest::Help);
        } else if same_text(a, "-v") || same_text(a, "--version") {
            return Ok(CliRequest::Version);
        } else {
            if !apply_switch(&mut cli, a) {
                return Err(CliError::UnknownOption(i));
            }
            i += 1;
        }
    }
    // TCP has no default: plain TCP must be explicitly requested with -l.
    // TLS defaults to both IPv6 and IPv4 on the default TLS port.
    let ghost end = cli@;
    if cli.tls_addrs.is_empty() {
        cli.tls_addrs.push(SocketAddr::new(any_v6(), DEFAULT_TLS_PORT));
        cli.tls_addrs.push(SocketAddr::new(any_v4(), DEFAULT_TLS_PORT));
    }
    assert(cli@ =~= with_tls_default(end));
    Ok(CliRequest::Run(cli))
}

// ── Laws ────────────────────────────────────────────────────────────────────────
/// `d` differs from `c` only in what the options among `args` may ask for.
spec fn keeps(args: Seq<Seq<char>>, c: CliView, d: CliView) -> bool {
    &&& c.config.v2_only ==> d.config.v2_only
    &&& c.config.log_full_ip ==> d.config.log_full_ip
    &&& !args.contains("-log"@) ==> d.config.log_level == c.config.log_level
    &&& !args.contains("--no-token-check"@) ==> d.config.check_token == c.config.check_token
    &&& !args.contains("--v2-only"@) ==> d.config.v2_only == c.config.v2_only
    &&& !args.contains("--log-full-ip"@) ==> d.config.log_full_ip == c.config.log_full_ip
    &&& !args.contains("--syslog"@) ==> d.config.syslog_target == c.config.syslog_target
    &&& !args.contains("-l"@) ==> d.tcp_addrs == c.tcp_addrs
    &&& !args.contains("-L"@) ==> d.tls_addrs == c.tls_addrs
}

proof fn lemma_step_keeps(args: Seq<Seq<char>>, readings: Seq<AddrReading>, i: int, c: CliView)
    requires
        0 <= i < args.len(),
    ensures
        match cli_step(args, readings, i, c) {
            CliStep::More(j, d) => i < j <= i + 2 && keeps(args, c, d),
            CliStep::Done(m) => !(m is Run),
        },
{
    assert(args.contains(args[i]));
}

proof fn lemma_cli_keeps(args: Seq<Seq<char>>, readings: Seq<AddrReading>, i: int, c: CliView)
    requires
        0 <= i,
    ensures
        cli_from(args, readings, i, c) matches CliMeaning::Run(r) ==> exists|d: CliView|
            keeps(args, c, d) && r == #[trigger] with_tls_default(d),
    decreases args.len() - i + 1,
{
    if i < args.len() {
        lemma_step_keeps(args, readings, i, c);
        if let CliStep::More(j, d) = cli_step(args, readings, i, c) {
            lemma_cli_keeps(args, readings, j, d);
            if let CliMeaning::Run(r) = cli_from(args, readings, i, c) {
                let e = choose|e: CliView| keeps(args, d, e) && r == #[trigger] with_tls_default(e);
                assert(keeps(args, c, e) && r == with_tls_default(e));
            }
        }
    } else {
        assert(keeps(args, c, c));
    }
}

/// The server has a TLS address in any case, those of `[::]:443` and `0.0.0.0:443` when none
/// is asked for; plain TCP, remote events and full client addresses are off, tokens are
/// checked and both versions accepted, unless the command line says otherwise.
pub proof fn law_cli_defaults(args: Seq<Seq<char>>, readings: Seq<AddrReading>)
    ensures
        cli_from(args, readings, 0, cli_start()) matches CliMeaning::Run(r) ==> {
            &&& r.tls_addrs.len() > 0
            &&& !args.contains("-l"@) ==> r.tcp_addrs.len() == 0
            &&& !args.contains("-L"@) ==> r.tls_addrs == seq![
                SocketAddr::spec_new(net::unspecified_v6(), DEFAULT_TLS_PORT),
                SocketAddr::spec_new(net::unspecified_v4(), DEFAULT_TLS_PORT),
            ]
            &&& !args.contains("--no-token-check"@) ==> r.config.check_token
            &&& !args.contains("--v2-only"@) ==> !r.config.v2_only
            &&& !args.contains("--syslog"@) ==> r.config.syslog_target is None
            &&& !args.contains("--log-full-ip"@) ==> !r.config.log_full_ip
        },
{
    lemma_cli_keeps(args, readings, 0, cli_start());
}

/// The command line only tightens `v2_only` and only adds to `log_full_ip` of the
/// configuration it is read on top of, and leaves what it does not name as it is there.
pub proof fn law_cli_builds_on_its_base(
    args: Seq<Seq<char>>,
    readings: Seq<AddrReading>,
    base: Settings,
)
    ensures
        cli_from(args, readings, 0, cli_on(base)) matches CliMeaning::Run(r) ==> {
            &&& base.v2_only ==> r.config.v2_only
            &&& base.log_full_ip ==> r.config.log_full_ip
            &&& !args.contains("--v2-only"@) ==> r.config.v2_only == base.v2_only
            &&& !args.contains("--log-full-ip"@) ==> r.config.log_full_ip == base.log_full_ip
            &&& !args.contains("--syslog"@) ==> r.config.syslog_target == base.syslog_target
            &&& !args.contains("-log"@) ==> r.config.log_level == base.log_level
            &&& !args.contains("--no-token-check"@) ==> r.config.check_token == base.check_token
        },
{
    lemma_cli_keeps(args, readings, 0, cli_on(base));
}

/// `--v2-only` restricts the server to v2 tokens for good: nothing that follows lifts it.
pub proof fn law_v2_only_stays(args: Seq<Seq<char>>, readings: Seq<AddrReading>, i: int, c: CliView)
    requires
        0 <= i < args.len(),
        args[i] == "--v2-only"@,
    ensures
        cli_from(args, readings, i, c) matches CliMeaning::Run(r) ==> r.config.v2_only,
{
    reveal_strlit("--v2-only");
    reveal_strlit("-l");
    reveal_strlit("-L");
    reveal_strlit("-c");
    reveal_strlit("-k");
    reveal_strlit("-S");
    reveal_strlit("-t");
    reveal_strlit("-log");
    reveal_strlit("--syslog");
    reveal_strlit("--help");
    reveal_strlit("-h");
    reveal_strlit("-v");
    reveal_strlit("--version");
    reveal_strlit("--tls13-only");
    reveal_strlit("-s");
    reveal_strlit("--no-token-check");
    let a = "--v2-only"@;
    assert(a.len() == 9 && "--version"@.len() == 9 && a[3] == '2' && "--version"@[3] == 'e');
    let d = CliView { config: Settings { v2_only: true, ..c.config }, ..c };
    assert(cli_step(args, readings, i, c) == CliStep::More(i + 1, d));
    lemma_cli_keeps(args, readings, i + 1, d);
}

} // verus!
