//! What each option of the command line does, and what an address text comes to.

use vstd::prelude::*;
use crate::config::constants::DEFAULT_TLS_PORT;
use crate::config::level;
use crate::config::parser::{self, AddrReading, CliError, CliMeaning, CliView};
use crate::config::Settings;
use crate::net::{IpAddr, SocketAddr};
use crate::text_laws::{self, law_last_of, law_split_at_char, law_trim};
use crate::{number, text};

verus! {

// ── Addresses ───────────────────────────────────────────────────────────────────
proof fn lemma_digits_hold_no_mark(n: nat)
    ensures
        !number::dec(n).contains(':'),
        !number::dec(n).contains(']'),
        text_laws::is_word(number::dec(n)),
{
    let d = number::dec(n);
    number::law_decimal_roundtrip(n);
    text_laws::lemma_decimal_is_word(n);
    assert forall|i: int| 0 <= i < d.len() implies d[i] != ':' && d[i] != ']' by {
        assert(number::is_digit(d[i]));
    }
}

/// What the system reads as a socket address is taken as it is.
pub proof fn law_socket_address_is_taken(s: Seq<char>, reading: AddrReading, x: SocketAddr)
    requires
        reading.socket == Some(x),
    ensures
        parser::listen_addr(s, reading) == Some(x),
        parser::syslog_addr(reading) == Some(x),
{
}

/// A bare port listens on that port of `0.0.0.0`.
pub proof fn law_bare_port(pre: Seq<char>, port: u16, post: Seq<char>, reading: AddrReading)
    requires
        reading.socket is None,
        text_laws::all_white(pre),
        text_laws::all_white(post),
    ensures
        parser::listen_addr(pre + number::dec(port as nat) + post, reading) == Some(
            SocketAddr { ip: IpAddr::V4([0u8, 0, 0, 0]), port, scope_id: 0 },
        ),
{
    reveal_strlit(":");
    assert(":"@ == seq![':']);
    let d = number::dec(port as nat);
    lemma_digits_hold_no_mark(port as nat);
    law_trim(pre, d, post);
    law_split_at_char(d, ':', d);
    law_last_of(d, ']');
    if let Some(e) = text::last_of(d, ']') {
        assert(d.contains(d[e]));
    }
    number::law_unsigned_reads_decimal(port as nat, u16::MAX as nat);
}

/// A number above 65535 is no port, and so no address.
pub proof fn law_port_is_limited(n: nat, reading: AddrReading)
    requires
        n > 65535,
        reading.socket is None,
    ensures
        parser::listen_addr(number::dec(n), reading) is None,
{
    reveal_strlit(":");
    assert(":"@ == seq![':']);
    let d = number::dec(n);
    lemma_digits_hold_no_mark(n);
    text_laws::lemma_word_has_no_space(d);
    text_laws::law_trim_keeps(d);
    law_split_at_char(d, ':', d);
    law_last_of(d, ']');
    if let Some(e) = text::last_of(d, ']') {
        assert(d.contains(d[e]));
    }
    number::law_unsigned_reads_decimal(n, u16::MAX as nat);
}

/// `address:port` listens on that port of the address that the system reads before the colon.
pub proof fn law_address_with_port(
    pre: Seq<char>,
    address: Seq<char>,
    port: u16,
    post: Seq<char>,
    reading: AddrReading,
    ip: [u8; 4],
)
    requires
        reading.socket is None,
        reading.v4 == Some(ip),
        text_laws::is_word(address),
        !address.contains(':'),
        address[0] != '[',
        text_laws::all_white(pre),
        text_laws::all_white(post),
    ensures
        parser::listen_addr(pre + (address + ":"@ + number::dec(port as nat)) + post, reading)
            == Some(SocketAddr { ip: IpAddr::V4(ip), port, scope_id: 0 }),
{
    reveal_strlit(":");
    assert(":"@ == seq![':']);
    let d = number::dec(port as nat);
    lemma_digits_hold_no_mark(port as nat);
    let t = address + ":"@ + d;
    assert(t[0] == address[0]);
    assert(t[t.len() - 1] == d[d.len() - 1]);
    law_trim(pre, t, post);
    law_split_at_char(address, ':', d);
    number::law_unsigned_reads_decimal(port as nat, u16::MAX as nat);
}

/// The parts of `[inner]:rest`.
pub proof fn law_brackets(inner: Seq<char>, rest: Seq<char>)
    requires
        !rest.contains(']'),
    ensures
        parser::bracket_parts("["@ + inner + "]:"@ + rest) == Some((inner, rest)),
{
    reveal_strlit("[");
    reveal_strlit("]:");
    let t = "["@ + inner + "]:"@ + rest;
    let k = inner.len() as int + 1;
    assert(t[k] == ']');
    assert(t[k + 1] == ':');
    law_last_of(t, ']');
    match text::last_of(t, ']') {
        Some(e) => {
            if e > k + 1 {
                assert(rest[e - k - 2] == t[e]);
                assert(rest.contains(rest[e - k - 2]));
            }
            assert(e == k);
            assert(t.subrange(1, e) == inner);
            assert(t.skip(e + 2) == rest);
        },
        None => {
            assert(false);
        },
    }
}

/// `[address]:port` listens on that port of the IPv6 address that the system reads in the
/// brackets.
pub proof fn law_bracketed_address_with_port(
    pre: Seq<char>,
    inner: Seq<char>,
    port: u16,
    post: Seq<char>,
    reading: AddrReading,
    ip: [u8; 16],
)
    requires
        reading.socket is None,
        reading.v6 == Some(ip),
        text_laws::all_white(pre),
        text_laws::all_white(post),
    ensures
        parser::listen_addr(
            pre + ("["@ + inner + "]:"@ + number::dec(port as nat)) + post,
            reading,
        ) == Some(SocketAddr { ip: IpAddr::V6(ip), port, scope_id: 0 }),
{
    reveal_strlit("[");
    reveal_strlit("]:");
    let d = number::dec(port as nat);
    lemma_digits_hold_no_mark(port as nat);
    let t = "["@ + inner + "]:"@ + d;
    assert(t[0] == '[');
    assert(t[t.len() - 1] == d[d.len() - 1]);
    law_trim(pre, t, post);
    law_brackets(inner, d);
    number::law_unsigned_reads_decimal(port as nat, u16::MAX as nat);
}

/// A syslog target without a port is on port 514; what the system reads neither as a socket
/// address nor as an IP address is no target.
pub proof fn law_syslog_target(reading: AddrReading, ip: IpAddr)
    requires
        reading.socket is None,
    ensures
        reading.ip == Some(ip) ==> parser::syslog_addr(reading) == Some(
            SocketAddr { ip, port: 514, scope_id: 0 },
        ),
        reading.ip is None ==> parser::syslog_addr(reading) is None,
{
}

// ── Options ─────────────────────────────────────────────────────────────────────
proof fn lemma_option_names()
    ensures
        "-l"@.len() == 2 && "-l"@[1] == 'l',
        "-L"@.len() == 2 && "-L"@[1] == 'L',
        "-c"@.len() == 2 && "-c"@[1] == 'c',
        "-k"@.len() == 2 && "-k"@[1] == 'k',
        "-S"@.len() == 2 && "-S"@[1] == 'S',
        "-t"@.len() == 2 && "-t"@[1] == 't',
        "-h"@.len() == 2 && "-h"@[1] == 'h',
        "-v"@.len() == 2 && "-v"@[1] == 'v',
        "-s"@.len() == 2 && "-s"@[1] == 's',
        "-log"@.len() == 4,
        "--help"@.len() == 6,
        "--syslog"@.len() == 8,
        "--version"@.len() == 9 && "--version"@[3] == 'e',
        "--v2-only"@.len() == 9 && "--v2-only"@[3] == '2',
        "--tls13-only"@.len() == 12,
        "--log-full-ip"@.len() == 13,
        "--no-token-check"@.len() == 16,
{
    reveal_strlit("-l");
    reveal_strlit("-L");
    reveal_strlit("-c");
    reveal_strlit("-k");
    reveal_strlit("-S");
    reveal_strlit("-t");
    reveal_strlit("-h");
    reveal_strlit("-v");
    reveal_strlit("-s");
    reveal_strlit("-log");
    reveal_strlit("--help");
    reveal_strlit("--syslog");
    reveal_strlit("--version");
    reveal_strlit("--v2-only");
    reveal_strlit("--tls13-only");
    reveal_strlit("--log-full-ip");
    reveal_strlit("--no-token-check");
}

/// The paths that `-c`, `-k` and `-S` take are the next argument as it stands, and reading
/// goes on behind it.
pub proof fn law_path_options(
    args: Seq<Seq<char>>,
    readings: Seq<AddrReading>,
    i: int,
    c: CliView,
)
    requires
        0 <= i,
        i + 1 < args.len(),
    ensures
        args[i] == "-c"@ ==> parser::cli_from(args, readings, i, c) == parser::cli_from(
            args,
            readings,
            i + 2,
            CliView { config: Settings { cert_path: Some(args[i + 1]), ..c.config }, ..c },
        ),
        args[i] == "-k"@ ==> parser::cli_from(args, readings, i, c) == parser::cli_from(
            args,
            readings,
            i + 2,
            CliView { config: Settings { key_path: Some(args[i + 1]), ..c.config }, ..c },
        ),
        args[i] == "-S"@ ==> parser::cli_from(args, readings, i, c) == parser::cli_from(
            args,
            readings,
            i + 2,
            CliView { config: Settings { secret_key_path: args[i + 1], ..c.config }, ..c },
        ),
{
    lemma_option_names();
}

/// `-l` adds a plain TCP address behind those before it, and `-L` a TLS address. An argument
/// that names no address is refused.
pub proof fn law_address_options(
    args: Seq<Seq<char>>,
    readings: Seq<AddrReading>,
    i: int,
    c: CliView,
)
    requires
        0 <= i,
        i + 1 < args.len(),
    ensures
        parser::listen_addr(args[i + 1], readings[i + 1]) matches Some(x) ==> {
            &&& args[i] == "-l"@ ==> parser::cli_from(args, readings, i, c) == parser::cli_from(
                args,
                readings,
                i + 2,
                CliView { tcp_addrs: c.tcp_addrs + seq![x], ..c },
            )
            &&& args[i] == "-L"@ ==> parser::cli_from(args, readings, i, c) == parser::cli_from(
                args,
                readings,
                i + 2,
                CliView { tls_addrs: c.tls_addrs + seq![x], ..c },
            )
        },
        parser::listen_addr(args[i + 1], readings[i + 1]) is None && (args[i] == "-l"@ || args[i]
            == "-L"@) ==> parser::cli_from(args, readings, i, c) == CliMeaning::Refused(
            CliError::InvalidAddress((i + 1) as usize),
        ),
{
    lemma_option_names();
    if let Some(x) = parser::listen_addr(args[i + 1], readings[i + 1]) {
        assert(c.tcp_addrs + seq![x] == c.tcp_addrs.push(x));
        assert(c.tls_addrs + seq![x] == c.tls_addrs.push(x));
    }
}

/// `-t` sets the number of workers, `-log` the level of the local log and `--syslog` where
/// events go. An argument that is none of this is refused.
pub proof fn law_other_valued_options(
    args: Seq<Seq<char>>,
    readings: Seq<AddrReading>,
    i: int,
    c: CliView,
    n: usize,
    j: int,
)
    requires
        0 <= i,
        i + 1 < args.len(),
    ensures
        args[i] == "-t"@ && args[i + 1] == number::dec(n as nat) ==> parser::cli_from(
            args,
            readings,
            i,
            c,
        ) == parser::cli_from(
            args,
            readings,
            i + 2,
            CliView { config: Settings { num_workers: n, ..c.config }, ..c },
        ),
        args[i] == "-t"@ && 1 <= j < args[i + 1].len() && !('0' <= args[i + 1][j] <= '9')
            ==> parser::cli_from(args, readings, i, c) == CliMeaning::Refused(
            CliError::InvalidWorkerCount((i + 1) as usize),
        ),
        args[i] == "-log"@ ==> match level::level_named(args[i + 1]) {
            Some(l) => parser::cli_from(args, readings, i, c) == parser::cli_from(
                args,
                readings,
                i + 2,
                CliView { config: Settings { log_level: l, ..c.config }, ..c },
            ),
            None => parser::cli_from(args, readings, i, c) == CliMeaning::Refused(
                CliError::InvalidLogLevel((i + 1) as usize),
            ),
        },
        args[i] == "--syslog"@ ==> match parser::syslog_addr(readings[i + 1]) {
            Some(x) => parser::cli_from(args, readings, i, c) == parser::cli_from(
                args,
                readings,
                i + 2,
                CliView { config: Settings { syslog_target: Some(x), ..c.config }, ..c },
            ),
            None => parser::cli_from(args, readings, i, c) == CliMeaning::Refused(
                CliError::InvalidSyslogTarget((i + 1) as usize),
            ),
        },
{
    lemma_option_names();
    number::law_unsigned_reads_decimal(n as nat, usize::MAX as nat);
    if 1 <= j < args[i + 1].len() && !('0' <= args[i + 1][j] <= '9') {
        number::law_unsigned_refuses(args[i + 1], j, usize::MAX as nat);
    }
}

/// The switches each change their one setting, and reading goes on with the next argument.
pub proof fn law_switches(args: Seq<Seq<char>>, readings: Seq<AddrReading>, i: int, c: CliView)
    requires
        0 <= i < args.len(),
    ensures
        args[i] == "--tls13-only"@ ==> parser::cli_from(args, readings, i, c) == parser::cli_from(
            args,
            readings,
            i + 1,
            CliView { config: Settings { tls13_only: true, ..c.config }, ..c },
        ),
        args[i] == "--no-token-check"@ ==> parser::cli_from(args, readings, i, c)
            == parser::cli_from(
            args,
            readings,
            i + 1,
            CliView { config: Settings { check_token: false, ..c.config }, ..c },
        ),
        args[i] == "--v2-only"@ ==> parser::cli_from(args, readings, i, c) == parser::cli_from(
            args,
            readings,
            i + 1,
            CliView { config: Settings { v2_only: true, ..c.config }, ..c },
        ),
        args[i] == "--log-full-ip"@ ==> parser::cli_from(args, readings, i, c) == parser::cli_from(
            args,
            readings,
            i + 1,
            CliView { config: Settings { log_full_ip: true, ..c.config }, ..c },
        ),
        args[i] == "-s"@ ==> parser::cli_from(args, readings, i, c) == parser::cli_from(
            args,
            readings,
            i + 1,
            c,
        ),
        args[i] == "-h"@ || args[i] == "--help"@ ==> parser::cli_from(args, readings, i, c)
            == CliMeaning::Help,
        args[i] == "-v"@ || args[i] == "--version"@ ==> parser::cli_from(args, readings, i, c)
            == CliMeaning::Version,
{
    lemma_option_names();
}

/// Any other argument is refused, with its position.
pub proof fn law_other_arguments_are_refused(
    args: Seq<Seq<char>>,
    readings: Seq<AddrReading>,
    i: int,
    c: CliView,
)
    requires
        0 <= i < args.len(),
        !seq![
            "-l"@,
            "-L"@,
            "-c"@,
            "-k"@,
            "-S"@,
            "-t"@,
            "-log"@,
            "--syslog"@,
            "--tls13-only"@,
            "-s"@,
            "--no-token-check"@,
            "--v2-only"@,
            "--log-full-ip"@,
            "-h"@,
            "--help"@,
            "-v"@,
            "--version"@,
        ].contains(args[i]),
    ensures
        parser::cli_from(args, readings, i, c) == CliMeaning::Refused(
            CliError::UnknownOption(i as usize),
        ),
{
    let names = seq![
        "-l"@,
        "-L"@,
        "-c"@,
        "-k"@,
        "-S"@,
        "-t"@,
        "-log"@,
        "--syslog"@,
        "--tls13-only"@,
        "-s"@,
        "--no-token-check"@,
        "--v2-only"@,
        "--log-full-ip"@,
        "-h"@,
        "--help"@,
        "-v"@,
        "--version"@,
    ];
    assert(names.len() == 17);
    assert(forall|j: int| 0 <= j < 17 ==> #[trigger] names[j] != args[i]);
    assert(names[0] != args[i] && names[1] != args[i] && names[2] != args[i] && names[3] != args[i]
        && names[4] != args[i] && names[5] != args[i] && names[6] != args[i] && names[7] != args[i]
        && names[8] != args[i] && names[9] != args[i] && names[10] != args[i] && names[11]
        != args[i] && names[12] != args[i] && names[13] != args[i] && names[14] != args[i]
        && names[15] != args[i] && names[16] != args[i]);
}

/// When all arguments are read, the server runs with what they asked for. Without a TLS
/// address it listens on port 443 of `::` and then of `0.0.0.0`. An option that takes a value
/// and stands last changes nothing.
pub proof fn law_end_of_arguments(
    args: Seq<Seq<char>>,
    readings: Seq<AddrReading>,
    c: CliView,
)
    ensures
        parser::cli_from(args, readings, args.len() as int, c) matches CliMeaning::Run(r) && {
            &&& r.config == c.config
            &&& r.tcp_addrs == c.tcp_addrs
            &&& c.tls_addrs.len() > 0 ==> r.tls_addrs == c.tls_addrs
            &&& c.tls_addrs.len() == 0 ==> r.tls_addrs == seq![
                SocketAddr {
                    ip: IpAddr::V6([0u8, 0, 0, 0, 0, 0, 0, 0, 0, 0, 0, 0, 0, 0, 0, 0]),
                    port: DEFAULT_TLS_PORT,
                    scope_id: 0,
                },
                SocketAddr {
                    ip: IpAddr::V4([0u8, 0, 0, 0]),
                    port: DEFAULT_TLS_PORT,
                    scope_id: 0,
                },
            ]
        },
        args.len() > 0 && seq![
            "-l"@,
            "-L"@,
            "-c"@,
            "-k"@,
            "-S"@,
            "-t"@,
            "-log"@,
            "--syslog"@,
        ].contains(args.last()) ==> parser::cli_from(args, readings, args.len() - 1, c)
            == parser::cli_from(args, readings, args.len() as int, c),
{
}

/// A text of which the system reads nothing, and which is no port either, is no address.
pub proof fn law_no_address(t: Seq<char>, i: int, reading: AddrReading)
    requires
        reading.socket is None,
        reading.v4 is None,
        reading.v6 is None,
        text_laws::is_trimmed(t),
        1 <= i < t.len(),
        !('0' <= t[i] <= '9'),
    ensures
        parser::listen_addr(t, reading) is None,
{
    text_laws::law_trim_keeps(t);
    number::law_unsigned_refuses(t, i, u16::MAX as nat);
}

} // verus!
