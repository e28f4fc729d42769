//! Structured per-connection event logging to a remote collector over UDP syslog
//! (RFC 5424), for ingestion into ELK.
//!
//! One datagram is sent per connection event, with RFC 5424 framing and a JSON message
//! body, e.g.:
//!
//! ```text
//! <134>1 2026-06-21T12:34:56.789Z host rmbtd 4242 close - {"event":"close","conn":1,...}
//! ```
//!
//! Events per connection:
//! * `connect`: a connection was accepted (anonymised client, TLS or plain);
//! * `auth`: token validity: accepted / rejected / not-checked, with uuid, token type
//!   (v1/v2) and the matched secret label;
//! * `close`: the outcome: duration plus server-measured download/upload throughput and
//!   ping, and how the connection ended.

use chrono::{DateTime, SecondsFormat};
use vstd::prelude::*;
use crate::json::{self, Decimal, Json};
use crate::net::{self, any_v4, any_v6, IpAddr, SocketAddr};
use crate::number::{self, push_dec};
use crate::text::same_text;

verus! {

/// Syslog facility `local0`.
pub const FACILITY: u32 = 16;

// RFC 5424 severities.
pub const SEV_ERR: u8 = 3;

pub const SEV_NOTICE: u8 = 5;

pub const SEV_INFO: u8 = 6;

// ── Connection statistics ───────────────────────────────────────────────────────
/// Server-measured accounting for one connection, reported in the `close` event: only what
/// the server can observe, bytes/time and ping RTT.
#[derive(Debug)]
pub struct ConnStats {
    pub download_bytes: u64,
    pub download_ns: u128,
    pub upload_bytes: u64,
    pub upload_ns: u128,
    pub ping_count: u32,
    pub ping_min_ns: u128,
    pub ping_max_ns: u128,
    /// Number of test commands (GETTIME/GETCHUNKS/PUT/PUTNORESULT/PING) processed.
    pub commands: u32,
}

/// The statistics of a connection on which nothing has happened yet.
pub open spec fn no_stats() -> ConnStats {
    ConnStats {
        download_bytes: 0,
        download_ns: 0,
        upload_bytes: 0,
        upload_ns: 0,
        ping_count: 0,
        ping_min_ns: u128::MAX,
        ping_max_ns: 0,
        commands: 0,
    }
}

/// The statistics `s` after one more ping of `ns` nanoseconds.
pub open spec fn with_ping(s: ConnStats, ns: u128) -> ConnStats {
    ConnStats {
        ping_count: (s.ping_count + 1) as u32,
        ping_min_ns: if ns < s.ping_min_ns {
            ns
        } else {
            s.ping_min_ns
        },
        ping_max_ns: if ns > s.ping_max_ns {
            ns
        } else {
            s.ping_max_ns
        },
        ..s
    }
}

impl ConnStats {
    /// The statistics of a new connection.
    pub fn new() -> (r: ConnStats)
        ensures
            r == no_stats(),
    {
        ConnStats {
            download_bytes: 0,
            download_ns: 0,
            upload_bytes: 0,
            upload_ns: 0,
            ping_count: 0,
            ping_min_ns: u128::MAX,
            ping_max_ns: 0,
            commands: 0,
        }
    }

    /// Accounts for a download.
    pub fn add_download(&mut self, bytes: u64, ns: u128)
        requires
            old(self).download_bytes + bytes <= u64::MAX,
            old(self).download_ns + ns <= u128::MAX,
        ensures
            *final(self) == (ConnStats {
                download_bytes: (old(self).download_bytes + bytes) as u64,
                download_ns: (old(self).download_ns + ns) as u128,
                ..*old(self)
            }),
    {
        self.download_bytes = self.download_bytes + bytes;
        self.download_ns = self.download_ns + ns;
    }

    /// Accounts for an upload.
    pub fn add_upload(&mut self, bytes: u64, ns: u128)
        requires
            old(self).upload_bytes + bytes <= u64::MAX,
            old(self).upload_ns + ns <= u128::MAX,
        ensures
            *final(self) == (ConnStats {
                upload_bytes: (old(self).upload_bytes + bytes) as u64,
                upload_ns: (old(self).upload_ns + ns) as u128,
                ..*old(self)
            }),
    {
        self.upload_bytes = self.upload_bytes + bytes;
        self.upload_ns = self.upload_ns + ns;
    }

    /// Accounts for a ping.
    pub fn add_ping(&mut self, ns: u128)
        requires
            old(self).ping_count < u32::MAX,
        ensures
            *final(self) == with_ping(*old(self), ns),
    {
        self.ping_count = self.ping_count + 1;
        if ns < self.ping_min_ns {
            self.ping_min_ns = ns;
        }
        if ns > self.ping_max_ns {
            self.ping_max_ns = ns;
        }
    }
}

impl Default for ConnStats {
    fn default() -> (r: ConnStats)
        ensures
            r == no_stats(),
    {
        ConnStats::new()
    }
}

// ── Frames ──────────────────────────────────────────────────────────────────────
/// A moment, in seconds since 1970 and nanoseconds within the second.
#[derive(Clone, Copy, Debug, PartialEq, Eq, Structural)]
pub struct Moment {
    pub secs: i64,
    pub nanos: u32,
}

/// The RFC 3339 form of a moment in UTC, with milliseconds, if there is one.
pub uninterp spec fn rfc3339_millis(secs: int, nanos: int) -> Option<Seq<char>>;

/// `chrono::DateTime::from_timestamp` and `to_rfc3339_opts` with milliseconds and `Z`: the
/// first yields nothing when the moment is out of chrono's range. The text depends on the
/// moment alone.
#[verifier::external_body]
fn format_moment(secs: i64, nanos: u32) -> (r: Option<String>)
    ensures
        match r {
            Some(t) => rfc3339_millis(secs as int, nanos as int) == Some(t@),
            None => rfc3339_millis(secs as int, nanos as int) is None,
        },
{
    DateTime::from_timestamp(secs, nanos).map(|t| t.to_rfc3339_opts(SecondsFormat::Millis, true))
}

/// Builds structured events for a syslog collector. Events are sent over UDP from `bind` to
/// `target`.
pub struct EventSink {
    pub bind: SocketAddr,
    pub target: SocketAddr,
    pub hostname: String,
    pub procid: u32,
}

/// The host name to report: `$HOSTNAME`, else `$COMPUTERNAME`, and `-` (RFC 5424 NILVALUE)
/// when that is unset or empty.
pub open spec fn host_label(host: Option<Seq<char>>, computer: Option<Seq<char>>) -> Seq<char> {
    let name = match host {
        Some(h) => Some(h),
        None => computer,
    };
    match name {
        Some(h) => if h.len() > 0 {
            h
        } else {
            "-"@
        },
        None => "-"@,
    }
}

/// Best-effort host name from the values of `$HOSTNAME` and `$COMPUTERNAME`.
pub fn hostname(host: Option<String>, computer: Option<String>) -> (r: String)
    ensures
        r@ == host_label(
            crate::config::text_option(host),
            crate::config::text_option(computer),
        ),
{
    let name = match host {
        Some(h) => Some(h),
        None => computer,
    };
    match name {
        Some(h) => if h.as_str().is_empty() {
            "-".to_owned()
        } else {
            h
        },
        None => "-".to_owned(),
    }
}

/// The RFC 5424 frame of an event.
pub open spec fn frame(
    sink: EventSink,
    severity: u8,
    msgid: Seq<char>,
    body: Seq<char>,
    ts: Seq<char>,
) -> Seq<char> {
    "<"@ + number::dec((FACILITY * 8 + severity) as nat) + ">1 "@ + ts + " "@ + sink.hostname@
        + " rmbtd "@ + number::dec(sink.procid as nat) + " "@ + msgid + " - "@ + body
}

/// The frame of an event at a moment, if the moment has a text.
pub open spec fn frame_at(
    sink: EventSink,
    severity: u8,
    msgid: Seq<char>,
    body: Seq<char>,
    at: Moment,
) -> Option<Seq<char>> {
    match rfc3339_millis(at.secs as int, at.nanos as int) {
        Some(ts) => Some(frame(sink, severity, msgid, body, ts)),
        None => None,
    }
}

/// The text of a frame, if there is one.
pub open spec fn frame_text(r: Option<String>) -> Option<Seq<char>> {
    crate::config::text_option(r)
}

/// An empty object.
pub open spec fn empty_object() -> Seq<char> {
    seq!['{']
}

/// The body of a `startup` event.
pub open spec fn startup_body(
    version: Seq<char>,
    workers: usize,
    tcp_listeners: usize,
    tls_listeners: usize,
) -> Seq<char> {
    let j = json::with_member(empty_object(), "event"@, json::quoted("startup"@));
    let j = json::with_member(j, "version"@, json::quoted(version));
    let j = json::with_member(j, "workers"@, number::dec_int((workers as i64) as int));
    let j = json::with_member(j, "tcp_listeners"@, number::dec_int((tcp_listeners as i64) as int));
    let j = json::with_member(j, "tls_listeners"@, number::dec_int((tls_listeners as i64) as int));
    j.push('}')
}

/// The body of a `connect` event.
pub open spec fn connect_body(conn_id: usize, client: Seq<char>, tls: bool) -> Seq<char> {
    let j = json::with_member(empty_object(), "event"@, json::quoted("connect"@));
    let j = json::with_member(j, "conn"@, number::dec_int((conn_id as i64) as int));
    let j = json::with_member(j, "client"@, json::quoted(client));
    let j = json::with_member(j, "tls"@, json::truth(tls));
    j.push('}')
}

/// `j` with a string member, if there is a value for it.
pub open spec fn with_optional(
    j: Seq<char>,
    key: Seq<char>,
    value: Option<Seq<char>>,
) -> Seq<char> {
    match value {
        Some(v) => json::with_member(j, key, json::quoted(v)),
        None => j,
    }
}

/// The text of an optional string slice.
pub open spec fn slice_text(s: Option<&str>) -> Option<Seq<char>> {
    match s {
        Some(t) => Some(t@),
        None => None,
    }
}

/// The body of an `auth` event.
pub open spec fn auth_body(
    conn_id: usize,
    client: Seq<char>,
    uuid: Seq<char>,
    token_type: Seq<char>,
    result: Seq<char>,
    label: Option<Seq<char>>,
    reason: Option<Seq<char>>,
) -> Seq<char> {
    let j = json::with_member(empty_object(), "event"@, json::quoted("auth"@));
    let j = json::with_member(j, "conn"@, number::dec_int((conn_id as i64) as int));
    let j = json::with_member(j, "client"@, json::quoted(client));
    let j = json::with_member(j, "uuid"@, json::quoted(uuid));
    let j = json::with_member(j, "token"@, json::quoted(token_type));
    let j = json::with_member(j, "result"@, json::quoted(result));
    let j = with_optional(j, "secret"@, label);
    let j = with_optional(j, "reason"@, reason);
    j.push('}')
}

/// The measured times and rates of a connection.
pub struct Measured {
    pub duration_ms: Decimal,
    pub dl_mbps: Decimal,
    pub ul_mbps: Decimal,
    pub ping_min_ms: Decimal,
}

/// The body of a `close` event. Downloads, uploads and pings are reported only where there
/// were any.
pub open spec fn close_body(
    conn_id: usize,
    uuid: Seq<char>,
    token_type: Seq<char>,
    secret: Seq<char>,
    tls: bool,
    measured: Measured,
    stats: ConnStats,
    end: Seq<char>,
) -> Seq<char> {
    let j = json::with_member(empty_object(), "event"@, json::quoted("close"@));
    let j = json::with_member(j, "conn"@, number::dec_int((conn_id as i64) as int));
    let j = json::with_member(j, "uuid"@, json::quoted(uuid));
    let j = json::with_member(j, "token"@, json::quoted(token_type));
    let j = json::with_member(j, "secret"@, json::quoted(secret));
    let j = json::with_member(j, "tls"@, json::truth(tls));
    let j = json::with_member(j, "end"@, json::quoted(end));
    let j = json::with_member(j, "duration_ms"@, measured.duration_ms.shown());
    let j = json::with_member(j, "commands"@, number::dec_int(stats.commands as int));
    let j = if stats.download_bytes > 0 {
        let k = json::with_member(
            j,
            "dl_bytes"@,
            number::dec_int((stats.download_bytes as i64) as int),
        );
        json::with_member(k, "dl_mbps"@, measured.dl_mbps.shown())
    } else {
        j
    };
    let j = if stats.upload_bytes > 0 {
        let k = json::with_member(
            j,
            "ul_bytes"@,
            number::dec_int((stats.upload_bytes as i64) as int),
        );
        json::with_member(k, "ul_mbps"@, measured.ul_mbps.shown())
    } else {
        j
    };
    let j = if stats.ping_count > 0 {
        let k = json::with_member(j, "ping_count"@, number::dec_int(stats.ping_count as int));
        json::with_member(k, "ping_min_ms"@, measured.ping_min_ms.shown())
    } else {
        j
    };
    j.push('}')
}

/// The body of an `error` event.
pub open spec fn error_body(context: Seq<char>, message: Seq<char>) -> Seq<char> {
    let j = json::with_member(empty_object(), "event"@, json::quoted("error"@));
    let j = json::with_member(j, "context"@, json::quoted(context));
    let j = json::with_member(j, "message"@, json::quoted(message));
    j.push('}')
}

impl EventSink {
    /// A sink for events to `target`. The local socket family matches the target
    /// (IPv4 or IPv6).
    pub fn new(
        target: SocketAddr,
        host: Option<String>,
        computer: Option<String>,
        procid: u32,
    ) -> (r: EventSink)
        ensures
            r.target == target,
            r.bind == SocketAddr::spec_new(
                if target.ip is V4 {
                    net::unspecified_v4()
                } else {
                    net::unspecified_v6()
                },
                0,
            ),
            r.hostname@ == host_label(
                crate::config::text_option(host),
                crate::config::text_option(computer),
            ),
            r.procid == procid,
    {
        let bind = match target.ip {
            IpAddr::V4(_) => SocketAddr::new(any_v4(), 0),
            IpAddr::V6(_) => SocketAddr::new(any_v6(), 0),
        };
        EventSink { bind, target, hostname: hostname(host, computer), procid }
    }

    /// The RFC 5424 frame of an event with the timestamp `ts`.
    pub fn syslog_frame(&self, severity: u8, msgid: &str, body: &str, ts: &str) -> (r: String)
        ensures
            r@ == frame(*self, severity, msgid@, body@, ts@),
    {
        let mut out = "<".to_owned();
        push_dec(&mut out, FACILITY as u128 * 8 + severity as u128);
        out.append(">1 ");
        out.append(ts);
        out.append(" ");
        out.append(self.hostname.as_str());
        out.append(" rmbtd ");
        push_dec(&mut out, self.procid as u128);
        out.append(" ");
        out.append(msgid);
        out.append(" - ");
        out.append(body);
        out
    }

    /// Builds the RFC 5424 frame of an event at the moment `at`; none, if the moment has no
    /// RFC 3339 form.
    pub fn emit(&self, severity: u8, msgid: &str, body: String, at: Moment) -> (r: Option<String>)
        ensures
            frame_text(r) == frame_at(*self, severity, msgid@, body@, at),
    {
        match format_moment(at.secs, at.nanos) {
            Some(ts) => Some(self.syslog_frame(severity, msgid, body.as_str(), ts.as_str())),
            None => None,
        }
    }

    /// One-time startup event describing the running server.
    pub fn startup(
        &self,
        version: &str,
        workers: usize,
        tcp_listeners: usize,
        tls_listeners: usize,
        at: Moment,
    ) -> (r: Option<String>)
        ensures
            frame_text(r) == frame_at(
                *self,
                SEV_INFO,
                "lifecycle"@,
                startup_body(version@, workers, tcp_listeners, tls_listeners),
                at,
            ),
    {
        let body = Json::new().str("event", "startup").str("version", version).integer(
            "workers",
            workers as i64,
        ).integer("tcp_listeners", tcp_listeners as i64).integer(
            "tls_listeners",
            tls_listeners as i64,
        ).done();
        self.emit(SEV_INFO, "lifecycle", body, at)
    }

    /// A connection was accepted. `client` is the anonymised source address.
    pub fn connect(&self, conn_id: usize, client: &str, tls: bool, at: Moment) -> (r: Option<
        String,
    >)
        ensures
            frame_text(r) == frame_at(
                *self,
                SEV_INFO,
                "connect"@,
                connect_body(conn_id, client@, tls),
                at,
            ),
    {
        let body = Json::new().str("event", "connect").integer("conn", conn_id as i64).str(
            "client",
            client,
        ).bool("tls", tls).done();
        self.emit(SEV_INFO, "connect", body, at)
    }

    /// Token validation result. `result` is `accepted` | `rejected` | `not_checked`;
    /// `label` is the matched secret (on accept) and `reason` the rejection cause.
    pub fn auth(
        &self,
        conn_id: usize,
        client: &str,
        uuid: &str,
        token_type: &str,
        result: &str,
        label: Option<&str>,
        reason: Option<&str>,
        at: Moment,
    ) -> (r: Option<String>)
        ensures
            frame_text(r) == frame_at(
                *self,
                if result@ == "rejected"@ {
                    SEV_NOTICE
                } else {
                    SEV_INFO
                },
                "auth"@,
                auth_body(
                    conn_id,
                    client@,
                    uuid@,
                    token_type@,
                    result@,
                    slice_text(label),
                    slice_text(reason),
                ),
                at,
            ),
    {
        let sev: u8 = if same_text(result, "rejected") {
            SEV_NOTICE
        } else {
            SEV_INFO
        };
        let mut j = Json::new().str("event", "auth").integer("conn", conn_id as i64).str(
            "client",
            client,
        ).str("uuid", uuid).str("token", token_type).str("result", result);
        if let Some(l) = label {
            j = j.str("secret", l);
        }
        if let Some(t) = reason {
            j = j.str("reason", t);
        }
        self.emit(sev, "auth", j.done(), at)
    }

    /// End-of-connection outcome. `end` describes how it terminated
    /// (`quit` | `disconnect` | `error` | `auth_failed` | `tls_failed` | `upgrade_failed` | ...).
    pub fn close(
        &self,
        conn_id: usize,
        uuid: &str,
        token_type: &str,
        secret: &str,
        tls: bool,
        measured: &Measured,
        stats: &ConnStats,
        end: &str,
        at: Moment,
    ) -> (r: Option<String>)
        ensures
            frame_text(r) == frame_at(
                *self,
                SEV_INFO,
                "close"@,
                close_body(
                    conn_id,
                    uuid@,
                    token_type@,
                    secret@,
                    tls,
                    *measured,
                    *stats,
                    end@,
                ),
                at,
            ),
    {
        let mut j = Json::new().str("event", "close").integer("conn", conn_id as i64).str(
            "uuid",
            uuid,
        ).str("token", token_type).str("secret", secret).bool("tls", tls).str("end", end).number(
            "duration_ms",
            &measured.duration_ms,
        ).integer("commands", stats.commands as i64);
        if stats.download_bytes > 0 {
            j = j.integer("dl_bytes", stats.download_bytes as i64).number(
                "dl_mbps",
                &measured.dl_mbps,
            );
        }
        if stats.upload_bytes > 0 {
            j = j.integer("ul_bytes", stats.upload_bytes as i64).number(
                "ul_mbps",
                &measured.ul_mbps,
            );
        }
        if stats.ping_count > 0 {
            j = j.integer("ping_count", stats.ping_count as i64).number(
                "ping_min_ms",
                &measured.ping_min_ms,
            );
        }
        self.emit(SEV_INFO, "close", j.done(), at)
    }

    /// An operational error (rare). `context` is a short location tag.
    pub fn error(&self, context: &str, message: &str, at: Moment) -> (r: Option<String>)
        ensures
            frame_text(r) == frame_at(*self, SEV_ERR, "error"@, error_body(context@, message@), at),
    {
        let body = Json::new().str("event", "error").str("context", context).str(
            "message",
            message,
        ).done();
        self.emit(SEV_ERR, "error", body, at)
    }
}

// ── Laws ────────────────────────────────────────────────────────────────────────
/// The statistics `s` after pings of `ns` nanoseconds, one after the other.
pub open spec fn with_pings(s: ConnStats, ns: Seq<u128>) -> ConnStats
    decreases ns.len(),
{
    if ns.len() == 0 {
        s
    } else {
        with_ping(with_pings(s, ns.drop_last()), ns.last())
    }
}

/// After some pings the statistics hold their number, the shortest and the longest of them,
/// and nothing else has changed.
pub proof fn law_pings_are_tracked(ns: Seq<u128>)
    requires
        0 < ns.len() <= u32::MAX,
    ensures
        ({
            let s = with_pings(no_stats(), ns);
            &&& s.ping_count == ns.len()
            &&& ns.contains(s.ping_min_ns)
            &&& ns.contains(s.ping_max_ns)
            &&& forall|i: int|
                0 <= i < ns.len() ==> s.ping_min_ns <= #[trigger] ns[i] <= s.ping_max_ns
            &&& s == (ConnStats {
                ping_count: s.ping_count,
                ping_min_ns: s.ping_min_ns,
                ping_max_ns: s.ping_max_ns,
                ..no_stats()
            })
        }),
    decreases ns.len(),
{
    let rest = ns.drop_last();
    let last = ns.last();
    let s = with_pings(no_stats(), ns);
    let before = with_pings(no_stats(), rest);
    assert(ns[ns.len() - 1] == last);
    if rest.len() == 0 {
        assert(before == no_stats());
        assert(s.ping_min_ns == last && s.ping_max_ns == last);
    } else {
        law_pings_are_tracked(rest);
        let a = choose|i: int| 0 <= i < rest.len() && rest[i] == before.ping_min_ns;
        let b = choose|i: int| 0 <= i < rest.len() && rest[i] == before.ping_max_ns;
        assert(ns[a] == before.ping_min_ns && ns[b] == before.ping_max_ns);
        assert forall|i: int| 0 <= i < ns.len() implies s.ping_min_ns <= #[trigger] ns[i]
            <= s.ping_max_ns by {
            if i < rest.len() {
                assert(ns[i] == rest[i]);
            }
        }
    }
}

} // verus!
