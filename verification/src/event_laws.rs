//! What the events say, member by member, and how they are framed.

use vstd::prelude::*;
use crate::events::{self, ConnStats, EventSink, Measured, Moment};
use crate::json::{
    self, law_built_values_are_plain, law_members_are_separated, law_numbers_are_plain,
};
use crate::number;

verus! {

/// The JSON object with these members, in order.
pub open spec fn object(members: Seq<(Seq<char>, Seq<char>)>) -> Seq<char> {
    json::object_text(members).push('}')
}

proof fn lemma_no_members()
    ensures
        json::object_text(Seq::<(Seq<char>, Seq<char>)>::empty()) == seq!['{'],
{
}

// ── Bodies ──────────────────────────────────────────────────────────────────────
/// A `startup` event tells the version and the numbers of workers and listeners.
pub proof fn law_startup_event(version: Seq<char>, workers: usize, tcp: usize, tls: usize)
    requires
        workers <= i64::MAX,
        tcp <= i64::MAX,
        tls <= i64::MAX,
    ensures
        events::startup_body(version, workers, tcp, tls) == object(
            seq![
                ("event"@, json::quoted("startup"@)),
                ("version"@, json::quoted(version)),
                ("workers"@, number::dec(workers as nat)),
                ("tcp_listeners"@, number::dec(tcp as nat)),
                ("tls_listeners"@, number::dec(tls as nat)),
            ],
        ),
{
    lemma_no_members();
    law_built_values_are_plain("startup"@, 0, true);
    law_built_values_are_plain(version, workers as int, true);
    law_built_values_are_plain(version, tcp as int, true);
    let m0 = Seq::<(Seq<char>, Seq<char>)>::empty();
    law_members_are_separated(m0, "event"@, json::quoted("startup"@));
    let m1 = m0.push(("event"@, json::quoted("startup"@)));
    law_members_are_separated(m1, "version"@, json::quoted(version));
    let m2 = m1.push(("version"@, json::quoted(version)));
    law_members_are_separated(m2, "workers"@, number::dec(workers as nat));
    let m3 = m2.push(("workers"@, number::dec(workers as nat)));
    law_members_are_separated(m3, "tcp_listeners"@, number::dec(tcp as nat));
    let m4 = m3.push(("tcp_listeners"@, number::dec(tcp as nat)));
    law_members_are_separated(m4, "tls_listeners"@, number::dec(tls as nat));
    let m5 = m4.push(("tls_listeners"@, number::dec(tls as nat)));
    assert(m5 == seq![
        ("event"@, json::quoted("startup"@)),
        ("version"@, json::quoted(version)),
        ("workers"@, number::dec(workers as nat)),
        ("tcp_listeners"@, number::dec(tcp as nat)),
        ("tls_listeners"@, number::dec(tls as nat)),
    ]);
}

/// A `connect` event tells the number of the connection, the client and whether TLS is used.
pub proof fn law_connect_event(conn_id: usize, client: Seq<char>, tls: bool)
    requires
        conn_id <= i64::MAX,
    ensures
        events::connect_body(conn_id, client, tls) == object(
            seq![
                ("event"@, json::quoted("connect"@)),
                ("conn"@, number::dec(conn_id as nat)),
                ("client"@, json::quoted(client)),
                ("tls"@, json::truth(tls)),
            ],
        ),
{
    lemma_no_members();
    law_built_values_are_plain("connect"@, conn_id as int, tls);
    law_built_values_are_plain(client, 0, tls);
    let m0 = Seq::<(Seq<char>, Seq<char>)>::empty();
    law_members_are_separated(m0, "event"@, json::quoted("connect"@));
    let m1 = m0.push(("event"@, json::quoted("connect"@)));
    law_members_are_separated(m1, "conn"@, number::dec(conn_id as nat));
    let m2 = m1.push(("conn"@, number::dec(conn_id as nat)));
    law_members_are_separated(m2, "client"@, json::quoted(client));
    let m3 = m2.push(("client"@, json::quoted(client)));
    law_members_are_separated(m3, "tls"@, json::truth(tls));
    let m4 = m3.push(("tls"@, json::truth(tls)));
    assert(m4 == seq![
        ("event"@, json::quoted("connect"@)),
        ("conn"@, number::dec(conn_id as nat)),
        ("client"@, json::quoted(client)),
        ("tls"@, json::truth(tls)),
    ]);
}

/// A string member, if there is a value for it.
pub open spec fn optional_member(key: Seq<char>, value: Option<Seq<char>>) -> Seq<
    (Seq<char>, Seq<char>),
> {
    match value {
        Some(v) => seq![(key, json::quoted(v))],
        None => seq![],
    }
}

proof fn lemma_optional(
    members: Seq<(Seq<char>, Seq<char>)>,
    key: Seq<char>,
    value: Option<Seq<char>>,
)
    requires
        members.len() > 0,
        json::is_plain(members.last().1),
    ensures
        events::with_optional(json::object_text(members), key, value) == json::object_text(
            members + optional_member(key, value),
        ),
        json::is_plain((members + optional_member(key, value)).last().1),
{
    match value {
        Some(v) => {
            law_members_are_separated(members, key, json::quoted(v));
            law_built_values_are_plain(v, 0, true);
            assert(members + optional_member(key, value) == members.push((key, json::quoted(v))));
        },
        None => {
            assert(members + optional_member(key, value) == members);
        },
    }
}

/// An `auth` event tells the connection, the client, the UUID and version of its token and
/// the result, and then the label of the key and the reason, where there are such.
pub proof fn law_auth_event(
    conn_id: usize,
    client: Seq<char>,
    uuid: Seq<char>,
    token_type: Seq<char>,
    result: Seq<char>,
    label: Option<Seq<char>>,
    reason: Option<Seq<char>>,
)
    requires
        conn_id <= i64::MAX,
    ensures
        events::auth_body(conn_id, client, uuid, token_type, result, label, reason) == object(
            seq![
                ("event"@, json::quoted("auth"@)),
                ("conn"@, number::dec(conn_id as nat)),
                ("client"@, json::quoted(client)),
                ("uuid"@, json::quoted(uuid)),
                ("token"@, json::quoted(token_type)),
                ("result"@, json::quoted(result)),
            ] + optional_member("secret"@, label) + optional_member("reason"@, reason),
        ),
{
    lemma_no_members();
    law_built_values_are_plain("auth"@, conn_id as int, true);
    law_built_values_are_plain(client, 0, true);
    law_built_values_are_plain(uuid, 0, true);
    law_built_values_are_plain(token_type, 0, true);
    law_built_values_are_plain(result, 0, true);
    let m0 = Seq::<(Seq<char>, Seq<char>)>::empty();
    law_members_are_separated(m0, "event"@, json::quoted("auth"@));
    let m1 = m0.push(("event"@, json::quoted("auth"@)));
    law_members_are_separated(m1, "conn"@, number::dec(conn_id as nat));
    let m2 = m1.push(("conn"@, number::dec(conn_id as nat)));
    law_members_are_separated(m2, "client"@, json::quoted(client));
    let m3 = m2.push(("client"@, json::quoted(client)));
    law_members_are_separated(m3, "uuid"@, json::quoted(uuid));
    let m4 = m3.push(("uuid"@, json::quoted(uuid)));
    law_members_are_separated(m4, "token"@, json::quoted(token_type));
    let m5 = m4.push(("token"@, json::quoted(token_type)));
    law_members_are_separated(m5, "result"@, json::quoted(result));
    let m6 = m5.push(("result"@, json::quoted(result)));
    assert(m6 == seq![
        ("event"@, json::quoted("auth"@)),
        ("conn"@, number::dec(conn_id as nat)),
        ("client"@, json::quoted(client)),
        ("uuid"@, json::quoted(uuid)),
        ("token"@, json::quoted(token_type)),
        ("result"@, json::quoted(result)),
    ]);
    lemma_optional(m6, "secret"@, label);
    lemma_optional(m6 + optional_member("secret"@, label), "reason"@, reason);
}

/// An `error` event tells where and what went wrong.
pub proof fn law_error_event(context: Seq<char>, message: Seq<char>)
    ensures
        events::error_body(context, message) == object(
            seq![
                ("event"@, json::quoted("error"@)),
                ("context"@, json::quoted(context)),
                ("message"@, json::quoted(message)),
            ],
        ),
{
    lemma_no_members();
    law_built_values_are_plain("error"@, 0, true);
    law_built_values_are_plain(context, 0, true);
    let m0 = Seq::<(Seq<char>, Seq<char>)>::empty();
    law_members_are_separated(m0, "event"@, json::quoted("error"@));
    let m1 = m0.push(("event"@, json::quoted("error"@)));
    law_members_are_separated(m1, "context"@, json::quoted(context));
    let m2 = m1.push(("context"@, json::quoted(context)));
    law_members_are_separated(m2, "message"@, json::quoted(message));
    let m3 = m2.push(("message"@, json::quoted(message)));
    assert(m3 == seq![
        ("event"@, json::quoted("error"@)),
        ("context"@, json::quoted(context)),
        ("message"@, json::quoted(message)),
    ]);
}

/// The members on a measured count and what belongs to it, where the count is not zero.
pub open spec fn measured_members(
    count_key: Seq<char>,
    count: nat,
    value_key: Seq<char>,
    value: Seq<char>,
) -> Seq<(Seq<char>, Seq<char>)> {
    if count > 0 {
        seq![(count_key, number::dec(count)), (value_key, value)]
    } else {
        seq![]
    }
}

proof fn lemma_measured(
    members: Seq<(Seq<char>, Seq<char>)>,
    count_key: Seq<char>,
    count: nat,
    value_key: Seq<char>,
    value: Seq<char>,
)
    requires
        members.len() > 0,
        json::is_plain(members.last().1),
        json::is_plain(value),
    ensures
        ({
            let more = members + measured_members(count_key, count, value_key, value);
            &&& json::is_plain(more.last().1)
            &&& json::object_text(more) == if count > 0 {
                json::with_member(
                    json::with_member(json::object_text(members), count_key, number::dec(count)),
                    value_key,
                    value,
                )
            } else {
                json::object_text(members)
            }
        }),
{
    let more = members + measured_members(count_key, count, value_key, value);
    if count > 0 {
        law_built_values_are_plain(value, count as int, true);
        law_members_are_separated(members, count_key, number::dec(count));
        let m = members.push((count_key, number::dec(count)));
        law_members_are_separated(m, value_key, value);
        assert(more == m.push((value_key, value)));
    } else {
        assert(more == members);
    }
}

/// A `close` event tells the connection, the UUID and version of the token, the label of its
/// key, whether TLS was used, how it ended, how long it lasted and how many commands there
/// were; and then the downloads, uploads and pings, each where there were any.
pub proof fn law_close_event(
    conn_id: usize,
    uuid: Seq<char>,
    token_type: Seq<char>,
    secret: Seq<char>,
    tls: bool,
    m: Measured,
    stats: ConnStats,
    end: Seq<char>,
)
    requires
        conn_id <= i64::MAX,
        stats.download_bytes <= i64::MAX,
        stats.upload_bytes <= i64::MAX,
        json::is_number(m.duration_ms.shown()),
        json::is_number(m.dl_mbps.shown()),
        json::is_number(m.ul_mbps.shown()),
        json::is_number(m.ping_min_ms.shown()),
    ensures
        events::close_body(conn_id, uuid, token_type, secret, tls, m, stats, end) == object(
            seq![
                ("event"@, json::quoted("close"@)),
                ("conn"@, number::dec(conn_id as nat)),
                ("uuid"@, json::quoted(uuid)),
                ("token"@, json::quoted(token_type)),
                ("secret"@, json::quoted(secret)),
                ("tls"@, json::truth(tls)),
                ("end"@, json::quoted(end)),
                ("duration_ms"@, m.duration_ms.shown()),
                ("commands"@, number::dec(stats.commands as nat)),
            ] + measured_members(
                "dl_bytes"@,
                stats.download_bytes as nat,
                "dl_mbps"@,
                m.dl_mbps.shown(),
            ) + measured_members(
                "ul_bytes"@,
                stats.upload_bytes as nat,
                "ul_mbps"@,
                m.ul_mbps.shown(),
            ) + measured_members(
                "ping_count"@,
                stats.ping_count as nat,
                "ping_min_ms"@,
                m.ping_min_ms.shown(),
            ),
        ),
{
    lemma_no_members();
    law_built_values_are_plain("close"@, conn_id as int, tls);
    law_built_values_are_plain(uuid, stats.commands as int, tls);
    law_built_values_are_plain(token_type, 0, tls);
    law_built_values_are_plain(secret, 0, tls);
    law_built_values_are_plain(end, 0, tls);
    law_numbers_are_plain(m.duration_ms.shown());
    law_numbers_are_plain(m.dl_mbps.shown());
    law_numbers_are_plain(m.ul_mbps.shown());
    law_numbers_are_plain(m.ping_min_ms.shown());
    let m0 = Seq::<(Seq<char>, Seq<char>)>::empty();
    law_members_are_separated(m0, "event"@, json::quoted("close"@));
    let m1 = m0.push(("event"@, json::quoted("close"@)));
    law_members_are_separated(m1, "conn"@, number::dec(conn_id as nat));
    let m2 = m1.push(("conn"@, number::dec(conn_id as nat)));
    law_members_are_separated(m2, "uuid"@, json::quoted(uuid));
    let m3 = m2.push(("uuid"@, json::quoted(uuid)));
    law_members_are_separated(m3, "token"@, json::quoted(token_type));
    let m4 = m3.push(("token"@, json::quoted(token_type)));
    law_members_are_separated(m4, "secret"@, json::quoted(secret));
    let m5 = m4.push(("secret"@, json::quoted(secret)));
    law_members_are_separated(m5, "tls"@, json::truth(tls));
    let m6 = m5.push(("tls"@, json::truth(tls)));
    law_members_are_separated(m6, "end"@, json::quoted(end));
    let m7 = m6.push(("end"@, json::quoted(end)));
    law_members_are_separated(m7, "duration_ms"@, m.duration_ms.shown());
    let m8 = m7.push(("duration_ms"@, m.duration_ms.shown()));
    law_members_are_separated(m8, "commands"@, number::dec(stats.commands as nat));
    let m9 = m8.push(("commands"@, number::dec(stats.commands as nat)));
    assert(m9 == seq![
        ("event"@, json::quoted("close"@)),
        ("conn"@, number::dec(conn_id as nat)),
        ("uuid"@, json::quoted(uuid)),
        ("token"@, json::quoted(token_type)),
        ("secret"@, json::quoted(secret)),
        ("tls"@, json::truth(tls)),
        ("end"@, json::quoted(end)),
        ("duration_ms"@, m.duration_ms.shown()),
        ("commands"@, number::dec(stats.commands as nat)),
    ]);
    let dl = measured_members(
        "dl_bytes"@,
        stats.download_bytes as nat,
        "dl_mbps"@,
        m.dl_mbps.shown(),
    );
    let ul = measured_members(
        "ul_bytes"@,
        stats.upload_bytes as nat,
        "ul_mbps"@,
        m.ul_mbps.shown(),
    );
    lemma_measured(
        m9,
        "dl_bytes"@,
        stats.download_bytes as nat,
        "dl_mbps"@,
        m.dl_mbps.shown(),
    );
    lemma_measured(
        m9 + dl,
        "ul_bytes"@,
        stats.upload_bytes as nat,
        "ul_mbps"@,
        m.ul_mbps.shown(),
    );
    lemma_measured(
        m9 + dl + ul,
        "ping_count"@,
        stats.ping_count as nat,
        "ping_min_ms"@,
        m.ping_min_ms.shown(),
    );
}

// ── Frames ──────────────────────────────────────────────────────────────────────
/// A frame holds, in this order, the priority of its severity in facility 16, the version 1,
/// the timestamp, the host, the name of the program, the process, the kind of event and the
/// body, and its two numbers read back.
pub proof fn law_frame_fields(
    sink: EventSink,
    severity: u8,
    msgid: Seq<char>,
    body: Seq<char>,
    ts: Seq<char>,
)
    ensures
        exists|p: Seq<char>, q: Seq<char>|
            events::frame(sink, severity, msgid, body, ts) == "<"@ + p + ">1 "@ + ts + " "@
                + sink.hostname@ + " rmbtd "@ + q + " "@ + msgid + " - "@ + body
                && number::all_digits(p) && number::all_digits(q)
                && #[trigger] number::digits_value(p) == 16 * 8 + severity
                && #[trigger] number::digits_value(q) == sink.procid,
{
    let p = number::dec((16 * 8 + severity) as nat);
    let q = number::dec(sink.procid as nat);
    number::law_decimal_roundtrip((16 * 8 + severity) as nat);
    number::law_decimal_roundtrip(sink.procid as nat);
    assert(events::frame(sink, severity, msgid, body, ts) == "<"@ + p + ">1 "@ + ts + " "@
        + sink.hostname@ + " rmbtd "@ + q + " "@ + msgid + " - "@ + body);
    assert(number::digits_value(p) == 16 * 8 + severity && number::digits_value(q) == sink.procid);
}

/// A frame is dated with its moment, to the nanosecond that is given.
pub proof fn law_frame_is_dated(
    sink: EventSink,
    severity: u8,
    msgid: Seq<char>,
    body: Seq<char>,
    at: Moment,
)
    ensures
        events::rfc3339_millis(at.secs as int, at.nanos as int) matches Some(ts)
            ==> events::frame_at(sink, severity, msgid, body, at) == Some(
            events::frame(sink, severity, msgid, body, ts),
        ),
        events::rfc3339_millis(at.secs as int, at.nanos as int) is None ==> events::frame_at(
            sink,
            severity,
            msgid,
            body,
            at,
        ) is None,
{
}

/// The host is `$HOSTNAME` as it is, else `$COMPUTERNAME`, and `-` where that is empty or
/// neither is set.
pub proof fn law_host(name: Seq<char>, other: Option<Seq<char>>)
    ensures
        name.len() > 0 ==> events::host_label(Some(name), other) == name,
        name.len() > 0 ==> events::host_label(None, Some(name)) == name,
        events::host_label(Some(Seq::<char>::empty()), other) == "-"@,
        events::host_label(None, Some(Seq::<char>::empty())) == "-"@,
        events::host_label(None, None) == "-"@,
{
}

/// A ping counts once, and is the shortest or the longest where it is shorter or longer than
/// all before it.
pub proof fn law_ping_counts(s: ConnStats, ns: u128)
    requires
        s.ping_count < u32::MAX,
    ensures
        ({
            let t = events::with_ping(s, ns);
            &&& t.ping_count == s.ping_count + 1
            &&& ns < s.ping_min_ns ==> t.ping_min_ns == ns
            &&& ns >= s.ping_min_ns ==> t.ping_min_ns == s.ping_min_ns
            &&& ns > s.ping_max_ns ==> t.ping_max_ns == ns
            &&& ns <= s.ping_max_ns ==> t.ping_max_ns == s.ping_max_ns
            &&& t.download_bytes == s.download_bytes
            &&& t.download_ns == s.download_ns
            &&& t.upload_bytes == s.upload_bytes
            &&& t.upload_ns == s.upload_ns
            &&& t.commands == s.commands
        }),
{
}

} // verus!
