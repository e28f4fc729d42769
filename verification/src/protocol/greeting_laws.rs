//! What the greeting makes of a client's lines, in terms of their characters.

use vstd::prelude::*;
use crate::config::constants::{MAX_ACCEPT_EARLY, MAX_ACCEPT_LATE};
use crate::config::SecretKey;
use crate::net::IpAddr;
use crate::protocol::greeting::{
    self, ActionView, AuthView, EventView, GreetingError, GreetingView, Opening, Stage,
};
use crate::protocol::issue_laws;
use crate::protocol::token::{self, Verdict};
use crate::text_laws::{self, law_prefix, law_split_at_char, law_trim, law_trim_is_a_part};
use crate::{number, text};

verus! {

// ── Lines ───────────────────────────────────────────────────────────────────────
/// The token of a line `TOKEN <token>` is its own text, character by character, without the
/// white space around it. Where tokens are checked, the address of the client is looked up
/// next, and else the client is welcomed.
pub proof fn law_token_line(
    s: GreetingView,
    pre: Seq<char>,
    token: Seq<char>,
    post: Seq<char>,
    any: Verdict,
)
    requires
        s.stage == Stage::AwaitLine,
        text_laws::all_white(pre),
        text_laws::all_white(post),
        text_laws::is_trimmed(token),
    ensures
        greeting::opening("TOKEN "@ + (pre + token + post)) == Opening::Token(token),
        s.check_token ==> greeting::step(
            s,
            EventView::Line("TOKEN "@ + (pre + token + post)),
            any,
        ) == (GreetingView { stage: Stage::AwaitPeer, token, ..s }, ActionView::AskPeer),
        !s.check_token ==> greeting::step(
            s,
            EventView::Line("TOKEN "@ + (pre + token + post)),
            any,
        ) == (
            GreetingView { stage: Stage::Acknowledged, token, auth: AuthView::NotChecked, ..s },
            ActionView::Send("OK\n"@),
        ),
{
    reveal_strlit("TOKEN ");
    let rest = pre + token + post;
    let line = "TOKEN "@ + rest;
    law_prefix("TOKEN "@, rest, line);
    assert(line.skip(6) == rest);
    law_trim(pre, token, post);
    let (a, b) = law_trim_is_a_part(line);
    if text::trim(line).len() == 0 {
        assert(line == a + b);
        assert(line[0] == 'T');
        if a.len() > 0 {
            assert(a[0] == line[0]);
        } else {
            assert(b[0] == line[0]);
        }
    }
}

/// A line of white space alone is skipped, and a line that begins with `QUIT`, after white
/// space, is answered with `BYE`.
pub proof fn law_blank_and_quit_lines(
    s: GreetingView,
    pre: Seq<char>,
    rest: Seq<char>,
    any: Verdict,
)
    requires
        s.stage == Stage::AwaitLine,
        text_laws::all_white(pre),
    ensures
        greeting::step(s, EventView::Line(pre), any) == (s, ActionView::ReadLine),
        greeting::step(s, EventView::Line(pre + ("QUIT"@ + rest)), any) == (
            GreetingView { stage: Stage::Dropping(GreetingError::QuitBeforeToken), ..s },
            ActionView::Send("BYE\n"@),
        ),
{
    reveal_strlit("QUIT");
    reveal_strlit("TOKEN ");
    let none = Seq::<char>::empty();
    assert(pre + none + none == pre);
    law_trim(pre, none, none);
    let t = "QUIT"@ + rest;
    let line = pre + t;
    assert(t[0] == 'Q');
    text_laws::lemma_trim_start(pre, t);
    law_prefix("QUIT"@, rest, t);
    if text::begins_with(line, "TOKEN "@) {
        assert(line.subrange(0, 6)[0] == 'T');
        assert(line[0] == 'T');
        if pre.len() > 0 {
            assert(text::is_white(pre[0]));
        }
    }
    let (a, b) = law_trim_is_a_part(line);
    if text::trim(line).len() == 0 {
        assert(line == a + b);
        let k = pre.len() as int;
        assert(line[k] == 'Q');
        if k < a.len() {
            assert(a[k] == line[k]);
        } else {
            assert(b[k - a.len()] == line[k]);
        }
    }
}

/// Any other line is answered with `ERR`.
pub proof fn law_other_lines(s: GreetingView, pre: Seq<char>, t: Seq<char>, any: Verdict)
    requires
        s.stage == Stage::AwaitLine,
        text_laws::all_white(pre),
        t.len() > 0,
        !text::is_white(t[0]),
        !text::begins_with(pre + t, "TOKEN "@),
        !text::begins_with(t, "QUIT"@),
    ensures
        greeting::step(s, EventView::Line(pre + t), any) == (
            GreetingView { stage: Stage::Dropping(GreetingError::ExpectedToken), ..s },
            ActionView::Send("ERR\n"@),
        ),
{
    let line = pre + t;
    text_laws::lemma_trim_start(pre, t);
    let (a, b) = law_trim_is_a_part(line);
    if text::trim(line).len() == 0 {
        assert(line == a + b);
        let k = pre.len() as int;
        assert(line[k] == t[0]);
        if k < a.len() {
            assert(a[k] == line[k]);
        } else {
            assert(b[k - a.len()] == line[k]);
        }
    }
}

/// The range of chunk sizes reads back as 4096, 4096 and the largest size.
pub proof fn law_chunk_sizes_are_told(max: Option<u32>)
    ensures
        exists|d: Seq<char>, e: Seq<char>, f: Seq<char>|
            greeting::chunk_size_line(max) == "CHUNKSIZE "@ + d + " "@ + e + " "@ + f + "\n"@
                && number::all_digits(d) && number::all_digits(e) && number::all_digits(f)
                && #[trigger] number::digits_value(d) == 4096 && #[trigger] number::digits_value(e)
                == 4096 && #[trigger] number::digits_value(f) == match max {
                Some(n) => n as nat,
                None => 4_194_304nat,
            },
{
    let n = match max {
        Some(n) => n as nat,
        None => 4_194_304nat,
    };
    number::law_decimal_roundtrip(4096);
    number::law_decimal_roundtrip(n);
    let d = number::dec(4096);
    let f = number::dec(n);
    assert(greeting::chunk_size_line(max) == "CHUNKSIZE "@ + d + " "@ + d + " "@ + f + "\n"@);
    assert(number::digits_value(d) == 4096 && number::digits_value(f) == n);
}

// ── What is told of a token ─────────────────────────────────────────────────────
/// The UUID is the token's text up to its first underscore, all of it without one.
pub proof fn law_uuid_is_the_first_field(uuid: Seq<char>, rest: Seq<char>)
    requires
        !uuid.contains('_'),
    ensures
        greeting::uuid_of(uuid + "_"@ + rest) == uuid,
        greeting::uuid_of(uuid) == uuid,
{
    reveal_strlit("_");
    assert("_"@ == seq!['_']);
    law_split_at_char(uuid, '_', rest);
}

/// A token is of version 2 exactly when it holds the marker `#v2#`.
pub proof fn law_token_version(token: Seq<char>)
    ensures
        (exists|i: int| text::occurs_at(token, "#v2#"@, i)) ==> greeting::token_type_of(token)
            == "v2"@,
        !(exists|i: int| text::occurs_at(token, "#v2#"@, i)) ==> greeting::token_type_of(token)
            == "v1"@,
{
    issue_laws::law_marker_decides_the_version(token);
}

/// Each rejection has its own code, and only a token outside its window has a detail.
pub proof fn law_rejection_codes(sleep_secs: nat, text: Seq<char>)
    ensures
        greeting::reason_of(Verdict::Accepted { sleep_secs, label: text }) == ""@,
        greeting::reason_of(Verdict::InvalidHmac) == "invalid_hmac"@,
        greeting::reason_of(Verdict::InvalidIp) == "invalid_ip"@,
        greeting::reason_of(Verdict::TooEarly { reason: text }) == "too_early"@,
        greeting::reason_of(Verdict::TooLate { reason: text }) == "too_late"@,
        greeting::reason_of(Verdict::ParseError) == "parse_error"@,
        greeting::reason_of(Verdict::V2Required) == "v2_required"@,
        greeting::detail_of(Verdict::TooEarly { reason: text }) == text,
        greeting::detail_of(Verdict::TooLate { reason: text }) == text,
        greeting::detail_of(Verdict::InvalidHmac) == ""@,
        greeting::detail_of(Verdict::InvalidIp) == ""@,
        greeting::detail_of(Verdict::ParseError) == ""@,
        greeting::detail_of(Verdict::V2Required) == ""@,
{
}

/// The log line on a token tells the number of the connection, the UUID, and the label of the
/// key or the reason of the rejection, each as it is.
pub proof fn law_log_lines_tell_the_token(
    conn_id: usize,
    uuid: Seq<char>,
    rest: Seq<char>,
    label: Seq<char>,
    reason: Seq<char>,
    detail: Seq<char>,
)
    requires
        !uuid.contains('_'),
        detail.len() > 0,
    ensures
        ({
            let token = uuid + "_"@ + rest;
            let start = "[conn "@ + number::dec(conn_id as nat) + "] "@;
            &&& number::digits_value(number::dec(conn_id as nat)) == conn_id
            &&& greeting::auth_text(conn_id, token, AuthView::Pending) is None
            &&& greeting::auth_text(conn_id, token, AuthView::NotChecked) == Some(
                start + "token NOT CHECKED; uuid="@ + uuid,
            )
            &&& greeting::auth_text(conn_id, token, AuthView::Accepted { label }) == Some(
                start + "valid token; uuid="@ + uuid + " key='"@ + label + "'"@,
            )
            &&& greeting::auth_text(conn_id, token, AuthView::Rejected { reason, detail }) == Some(
                start + "token rejected: "@ + detail + "; uuid="@ + uuid,
            )
            &&& greeting::auth_text(
                conn_id,
                token,
                AuthView::Rejected { reason, detail: Seq::<char>::empty() },
            ) == Some(start + "token rejected: "@ + reason + "; uuid="@ + uuid)
        }),
{
    number::law_decimal_roundtrip(conn_id as nat);
    law_uuid_is_the_first_field(uuid, rest);
}

// ── Verdicts ────────────────────────────────────────────────────────────────────
/// A new greeting follows the settings, and no step changes them. The token stays what the
/// client sent, once it is known.
pub proof fn law_settings_stay(
    s: GreetingView,
    event: EventView,
    verdict: Verdict,
    check_token: bool,
    v2_only: bool,
    max_chunk_size: Option<u32>,
)
    ensures
        ({
            let f = greeting::fresh(check_token, v2_only, max_chunk_size);
            &&& f.check_token == check_token
            &&& f.v2_only == v2_only
            &&& f.max_chunk_size == max_chunk_size
            &&& f.stage == Stage::Start
            &&& f.auth == AuthView::Pending
        }),
        ({
            let t = greeting::step(s, event, verdict).0;
            &&& t.check_token == s.check_token
            &&& t.v2_only == s.v2_only
            &&& t.max_chunk_size == s.max_chunk_size
            &&& s.stage != Stage::AwaitLine ==> t.token == s.token
        }),
{
}

/// The verdict that answers the address of the client is the one on its own token, from that
/// address, with all the keys and the settings of the server, at times that the clock showed.
pub proof fn law_verdict_is_on_this_client(
    s: GreetingView,
    ip: Option<IpAddr>,
    keys: Seq<SecretKey>,
    verdict: Verdict,
)
    requires
        s.stage == Stage::AwaitPeer,
        greeting::possible(s, EventView::Peer(ip), keys, verdict),
    ensures
        exists|now: i64, later: i64|
            verdict == #[trigger] token::token_verdict(
                s.token,
                keys,
                ip,
                s.v2_only,
                now as int,
                later as int,
            ),
{
}

/// A client that sends `TOKEN` and a v2 token made by the recipe for its address, IPv4 or
/// IPv6, is welcomed while the window is open: at once, or after the time by which it came
/// early.
pub proof fn law_made_v2_token_is_welcomed(
    s: GreetingView,
    raw: Seq<char>,
    prefix: Seq<char>,
    v2: Seq<char>,
    keys: Seq<SecretKey>,
    k: int,
    time: Seq<u8>,
    ip16: Seq<u8>,
    ip: IpAddr,
    start_time: int,
    now: int,
    later: int,
    any: Verdict,
)
    requires
        s.stage == Stage::AwaitLine,
        s.check_token,
        text_laws::is_trimmed(raw),
        0 <= k < keys.len(),
        issue_laws::bytes_of_time(time, start_time),
        issue_laws::bytes_of_address(ip16, ip),
        issue_laws::made_by(raw, prefix, v2, keys[k], time, ip16),
        forall|j: int|
            0 <= j < k ==> issue_laws::time_tag(#[trigger] keys[j], time).take(8)
                != issue_laws::time_tag(keys[k], time).take(8),
        -0x8000_0000 < start_time - now < 0x8000_0000,
        start_time - MAX_ACCEPT_EARLY <= later <= start_time + MAX_ACCEPT_LATE,
    ensures
        ({
            let (t, ask) = greeting::step(s, EventView::Line("TOKEN "@ + raw), any);
            let verdict = token::token_verdict(raw, keys, Some(ip), s.v2_only, now, later);
            let (u, answer) = greeting::step(t, EventView::Peer(Some(ip)), verdict);
            &&& ask == ActionView::AskPeer
            &&& t.token == raw
            &&& u.auth == (AuthView::Accepted { label: keys[k].label@ })
            &&& answer == if later < start_time {
                ActionView::Sleep { secs: (start_time - later) as nat }
            } else {
                ActionView::Send("OK\n"@)
            }
        }),
{
    let none = Seq::<char>::empty();
    assert(none + raw + none == raw);
    law_token_line(s, none, raw, none, any);
    issue_laws::law_made_v2_token_is_accepted(
        raw,
        prefix,
        v2,
        keys,
        k,
        time,
        ip16,
        ip,
        s.v2_only,
        start_time,
        now,
        later,
    );
}

/// An event that does not answer the last action ends the greeting: a line is taken only where
/// one is awaited, and the address of the client likewise.
pub proof fn law_greeting_events_come_in_turn(s: GreetingView, event: EventView, verdict: Verdict)
    ensures
        ({
            let fitting = match s.stage {
                Stage::AwaitLine => event is Line,
                Stage::AwaitPeer => event is Peer,
                Stage::Over => false,
                _ => event is Done,
            };
            !fitting ==> greeting::step(s, event, verdict) == (
                GreetingView { stage: Stage::Over, ..s },
                ActionView::Fail(GreetingError::OutOfTurn),
            )
        }),
{
}

} // verus!
