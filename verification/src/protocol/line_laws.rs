//! What a client's lines come to and what the server's lines say, in terms of the characters
//! on the wire.

use vstd::prelude::*;
use crate::config::constants::{MAX_CHUNKS, MAX_CHUNK_SIZE, MAX_SECONDS, MIN_CHUNK_SIZE};
use crate::protocol::commands::{
    self, ActionView, EventView, Phase, Request, Session,
};
use crate::text_laws::{self, law_split_at_char, law_trim, law_trim_keeps};
use crate::{number, text};

verus! {

// ── Fields ──────────────────────────────────────────────────────────────────────
proof fn lemma_space()
    ensures
        " "@ == seq![' '],
{
    reveal_strlit(" ");
}

/// A line of one, two or three words, whatever white space is around it, has these words as
/// its fields.
pub proof fn law_words_are_the_fields(
    pre: Seq<char>,
    a: Seq<char>,
    b: Seq<char>,
    c: Seq<char>,
    post: Seq<char>,
)
    requires
        text_laws::all_white(pre),
        text_laws::all_white(post),
        text_laws::is_word(a),
        text_laws::is_word(b),
        text_laws::is_word(c),
    ensures
        commands::fields(pre + a + post) == (a, Seq::<char>::empty(), Seq::<char>::empty()),
        commands::fields(pre + (a + " "@ + b) + post) == (a, b, Seq::<char>::empty()),
        commands::fields(pre + (a + " "@ + (b + " "@ + c)) + post) == (a, b, c),
{
    lemma_space();
    text_laws::lemma_word_has_no_space(a);
    text_laws::lemma_word_has_no_space(b);
    text_laws::lemma_word_has_no_space(c);
    law_trim(pre, a, post);
    let ab = a + " "@ + b;
    assert(ab[0] == a[0] && ab[ab.len() - 1] == b[b.len() - 1]);
    law_trim(pre, ab, post);
    let bc = b + " "@ + c;
    let abc = a + " "@ + bc;
    assert(abc[0] == a[0] && abc[abc.len() - 1] == c[c.len() - 1]);
    law_trim(pre, abc, post);
    law_split_at_char(a, ' ', b);
    law_split_at_char(a, ' ', bc);
    law_split_at_char(b, ' ', c);
    law_trim_keeps(b);
    law_trim_keeps(c);
}

proof fn lemma_names()
    ensures
        text_laws::is_word("GETTIME"@),
        text_laws::is_word("GETCHUNKS"@),
        text_laws::is_word("PUT"@),
        text_laws::is_word("PUTNORESULT"@),
        text_laws::is_word("PING"@),
        text_laws::is_word("QUIT"@),
        "GETTIME"@.len() == 7,
        "GETCHUNKS"@.len() == 9,
        "PUT"@.len() == 3,
        "PUTNORESULT"@.len() == 11,
        "PING"@.len() == 4,
        "QUIT"@.len() == 4,
        "PING"@[0] == 'P',
        "QUIT"@[0] == 'Q',
{
    reveal_strlit("GETTIME");
    reveal_strlit("GETCHUNKS");
    reveal_strlit("PUT");
    reveal_strlit("PUTNORESULT");
    reveal_strlit("PING");
    reveal_strlit("QUIT");
}

// ── Requests ────────────────────────────────────────────────────────────────────
/// `PUT <n>` and `PUTNORESULT <n>` ask for an upload in chunks of `n` bytes, and without an
/// argument for one in chunks of the present size. `PUT` asks for reports. The server grants
/// the upload with `OK`.
pub proof fn law_upload_lines(n: usize, s: Session, pre: Seq<char>, post: Seq<char>, t: u128)
    requires
        MIN_CHUNK_SIZE <= n <= MAX_CHUNK_SIZE,
        s.phase is Command,
        text_laws::all_white(pre),
        text_laws::all_white(post),
    ensures
        commands::command(pre + ("PUT"@ + " "@ + number::dec(n as nat)) + post, s.chunk_size) == (
            n,
            Request::Put { report: true },
        ),
        commands::command(
            pre + ("PUTNORESULT"@ + " "@ + number::dec(n as nat)) + post,
            s.chunk_size,
        ) == (n, Request::Put { report: false }),
        commands::command(pre + "PUT"@ + post, s.chunk_size) == (
            s.chunk_size,
            Request::Put { report: true },
        ),
        commands::command(pre + "PUTNORESULT"@ + post, s.chunk_size) == (
            s.chunk_size,
            Request::Put { report: false },
        ),
        commands::step(
            s,
            EventView::Line(pre + ("PUT"@ + " "@ + number::dec(n as nat)) + post),
            t,
        ) == (
            Session { chunk_size: n, phase: Phase::Granted { report: true } },
            ActionView::Send("OK\n"@),
        ),
        commands::step(
            s,
            EventView::Line(pre + ("PUTNORESULT"@ + " "@ + number::dec(n as nat)) + post),
            t,
        ) == (
            Session { chunk_size: n, phase: Phase::Granted { report: false } },
            ActionView::Send("OK\n"@),
        ),
{
    lemma_names();
    let d = number::dec(n as nat);
    text_laws::lemma_decimal_is_word(n as nat);
    number::law_unsigned_reads_decimal(n as nat, usize::MAX as nat);
    law_words_are_the_fields(pre, "PUT"@, d, d, post);
    law_words_are_the_fields(pre, "PUTNORESULT"@, d, d, post);
}

/// `GETTIME <seconds>` asks for a download of that many seconds in chunks of the present
/// size, and `GETTIME <seconds> <n>` for one in chunks of `n` bytes.
pub proof fn law_timed_download_lines(
    seconds: u32,
    n: usize,
    s: Session,
    pre: Seq<char>,
    post: Seq<char>,
    t: u128,
)
    requires
        1 <= seconds <= MAX_SECONDS,
        MIN_CHUNK_SIZE <= n <= MAX_CHUNK_SIZE,
        s.phase is Command,
        text_laws::all_white(pre),
        text_laws::all_white(post),
    ensures
        commands::command(
            pre + ("GETTIME"@ + " "@ + number::dec(seconds as nat)) + post,
            s.chunk_size,
        ) == (s.chunk_size, Request::GetTime { seconds }),
        commands::command(
            pre + ("GETTIME"@ + " "@ + (number::dec(seconds as nat) + " "@ + number::dec(n as nat)))
                + post,
            s.chunk_size,
        ) == (n, Request::GetTime { seconds }),
        commands::step(
            s,
            EventView::Line(
                pre + ("GETTIME"@ + " "@ + (number::dec(seconds as nat) + " "@ + number::dec(
                    n as nat,
                ))) + post,
            ),
            t,
        ) == (
            Session {
                chunk_size: n,
                phase: Phase::Timed { max_ns: (seconds * 1_000_000_000) as u128 },
            },
            ActionView::StartClock,
        ),
{
    lemma_names();
    let a = number::dec(seconds as nat);
    let d = number::dec(n as nat);
    text_laws::lemma_decimal_is_word(seconds as nat);
    text_laws::lemma_decimal_is_word(n as nat);
    number::law_unsigned_reads_decimal(n as nat, usize::MAX as nat);
    number::law_unsigned_reads_decimal(seconds as nat, u32::MAX as nat);
    law_words_are_the_fields(pre, "GETTIME"@, a, d, post);
}

/// `GETCHUNKS <count>` asks for that many chunks of the present size, and
/// `GETCHUNKS <count> <n>` for that many of `n` bytes.
pub proof fn law_counted_download_lines(
    count: u32,
    n: usize,
    s: Session,
    pre: Seq<char>,
    post: Seq<char>,
    t: u128,
)
    requires
        1 <= count <= MAX_CHUNKS,
        MIN_CHUNK_SIZE <= n <= MAX_CHUNK_SIZE,
        s.phase is Command,
        text_laws::all_white(pre),
        text_laws::all_white(post),
    ensures
        commands::command(
            pre + ("GETCHUNKS"@ + " "@ + number::dec(count as nat)) + post,
            s.chunk_size,
        ) == (s.chunk_size, Request::GetChunks { count }),
        commands::command(
            pre + ("GETCHUNKS"@ + " "@ + (number::dec(count as nat) + " "@ + number::dec(n as nat)))
                + post,
            s.chunk_size,
        ) == (n, Request::GetChunks { count }),
        commands::step(
            s,
            EventView::Line(
                pre + ("GETCHUNKS"@ + " "@ + (number::dec(count as nat) + " "@ + number::dec(
                    n as nat,
                ))) + post,
            ),
            t,
        ) == (
            Session { chunk_size: n, phase: Phase::Counted { left: count } },
            ActionView::StartClock,
        ),
{
    lemma_names();
    let a = number::dec(count as nat);
    let d = number::dec(n as nat);
    text_laws::lemma_decimal_is_word(count as nat);
    text_laws::lemma_decimal_is_word(n as nat);
    number::law_unsigned_reads_decimal(n as nat, usize::MAX as nat);
    number::law_unsigned_reads_decimal(count as nat, u32::MAX as nat);
    law_words_are_the_fields(pre, "GETCHUNKS"@, a, d, post);
}

/// `PING` asks for a ping and `QUIT` for the end, whatever words follow, and neither touches
/// the chunk size.
pub proof fn law_plain_lines(
    s: Session,
    word: Seq<char>,
    pre: Seq<char>,
    post: Seq<char>,
    t: u128,
)
    requires
        s.phase is Command,
        text_laws::is_word(word),
        text_laws::all_white(pre),
        text_laws::all_white(post),
    ensures
        commands::command(pre + "PING"@ + post, s.chunk_size) == (s.chunk_size, Request::Ping),
        commands::command(pre + "QUIT"@ + post, s.chunk_size) == (s.chunk_size, Request::Quit),
        commands::command(pre + ("PING"@ + " "@ + word) + post, s.chunk_size) == (
            s.chunk_size,
            Request::Ping,
        ),
        commands::command(pre + ("QUIT"@ + " "@ + word) + post, s.chunk_size) == (
            s.chunk_size,
            Request::Quit,
        ),
        commands::step(s, EventView::Line(pre + "PING"@ + post), t) == (
            Session { chunk_size: s.chunk_size, phase: Phase::PingStart },
            ActionView::StartClock,
        ),
        commands::step(s, EventView::Line(pre + "QUIT"@ + post), t) == (
            Session { chunk_size: s.chunk_size, phase: Phase::Leaving },
            ActionView::Send("BYE\n"@),
        ),
{
    lemma_names();
    law_words_are_the_fields(pre, "PING"@, word, word, post);
    law_words_are_the_fields(pre, "QUIT"@, word, word, post);
}

// ── Refused requests ────────────────────────────────────────────────────────────
/// The number cannot be a chunk size.
pub open spec fn outside_sizes(n: nat) -> bool {
    n < MIN_CHUNK_SIZE || n > MAX_CHUNK_SIZE
}

/// A command with a chunk size that is too small or too large is refused, and the present
/// chunk size stays.
pub proof fn law_chunk_size_out_of_range_is_refused(
    n: nat,
    count: nat,
    s: Session,
    pre: Seq<char>,
    post: Seq<char>,
    t: u128,
)
    requires
        outside_sizes(n),
        s.phase is Command,
        text_laws::all_white(pre),
        text_laws::all_white(post),
    ensures
        commands::command(pre + ("PUT"@ + " "@ + number::dec(n)) + post, s.chunk_size) == (
            s.chunk_size,
            Request::Invalid,
        ),
        commands::command(pre + ("PUTNORESULT"@ + " "@ + number::dec(n)) + post, s.chunk_size) == (
            s.chunk_size,
            Request::Invalid,
        ),
        commands::command(
            pre + ("GETTIME"@ + " "@ + (number::dec(count) + " "@ + number::dec(n))) + post,
            s.chunk_size,
        ) == (s.chunk_size, Request::Invalid),
        commands::command(
            pre + ("GETCHUNKS"@ + " "@ + (number::dec(count) + " "@ + number::dec(n))) + post,
            s.chunk_size,
        ) == (s.chunk_size, Request::Invalid),
        commands::step(s, EventView::Line(pre + ("PUT"@ + " "@ + number::dec(n)) + post), t) == (
            Session { chunk_size: s.chunk_size, phase: Phase::Ready },
            ActionView::Send("ERR\n"@),
        ),
{
    lemma_names();
    let d = number::dec(n);
    let a = number::dec(count);
    text_laws::lemma_decimal_is_word(n);
    text_laws::lemma_decimal_is_word(count);
    number::law_unsigned_reads_decimal(n, usize::MAX as nat);
    law_words_are_the_fields(pre, "PUT"@, d, d, post);
    law_words_are_the_fields(pre, "PUTNORESULT"@, d, d, post);
    law_words_are_the_fields(pre, "GETTIME"@, a, d, post);
    law_words_are_the_fields(pre, "GETCHUNKS"@, a, d, post);
}

/// A download of no seconds or chunks, or of too many, is refused. A valid chunk size in the
/// refused line is in force from then on.
pub proof fn law_count_out_of_range_is_refused(
    seconds: nat,
    count: nat,
    n: usize,
    chunk_size: usize,
    pre: Seq<char>,
    post: Seq<char>,
)
    requires
        seconds == 0 || seconds > MAX_SECONDS,
        count == 0 || count > MAX_CHUNKS,
        MIN_CHUNK_SIZE <= n <= MAX_CHUNK_SIZE,
        text_laws::all_white(pre),
        text_laws::all_white(post),
    ensures
        commands::command(pre + ("GETTIME"@ + " "@ + number::dec(seconds)) + post, chunk_size) == (
            chunk_size,
            Request::Invalid,
        ),
        commands::command(pre + ("GETCHUNKS"@ + " "@ + number::dec(count)) + post, chunk_size) == (
            chunk_size,
            Request::Invalid,
        ),
        commands::command(
            pre + ("GETTIME"@ + " "@ + (number::dec(seconds) + " "@ + number::dec(n as nat)))
                + post,
            chunk_size,
        ) == (n, Request::Invalid),
        commands::command(
            pre + ("GETCHUNKS"@ + " "@ + (number::dec(count) + " "@ + number::dec(n as nat)))
                + post,
            chunk_size,
        ) == (n, Request::Invalid),
        commands::command(pre + "GETTIME"@ + post, chunk_size) == (chunk_size, Request::Invalid),
        commands::command(pre + "GETCHUNKS"@ + post, chunk_size) == (chunk_size, Request::Invalid),
{
    lemma_names();
    let a = number::dec(seconds);
    let b = number::dec(count);
    let d = number::dec(n as nat);
    text_laws::lemma_decimal_is_word(seconds);
    text_laws::lemma_decimal_is_word(count);
    text_laws::lemma_decimal_is_word(n as nat);
    number::law_unsigned_reads_decimal(n as nat, usize::MAX as nat);
    number::law_unsigned_reads_decimal(seconds, u32::MAX as nat);
    number::law_unsigned_reads_decimal(count, u32::MAX as nat);
    number::law_unsigned_refuses(Seq::<char>::empty(), 0, u32::MAX as nat);
    law_words_are_the_fields(pre, "GETTIME"@, a, d, post);
    law_words_are_the_fields(pre, "GETCHUNKS"@, b, d, post);
}

/// An argument that is not a number is refused, and the present chunk size stays.
pub proof fn law_argument_must_be_a_number(
    word: Seq<char>,
    i: int,
    chunk_size: usize,
    pre: Seq<char>,
    post: Seq<char>,
)
    requires
        text_laws::is_word(word),
        0 <= i < word.len(),
        !('0' <= word[i] <= '9'),
        i == 0 ==> word[0] != '+' || word.len() == 1,
        text_laws::all_white(pre),
        text_laws::all_white(post),
    ensures
        commands::command(pre + ("PUT"@ + " "@ + word) + post, chunk_size) == (
            chunk_size,
            Request::Invalid,
        ),
        commands::command(pre + ("PUTNORESULT"@ + " "@ + word) + post, chunk_size) == (
            chunk_size,
            Request::Invalid,
        ),
        commands::command(pre + ("GETTIME"@ + " "@ + word) + post, chunk_size) == (
            chunk_size,
            Request::Invalid,
        ),
        commands::command(pre + ("GETCHUNKS"@ + " "@ + word) + post, chunk_size) == (
            chunk_size,
            Request::Invalid,
        ),
{
    lemma_names();
    number::law_unsigned_refuses(word, i, usize::MAX as nat);
    number::law_unsigned_refuses(word, i, u32::MAX as nat);
    law_words_are_the_fields(pre, "PUT"@, word, word, post);
    law_words_are_the_fields(pre, "PUTNORESULT"@, word, word, post);
    law_words_are_the_fields(pre, "GETTIME"@, word, word, post);
    law_words_are_the_fields(pre, "GETCHUNKS"@, word, word, post);
}

/// A line that begins with any other word is refused, and the present chunk size stays. The
/// names of the commands are in upper case.
pub proof fn law_other_words_are_refused(
    word: Seq<char>,
    b: Seq<char>,
    s: Session,
    pre: Seq<char>,
    post: Seq<char>,
    t: u128,
)
    requires
        text_laws::is_word(word),
        text_laws::is_word(b),
        word != "GETTIME"@,
        word != "GETCHUNKS"@,
        word != "PUT"@,
        word != "PUTNORESULT"@,
        word != "PING"@,
        word != "QUIT"@,
        s.phase is Command,
        text_laws::all_white(pre),
        text_laws::all_white(post),
    ensures
        commands::command(pre + word + post, s.chunk_size) == (s.chunk_size, Request::Invalid),
        commands::command(pre + (word + " "@ + b) + post, s.chunk_size) == (
            s.chunk_size,
            Request::Invalid,
        ),
        commands::step(s, EventView::Line(pre + word + post), t) == (
            Session { chunk_size: s.chunk_size, phase: Phase::Ready },
            ActionView::Send("ERR\n"@),
        ),
{
    law_words_are_the_fields(pre, word, b, b, post);
}

// ── Reports ─────────────────────────────────────────────────────────────────────
/// The line reads `TIME <ns>`, with the time in decimal digits.
pub open spec fn tells_time(line: Seq<char>, ns: nat) -> bool {
    exists|d: Seq<char>|
        line == "TIME "@ + d + "\n"@ && d.len() > 0 && number::all_digits(d)
            && #[trigger] number::digits_value(d) == ns
}

/// The line reads `TIME <ns> BYTES <bytes>`, with both numbers in decimal digits.
pub open spec fn tells_bytes(line: Seq<char>, ns: nat, bytes: nat) -> bool {
    exists|d: Seq<char>, e: Seq<char>|
        line == "TIME "@ + d + " BYTES "@ + e + "\n"@ && d.len() > 0 && e.len() > 0
            && number::all_digits(d) && number::all_digits(e) && #[trigger] number::digits_value(d)
            == ns && #[trigger] number::digits_value(e) == bytes
}

/// A report of a time reads back as the time, all of it.
pub proof fn law_time_line_reads_back(ns: u128)
    ensures
        tells_time(commands::time_line(ns), ns as nat),
{
    number::law_decimal_roundtrip(ns as nat);
    let d = number::dec(ns as nat);
    assert(commands::time_line(ns) == "TIME "@ + d + "\n"@ && number::digits_value(d) == ns);
}

/// Different times have different reports.
pub proof fn law_time_lines_differ(a: u128, b: u128)
    requires
        a != b,
    ensures
        commands::time_line(a) != commands::time_line(b),
{
    if commands::time_line(a) == commands::time_line(b) {
        let x = commands::time_line(a);
        let y = commands::time_line(b);
        reveal_strlit("TIME ");
        reveal_strlit("\n");
        assert(x.subrange(5, x.len() - 1) == number::dec(a as nat));
        assert(y.subrange(5, y.len() - 1) == number::dec(b as nat));
        number::law_decimal_injective(a as nat, b as nat);
    }
}

/// A report of a time and a count of bytes reads back as both, all of them.
pub proof fn law_bytes_line_reads_back(ns: u128, bytes: u64)
    ensures
        tells_bytes(commands::bytes_line(ns, bytes), ns as nat, bytes as nat),
{
    number::law_decimal_roundtrip(ns as nat);
    number::law_decimal_roundtrip(bytes as nat);
    let d = number::dec(ns as nat);
    let e = number::dec(bytes as nat);
    assert(commands::bytes_line(ns, bytes) == "TIME "@ + d + " BYTES "@ + e + "\n"@
        && number::digits_value(d) == ns && number::digits_value(e) == bytes);
}

/// When the client acknowledges a download or a ping with `OK`, whatever white space is
/// around it, it is told the time that has passed. Any other word is refused.
pub proof fn law_acknowledgement_is_answered_with_the_time(
    s: Session,
    word: Seq<char>,
    pre: Seq<char>,
    post: Seq<char>,
    elapsed_ns: u128,
)
    requires
        s.phase is Ack,
        text_laws::is_word(word),
        word != "OK"@,
        text_laws::all_white(pre),
        text_laws::all_white(post),
    ensures
        commands::step(s, EventView::Line(pre + "OK"@ + post), elapsed_ns).1 matches ActionView::Send(
            l,
        ) && tells_time(l, elapsed_ns as nat),
        commands::step(s, EventView::Line(pre + word + post), elapsed_ns).1 == ActionView::Send(
            "ERR\n"@,
        ),
{
    reveal_strlit("OK");
    law_trim(pre, "OK"@, post);
    text_laws::lemma_word_has_no_space(word);
    law_trim(pre, word, post);
    law_time_line_reads_back(elapsed_ns);
}

/// The end of an upload is answered with the time that has passed, and a report in between
/// tells the time and all the bytes that have come.
pub proof fn law_upload_answers_tell_the_time(
    s: Session,
    total_bytes: u64,
    last_report_ns: Option<u128>,
    count: usize,
    last_byte: u8,
    elapsed_ns: u128,
)
    requires
        s.wf(),
        count > 0,
        total_bytes + count <= u64::MAX,
    ensures
        ({
            let quiet = Session {
                phase: Phase::Receiving { report: false, total_bytes, last_report_ns },
                ..s
            };
            let (t, a) = commands::step(quiet, EventView::Data { count, last_byte }, elapsed_ns);
            if last_byte == 0xff && (total_bytes + count) % (s.chunk_size as int) == 0 {
                &&& t == Session { phase: Phase::Ready, ..s }
                &&& a matches ActionView::Send(l) && tells_time(l, elapsed_ns as nat)
            } else {
                &&& t.phase is Receiving
                &&& a is ReadData
            }
        }),
        ({
            let first = Session {
                phase: Phase::Receiving { report: true, total_bytes, last_report_ns: None },
                ..s
            };
            let (t, a) = commands::step(first, EventView::Data { count, last_byte }, elapsed_ns);
            &&& t.phase is Reported
            &&& a matches ActionView::Send(l) && tells_bytes(
                l,
                elapsed_ns as nat,
                (total_bytes + count) as nat,
            )
        }),
{
    law_time_line_reads_back(elapsed_ns);
    law_bytes_line_reads_back(elapsed_ns, (total_bytes + count) as u64);
}

// ── Sessions ────────────────────────────────────────────────────────────────────
/// The fields of a line are separated by single spaces: the first argument ends at the second
/// space, even where nothing stands between the two, and the second is all that follows.
pub proof fn law_fields_end_at_single_spaces(a: Seq<char>, x: Seq<char>, y: Seq<char>)
    requires
        text_laws::is_word(a),
        !x.contains(' '),
        y.len() > 0,
        !text::is_white(y[y.len() - 1]),
    ensures
        commands::fields(a + " "@ + (x + " "@ + y)) == (a, text::trim(x), text::trim(y)),
{
    lemma_space();
    text_laws::lemma_word_has_no_space(a);
    let rest = x + " "@ + y;
    let line = a + " "@ + rest;
    assert(line[0] == a[0] && line[line.len() - 1] == y[y.len() - 1]);
    law_trim_keeps(line);
    law_split_at_char(a, ' ', rest);
    law_split_at_char(x, ' ', y);
}

/// The chunk size changes with a command line only: every other step keeps it.
pub proof fn law_chunk_size_persists(s: Session, event: EventView, elapsed_ns: u128)
    ensures
        !(s.phase is Command && event is Line) ==> commands::step(s, event, elapsed_ns).0.chunk_size
            == s.chunk_size,
        s.phase is Command ==> (event matches EventView::Line(line) ==> commands::step(
            s,
            event,
            elapsed_ns,
        ).0.chunk_size == commands::command(line, s.chunk_size).0),
{
}

/// A granted upload starts the clock and then reads a chunk, with nothing received yet.
pub proof fn law_upload_begins(s: Session, report: bool, a: u128, b: u128)
    requires
        s.phase == (Phase::Granted { report }),
    ensures
        ({
            let (t, first) = commands::step(s, EventView::Done, a);
            let (u, second) = commands::step(t, EventView::Done, b);
            &&& first == ActionView::StartClock
            &&& second == (ActionView::ReadData { size: s.chunk_size })
            &&& u == (Session {
                chunk_size: s.chunk_size,
                phase: Phase::Receiving { report, total_bytes: 0, last_report_ns: None },
            })
        }),
{
}

/// A report is made of a piece of data exactly when a millisecond has passed since the last
/// report. It tells the time and all bytes; and when it has gone out, the upload goes on, or
/// ends with the time where its terminal chunk has come.
pub proof fn law_reports_come_every_millisecond(
    s: Session,
    total_bytes: u64,
    last_ns: u128,
    count: usize,
    last_byte: u8,
    elapsed_ns: u128,
    sent_ns: u128,
)
    requires
        s.wf(),
        s.phase == (Phase::Receiving { report: true, total_bytes, last_report_ns: Some(last_ns) }),
        count > 0,
        total_bytes + count <= u64::MAX,
    ensures
        ({
            let total = (total_bytes + count) as u64;
            let ends = last_byte == 0xff && total % (s.chunk_size as u64) == 0;
            let (t, a) = commands::step(s, EventView::Data { count, last_byte }, elapsed_ns);
            let (u, b) = commands::step(t, EventView::Done, sent_ns);
            if elapsed_ns - last_ns >= 1_000_000 {
                &&& a matches ActionView::Send(l) && tells_bytes(
                    l,
                    elapsed_ns as nat,
                    total as nat,
                )
                &&& if ends {
                    &&& u.phase == Phase::Ready
                    &&& b matches ActionView::Send(l) && tells_time(l, sent_ns as nat)
                } else {
                    &&& u.phase == (Phase::Receiving {
                        report: true,
                        total_bytes: total,
                        last_report_ns: Some(elapsed_ns),
                    })
                    &&& b is ReadData
                }
            } else if ends {
                &&& t.phase == Phase::Ready
                &&& a matches ActionView::Send(l) && tells_time(l, elapsed_ns as nat)
            } else {
                &&& t.phase == (Phase::Receiving {
                    report: true,
                    total_bytes: total,
                    last_report_ns: Some(last_ns),
                })
                &&& a is ReadData
            }
        }),
{
    law_time_line_reads_back(elapsed_ns);
    law_time_line_reads_back(sent_ns);
    law_bytes_line_reads_back(elapsed_ns, (total_bytes + count) as u64);
}

/// The rest of a chunk is what is missing to a whole number of chunks, and never nothing.
pub proof fn law_reads_end_with_a_chunk(total: nat, chunk_size: usize)
    requires
        chunk_size > 0,
    ensures
        0 < commands::rest_of_chunk(total, chunk_size) <= chunk_size,
        (total + commands::rest_of_chunk(total, chunk_size)) % (chunk_size as int) == 0,
{
    let n = chunk_size as int;
    let t = total as int;
    vstd::arithmetic::div_mod::lemma_fundamental_div_mod(t, n);
    let q = t / n;
    assert(n * q == q * n) by (nonlinear_arith);
    assert(q * n + n == (q + 1) * n) by (nonlinear_arith);
    vstd::arithmetic::div_mod::lemma_fundamental_div_mod_converse(
        t + (n - t % n),
        n,
        q + 1,
        0,
    );
}

/// A chunk size is read from its decimal form exactly when it is from the smallest size to the
/// given limit.
pub proof fn law_chunk_sizes_are_limited(n: nat, max: usize)
    ensures
        MIN_CHUNK_SIZE <= n <= max ==> commands::chunk_size_of(number::dec(n), max as nat) == Some(
            n,
        ),
        n < MIN_CHUNK_SIZE || n > max ==> commands::chunk_size_of(
            number::dec(n),
            max as nat,
        ) is None,
{
    number::law_unsigned_reads_decimal(n, usize::MAX as nat);
}

/// An event that does not answer the last action ends the session: each phase takes a line,
/// data or the end of its action, and a closed session takes nothing.
pub proof fn law_events_come_in_turn(s: Session, event: EventView, elapsed_ns: u128)
    ensures
        ({
            let fitting = match s.phase {
                Phase::Command | Phase::Ack => event is Line,
                Phase::Receiving { .. } => event is Data,
                Phase::Closed => false,
                _ => event is Done,
            };
            !fitting <==> commands::step(s, event, elapsed_ns) == (
                Session { chunk_size: s.chunk_size, phase: Phase::Closed },
                ActionView::OutOfTurn,
            )
        }),
{
}

} // verus!
