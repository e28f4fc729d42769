//! What each step of a session adds to the measurements.

use vstd::prelude::*;
use crate::events::{self, ConnStats};
use crate::protocol::commands::{self, EventView, Phase, Request, Session};
use crate::protocol::measure::{self, Tally, Test};
use crate::text_laws::{self, law_trim};

verus! {

/// A download adds its bytes and its time to those of the downloads, an upload to those of the
/// uploads, and neither touches anything else.
pub proof fn law_transfers_add_up(s: ConnStats, bytes: u64, ns: u128)
    requires
        s.download_bytes + bytes <= u64::MAX,
        s.download_ns + ns <= u128::MAX,
        s.upload_bytes + bytes <= u64::MAX,
        s.upload_ns + ns <= u128::MAX,
    ensures
        ({
            let d = measure::with_download(s, bytes, ns);
            &&& d.download_bytes == s.download_bytes + bytes
            &&& d.download_ns == s.download_ns + ns
            &&& d.upload_bytes == s.upload_bytes
            &&& d.upload_ns == s.upload_ns
            &&& d.ping_count == s.ping_count
            &&& d.ping_min_ns == s.ping_min_ns
            &&& d.ping_max_ns == s.ping_max_ns
            &&& d.commands == s.commands
        }),
        ({
            let u = measure::with_upload(s, bytes, ns);
            &&& u.upload_bytes == s.upload_bytes + bytes
            &&& u.upload_ns == s.upload_ns + ns
            &&& u.download_bytes == s.download_bytes
            &&& u.download_ns == s.download_ns
            &&& u.ping_count == s.ping_count
            &&& u.ping_min_ns == s.ping_min_ns
            &&& u.ping_max_ns == s.ping_max_ns
            &&& u.commands == s.commands
        }),
{
}

/// A test command counts once and starts its test; `QUIT` and a refused command count for
/// nothing.
pub proof fn law_test_commands_are_counted(t: Tally, s: Session, line: Seq<char>, ns: u128)
    requires
        s.phase == Phase::Command,
        t.stats.commands < u32::MAX,
    ensures
        ({
            let after = measure::tallied(t, s, EventView::Line(line), ns);
            let more = ConnStats { commands: (t.stats.commands + 1) as u32, ..t.stats };
            match commands::command(line, s.chunk_size).1 {
                Request::GetTime { .. } | Request::GetChunks { .. } => after == (Tally {
                    stats: more,
                    test: Test::Download { bytes: 0 },
                }),
                Request::Put { .. } => after == (Tally { stats: more, test: Test::Upload }),
                Request::Ping => after == (Tally { stats: more, test: Test::Ping }),
                Request::Quit | Request::Invalid => after == t,
            }
        }),
{
}

/// Each chunk of a download, timed or counted, adds its size to the bytes sent, and nothing
/// to the statistics yet.
pub proof fn law_each_chunk_counts(
    t: Tally,
    s: Session,
    bytes: u64,
    elapsed_ns: u128,
)
    requires
        s.phase is Timed || s.phase is Counted,
        t.test == (Test::Download { bytes }),
        bytes + s.chunk_size <= u64::MAX,
    ensures
        measure::tallied(t, s, EventView::Done, elapsed_ns) == (Tally {
            stats: t.stats,
            test: Test::Download { bytes: (bytes + s.chunk_size) as u64 },
        }),
{
}

/// A download that is acknowledged with `OK` adds the bytes sent and the time told to the
/// client; a ping adds one round trip of that time. Any other word adds nothing.
pub proof fn law_acknowledged_tests_are_measured(
    t: Tally,
    s: Session,
    word: Seq<char>,
    pre: Seq<char>,
    post: Seq<char>,
    ns: u128,
)
    requires
        s.phase is Ack,
        text_laws::all_white(pre),
        text_laws::all_white(post),
        text_laws::is_word(word),
        word != "OK"@,
    ensures
        ({
            let ok = measure::tallied(t, s, EventView::Line(pre + "OK"@ + post), ns);
            let other = measure::tallied(t, s, EventView::Line(pre + word + post), ns);
            &&& ok.test == Test::Idle
            &&& other == (Tally { stats: t.stats, test: Test::Idle })
            &&& t.test matches Test::Download { bytes } ==> t.stats.download_bytes + bytes
                <= u64::MAX && t.stats.download_ns + ns <= u128::MAX ==> ok.stats == (ConnStats {
                download_bytes: (t.stats.download_bytes + bytes) as u64,
                download_ns: (t.stats.download_ns + ns) as u128,
                ..t.stats
            })
            &&& t.test is Ping ==> ok.stats == events::with_ping(t.stats, ns)
        }),
{
    reveal_strlit("OK");
    law_trim(pre, "OK"@, post);
    text_laws::lemma_word_has_no_space(word);
    law_trim(pre, word, post);
}

/// An upload without reports adds, with its terminal chunk, all the bytes received and the
/// time told to the client; with every other piece it adds nothing.
pub proof fn law_upload_end_is_measured(
    t: Tally,
    s: Session,
    total_bytes: u64,
    count: usize,
    last_byte: u8,
    ns: u128,
)
    requires
        s.wf(),
        s.phase == (Phase::Receiving { report: false, total_bytes, last_report_ns: None }),
        count > 0,
        t.stats.upload_bytes + total_bytes + count <= u64::MAX,
        t.stats.upload_ns + ns <= u128::MAX,
    ensures
        ({
            let after = measure::tallied(t, s, EventView::Data { count, last_byte }, ns);
            if last_byte == 0xff && (total_bytes + count) % (s.chunk_size as int) == 0 {
                after == (Tally {
                    stats: ConnStats {
                        upload_bytes: (t.stats.upload_bytes + total_bytes + count) as u64,
                        upload_ns: (t.stats.upload_ns + ns) as u128,
                        ..t.stats
                    },
                    test: Test::Idle,
                })
            } else {
                after == t
            }
        }),
{
}

/// With a report on its way, the upload adds its bytes when the report has gone out, if its
/// terminal chunk has come, and nothing else.
pub proof fn law_reported_upload_is_measured(
    t: Tally,
    s: Session,
    total_bytes: u64,
    last_report_ns: u128,
    done: bool,
    ns: u128,
)
    requires
        s.phase == (Phase::Reported { total_bytes, last_report_ns, done }),
        t.stats.upload_bytes + total_bytes <= u64::MAX,
        t.stats.upload_ns + ns <= u128::MAX,
    ensures
        done ==> measure::tallied(t, s, EventView::Done, ns) == (Tally {
            stats: ConnStats {
                upload_bytes: (t.stats.upload_bytes + total_bytes) as u64,
                upload_ns: (t.stats.upload_ns + ns) as u128,
                ..t.stats
            },
            test: Test::Idle,
        }),
        !done ==> measure::tallied(t, s, EventView::Done, ns) == t,
{
}

/// There is room for a step as long as no count and no sum overflows.
pub proof fn law_there_is_room(t: Tally, s: Session, event: EventView, elapsed_ns: u128)
    requires
        t.stats.commands < u32::MAX,
        t.stats.ping_count < u32::MAX,
        t.test matches Test::Download { bytes } ==> bytes + s.chunk_size <= u64::MAX
            && t.stats.download_bytes + bytes <= u64::MAX,
        t.stats.download_ns + elapsed_ns <= u128::MAX,
        t.stats.upload_ns + elapsed_ns <= u128::MAX,
        s.phase matches Phase::Receiving { total_bytes, .. } ==> (event matches EventView::Data {
            count,
            ..
        } ==> t.stats.upload_bytes + total_bytes + count <= u64::MAX),
        s.phase matches Phase::Reported { total_bytes, .. } ==> t.stats.upload_bytes + total_bytes
            <= u64::MAX,
    ensures
        measure::has_room(t, s, event, elapsed_ns),
        commands::counts(s, event),
{
}

} // verus!
