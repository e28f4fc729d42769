//! What the server measures of a connection during the command phase.

use vstd::prelude::*;
use crate::config::constants::MAX_CHUNKS;
use crate::events::{self, ConnStats};
use crate::protocol::command_laws;
use crate::protocol::commands::{
    self, run_commands, Action, Event, EventView, Phase, Request, Session,
};
use crate::protocol::upload_laws::{self, Piece};
use crate::text::{self, same_text, trimmed};

verus! {

/// The test that runs at the moment.
#[derive(Clone, Copy, Debug, PartialEq, Eq, Structural)]
pub enum Test {
    Idle,
    /// A download of which `bytes` bytes have been sent.
    Download { bytes: u64 },
    Upload,
    Ping,
}

/// The measurements of a connection.
pub struct Tally {
    pub stats: ConnStats,
    pub test: Test,
}

/// The measurements with one more test command, which starts `test`.
pub open spec fn started(t: Tally, test: Test) -> Tally {
    Tally { stats: ConnStats { commands: (t.stats.commands + 1) as u32, ..t.stats }, test }
}

/// The statistics after a download.
pub open spec fn with_download(s: ConnStats, bytes: u64, ns: u128) -> ConnStats {
    ConnStats {
        download_bytes: (s.download_bytes + bytes) as u64,
        download_ns: (s.download_ns + ns) as u128,
        ..s
    }
}

/// The statistics after an upload.
pub open spec fn with_upload(s: ConnStats, bytes: u64, ns: u128) -> ConnStats {
    ConnStats {
        upload_bytes: (s.upload_bytes + bytes) as u64,
        upload_ns: (s.upload_ns + ns) as u128,
        ..s
    }
}

/// The measurements after a step of a session. A download or ping counts once the client has
/// acknowledged it, an upload once its terminal chunk has come, with the time reported to the
/// client.
pub open spec fn tallied(t: Tally, s: Session, event: EventView, elapsed_ns: u128) -> Tally {
    let after = commands::step(s, event, elapsed_ns).0;
    match (s.phase, event) {
        (Phase::Command, EventView::Line(line)) => match after.phase {
            Phase::Timed { .. } | Phase::Counted { .. } => started(t, Test::Download { bytes: 0 }),
            Phase::Granted { .. } => started(t, Test::Upload),
            Phase::PingStart => started(t, Test::Ping),
            _ => t,
        },
        (Phase::Timed { .. }, EventView::Done) | (Phase::Counted { .. }, EventView::Done) =>
        match t.test {
            Test::Download { bytes } => Tally {
                test: Test::Download { bytes: (bytes + s.chunk_size) as u64 },
                ..t
            },
            _ => t,
        },
        (Phase::Ack, EventView::Line(line)) => Tally {
            stats: if text::trim(line) == "OK"@ {
                match t.test {
                    Test::Download { bytes } => with_download(t.stats, bytes, elapsed_ns),
                    Test::Ping => events::with_ping(t.stats, elapsed_ns),
                    _ => t.stats,
                }
            } else {
                t.stats
            },
            test: Test::Idle,
        },
        (Phase::Receiving { total_bytes, .. }, EventView::Data { count, .. }) => if after.phase
            == Phase::Ready {
            Tally {
                stats: with_upload(t.stats, (total_bytes + count) as u64, elapsed_ns),
                test: Test::Idle,
            }
        } else {
            t
        },
        (Phase::Reported { total_bytes, done, .. }, EventView::Done) => if done {
            Tally { stats: with_upload(t.stats, total_bytes, elapsed_ns), test: Test::Idle }
        } else {
            t
        },
        _ => t,
    }
}

/// The measurements after a step can be held.
pub open spec fn has_room(t: Tally, s: Session, event: EventView, elapsed_ns: u128) -> bool {
    match (s.phase, event) {
        (Phase::Command, EventView::Line(_)) => t.stats.commands < u32::MAX,
        (Phase::Timed { .. }, EventView::Done) | (Phase::Counted { .. }, EventView::Done) =>
        match t.test {
            Test::Download { bytes } => bytes + s.chunk_size <= u64::MAX,
            _ => true,
        },
        (Phase::Ack, EventView::Line(_)) => match t.test {
            Test::Download { bytes } => t.stats.download_bytes + bytes <= u64::MAX
                && t.stats.download_ns + elapsed_ns <= u128::MAX,
            Test::Ping => t.stats.ping_count < u32::MAX,
            _ => true,
        },
        (Phase::Receiving { total_bytes, .. }, EventView::Data { count, .. }) =>
        t.stats.upload_bytes + total_bytes + count <= u64::MAX && t.stats.upload_ns + elapsed_ns
            <= u128::MAX,
        (Phase::Reported { total_bytes, .. }, EventView::Done) => t.stats.upload_bytes
            + total_bytes <= u64::MAX && t.stats.upload_ns + elapsed_ns <= u128::MAX,
        _ => true,
    }
}

/// Tells whether the sum of three counts can be held.
fn fits_u64(a: u64, b: u64, c: u64) -> (r: bool)
    ensures
        r == (a + b + c <= u64::MAX),
{
    b <= u64::MAX - a && c <= u64::MAX - a - b
}

impl Tally {
    /// Nothing has been measured yet.
    pub fn new() -> (r: Tally)
        ensures
            r == (Tally { stats: events::no_stats(), test: Test::Idle }),
    {
        Tally { stats: ConnStats::new(), test: Test::Idle }
    }

    /// Tells whether the measurements after a step can be held.
    pub fn fits(&self, s: &Session, event: &Event, elapsed_ns: u128) -> (r: bool)
        ensures
            r == has_room(*self, *s, event@, elapsed_ns),
    {
        match (s.phase, event) {
            (Phase::Command, Event::Line(_)) => self.stats.commands < u32::MAX,
            (Phase::Timed { .. }, Event::Done) | (Phase::Counted { .. }, Event::Done) =>
            match self.test {
                Test::Download { bytes } => fits_u64(bytes, s.chunk_size as u64, 0),
                _ => true,
            },
            (Phase::Ack, Event::Line(_)) => match self.test {
                Test::Download { bytes } => fits_u64(self.stats.download_bytes, bytes, 0)
                    && elapsed_ns <= u128::MAX - self.stats.download_ns,
                Test::Ping => self.stats.ping_count < u32::MAX,
                _ => true,
            },
            (Phase::Receiving { total_bytes, .. }, Event::Data { count, .. }) => fits_u64(
                self.stats.upload_bytes,
                total_bytes,
                *count as u64,
            ) && elapsed_ns <= u128::MAX - self.stats.upload_ns,
            (Phase::Reported { total_bytes, .. }, Event::Done) => fits_u64(
                self.stats.upload_bytes,
                total_bytes,
                0,
            ) && elapsed_ns <= u128::MAX - self.stats.upload_ns,
            _ => true,
        }
    }

    /// One step of a session, as `run_commands`, that is measured.
    pub fn step(&mut self, s: &mut Session, event: Event, elapsed_ns: u128) -> (r: Action)
        requires
            old(s).wf(),
            has_room(*old(self), *old(s), event@, elapsed_ns),
        ensures
            (*final(s), r@) == commands::step(*old(s), event@, elapsed_ns),
            *final(self) == tallied(*old(self), *old(s), event@, elapsed_ns),
            final(s).wf(),
    {
        let before = *s;
        let (acknowledged, count): (bool, usize) = match &event {
            Event::Line(l) => (same_text(trimmed(l.as_str()), "OK"), 0),
            Event::Data { count, .. } => (false, *count),
            Event::Done => (false, 0),
        };
        let (is_line, is_data, is_done) = match &event {
            Event::Line(_) => (true, false, false),
            Event::Data { .. } => (false, true, false),
            Event::Done => (false, false, true),
        };
        let action = run_commands(s, event, elapsed_ns);
        match before.phase {
            Phase::Command => if is_line {
                match s.phase {
                    Phase::Timed { .. } | Phase::Counted { .. } => {
                        self.stats.commands = self.stats.commands + 1;
                        self.test = Test::Download { bytes: 0 };
                    },
                    Phase::Granted { .. } => {
                        self.stats.commands = self.stats.commands + 1;
                        self.test = Test::Upload;
                    },
                    Phase::PingStart => {
                        self.stats.commands = self.stats.commands + 1;
                        self.test = Test::Ping;
                    },
                    _ => {},
                }
            },
            Phase::Timed { .. } | Phase::Counted { .. } => if is_done {
                if let Test::Download { bytes } = self.test {
                    self.test = Test::Download { bytes: bytes + before.chunk_size as u64 };
                }
            },
            Phase::Ack => if is_line {
                if acknowledged {
                    match self.test {
                        Test::Download { bytes } => self.stats.add_download(bytes, elapsed_ns),
                        Test::Ping => self.stats.add_ping(elapsed_ns),
                        _ => {},
                    }
                }
                self.test = Test::Idle;
            },
            Phase::Receiving { total_bytes, .. } => if is_data && s.phase == Phase::Ready {
                self.stats.add_upload(total_bytes + count as u64, elapsed_ns);
                self.test = Test::Idle;
            },
            Phase::Reported { total_bytes, done, .. } => if is_done && done {
                self.stats.add_upload(total_bytes, elapsed_ns);
                self.test = Test::Idle;
            },
            _ => {},
        }
        action
    }
}

// ── Laws ────────────────────────────────────────────────────────────────────────
/// The measurements after events with their times, one after the other.
pub open spec fn tallied_all(t: Tally, s: Session, events: Seq<(EventView, u128)>) -> Tally
    decreases events.len(),
{
    if events.len() == 0 {
        t
    } else {
        let before = events.drop_last();
        tallied(
            tallied_all(t, s, before),
            command_laws::run(s, before).0,
            events.last().0,
            events.last().1,
        )
    }
}

proof fn lemma_chunks_are_counted(t: Tally, s: Session, count: u32, times: Seq<u128>)
    requires
        s.phase == (Phase::Counted { left: count }),
        s.wf(),
        0 < count <= MAX_CHUNKS,
        times.len() <= count,
        t.test == (Test::Download { bytes: 0 }),
    ensures
        tallied_all(t, s, command_laws::done_at(times)) == (Tally {
            test: Test::Download { bytes: (times.len() * s.chunk_size) as u64 },
            ..t
        }),
    decreases times.len(),
{
    let events = command_laws::done_at(times);
    if times.len() > 0 {
        let rest = times.drop_last();
        lemma_chunks_are_counted(t, s, count, rest);
        command_laws::lemma_counted(s, count, rest);
        assert(events.drop_last() == command_laws::done_at(rest));
        let n = times.len() as int;
        let size = s.chunk_size as int;
        assert(n * size == (n - 1) * size + size) by (nonlinear_arith);
        assert(n * size <= 300_000 * 4_194_304) by (nonlinear_arith)
            requires
                0 <= n <= 300_000,
                0 <= size <= 4_194_304,
        ;
        assert((n - 1) * size >= 0) by (nonlinear_arith)
            requires
                n >= 1,
                size >= 0,
        ;
    } else {
        assert(times.len() * s.chunk_size == 0) by (nonlinear_arith)
            requires
                times.len() == 0,
        ;
    }
}

/// A `GETCHUNKS` that the client acknowledges counts with all the bytes of its chunks and the
/// time reported to the client; otherwise it counts as a command only.
pub proof fn law_counted_download_is_measured(
    t: Tally,
    s: Session,
    line: Seq<char>,
    count: u32,
    times: Seq<u128>,
    ack: Seq<char>,
    elapsed_ns: u128,
)
    requires
        s.phase == Phase::Command,
        s.wf(),
        commands::command(line, s.chunk_size).1 == (Request::GetChunks { count }),
        times.len() == count,
    ensures
        ({
            let a = commands::step(s, EventView::Line(line), 0).0;
            let ta = tallied(t, s, EventView::Line(line), 0);
            let b = command_laws::run(a, command_laws::done_at(times)).0;
            let tb = tallied_all(ta, a, command_laws::done_at(times));
            let c = commands::step(b, EventView::Done, 0).0;
            let tc = tallied(tb, b, EventView::Done, 0);
            let counted = ConnStats { commands: (t.stats.commands + 1) as u32, ..t.stats };
            tallied(tc, c, EventView::Line(ack), elapsed_ns) == (Tally {
                stats: if text::trim(ack) == "OK"@ {
                    with_download(counted, (count * a.chunk_size) as u64, elapsed_ns)
                } else {
                    counted
                },
                test: Test::Idle,
            })
        }),
{
    let a = commands::step(s, EventView::Line(line), 0).0;
    let ta = tallied(t, s, EventView::Line(line), 0);
    lemma_chunks_are_counted(ta, a, count, times);
    command_laws::lemma_counted(a, count, times);
}

/// A ping that the client acknowledges counts with the time reported to the client.
pub proof fn law_ping_is_measured(
    t: Tally,
    s: Session,
    line: Seq<char>,
    ack: Seq<char>,
    a: u128,
    b: u128,
    elapsed_ns: u128,
)
    requires
        s.phase == Phase::Command,
        commands::command(line, s.chunk_size).1 == Request::Ping,
        text::trim(ack) == "OK"@,
    ensures
        ({
            let s1 = commands::step(s, EventView::Line(line), 0).0;
            let t1 = tallied(t, s, EventView::Line(line), 0);
            let s2 = commands::step(s1, EventView::Done, a).0;
            let t2 = tallied(t1, s1, EventView::Done, a);
            let s3 = commands::step(s2, EventView::Done, b).0;
            let t3 = tallied(t2, s2, EventView::Done, b);
            let t4 = tallied(t3, s3, EventView::Line(ack), elapsed_ns);
            t4.stats == events::with_ping(started(t, Test::Ping).stats, elapsed_ns)
        }),
{
}

/// The measurements after a piece of upload data.
pub open spec fn tallied_piece(t: Tally, s: Session, p: Piece) -> Tally {
    let event = upload_laws::arrival(p);
    let after = commands::step(s, event, p.read_ns).0;
    let first = tallied(t, s, event, p.read_ns);
    if after.phase is Reported {
        tallied(first, after, EventView::Done, p.sent_ns)
    } else {
        first
    }
}

/// The measurements after pieces of upload data, one after the other.
pub open spec fn tallied_pieces(t: Tally, s: Session, ps: Seq<Piece>) -> Tally
    decreases ps.len(),
{
    if ps.len() == 0 {
        t
    } else {
        let rest = ps.drop_last();
        tallied_piece(tallied_pieces(t, s, rest), upload_laws::received_all(s, rest).0, ps.last())
    }
}

proof fn lemma_upload_is_pending(t: Tally, s: Session, report: bool, ps: Seq<Piece>)
    requires
        s.phase == (Phase::Receiving { report, total_bytes: 0, last_report_ns: None }),
        upload_laws::pending(ps, s.chunk_size),
        upload_laws::total(ps) <= u64::MAX,
    ensures
        tallied_pieces(t, s, ps) == t,
    decreases ps.len(),
{
    if ps.len() > 0 {
        let rest = ps.drop_last();
        lemma_upload_is_pending(t, s, report, rest);
        upload_laws::lemma_upload(s, report, rest);
    }
}

/// A `PUT` or `PUTNORESULT` counts, when its terminal chunk has come, with all the bytes
/// received and the time reported to the client, and not before.
pub proof fn law_upload_is_measured(
    t: Tally,
    s: Session,
    report: bool,
    ps: Seq<Piece>,
    last: Piece,
)
    requires
        s.phase == (Phase::Receiving { report, total_bytes: 0, last_report_ns: None }),
        upload_laws::pending(ps, s.chunk_size),
        last.count > 0,
        upload_laws::ends(ps.push(last), s.chunk_size),
        upload_laws::total(ps.push(last)) <= u64::MAX,
    ensures
        tallied_pieces(t, s, ps) == t,
        tallied_pieces(t, s, ps.push(last)).stats == with_upload(
            t.stats,
            upload_laws::total(ps.push(last)) as u64,
            if upload_laws::last_reported(report, ps.push(last)) {
                last.sent_ns
            } else {
                last.read_ns
            },
        ),
{
    let all = ps.push(last);
    assert(all.drop_last() == ps);
    lemma_upload_is_pending(t, s, report, ps);
    upload_laws::lemma_upload(s, report, ps);
    upload_laws::law_reports_are_spaced(ps);
    let before = upload_laws::reported(ps);
    if before.len() > 0 {
        assert(0 <= before[before.len() - 1] < ps.len());
        assert(all[before.last()] == ps[before.last()]);
    }
}

} // verus!
