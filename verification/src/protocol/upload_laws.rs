//! What holds of an upload as a whole.

use vstd::prelude::*;
use crate::protocol::commands::{
    self, ActionView, EventView, Phase, Session, REPORT_INTERVAL_NS,
};

verus! {

/// A piece of upload data: its length and last byte, when it was read, and when a report of
/// it, if it is reported, was sent.
pub struct Piece {
    pub count: usize,
    pub last_byte: u8,
    pub read_ns: u128,
    pub sent_ns: u128,
}

/// How many bytes the pieces hold.
pub open spec fn total(ps: Seq<Piece>) -> nat
    decreases ps.len(),
{
    if ps.len() == 0 {
        0
    } else {
        total(ps.drop_last()) + ps.last().count as nat
    }
}

/// The last of the pieces is the end of the terminal chunk.
pub open spec fn ends(ps: Seq<Piece>, chunk_size: usize) -> bool {
    ps.len() > 0 && commands::ends_upload(total(ps), ps.last().last_byte, chunk_size)
}

/// No piece is empty, and none is the end of the terminal chunk.
pub open spec fn pending(ps: Seq<Piece>, chunk_size: usize) -> bool
    decreases ps.len(),
{
    ps.len() > 0 ==> ps.last().count > 0 && !ends(ps, chunk_size) && pending(
        ps.drop_last(),
        chunk_size,
    )
}

/// A piece as an event.
pub open spec fn arrival(p: Piece) -> EventView {
    EventView::Data { count: p.count, last_byte: p.last_byte }
}

/// What a session does on a piece: the session after it, and its actions. When the piece is
/// reported, the upload goes on once the report was sent.
pub open spec fn received(s: Session, p: Piece) -> (Session, Seq<ActionView>) {
    let (t, first) = commands::step(s, arrival(p), p.read_ns);
    if t.phase is Reported {
        let (u, second) = commands::step(t, EventView::Done, p.sent_ns);
        (u, seq![first, second])
    } else {
        (t, seq![first])
    }
}

/// What a session does on pieces, one after the other.
pub open spec fn received_all(s: Session, ps: Seq<Piece>) -> (Session, Seq<ActionView>)
    decreases ps.len(),
{
    if ps.len() == 0 {
        (s, seq![])
    } else {
        let (t, before) = received_all(s, ps.drop_last());
        let (u, more) = received(t, ps.last());
        (u, before + more)
    }
}

/// The positions of the pieces that a `PUT` reports: the first, and each that was read at
/// least `REPORT_INTERVAL_NS` after the one reported before it.
pub open spec fn reported(ps: Seq<Piece>) -> Seq<int>
    decreases ps.len(),
{
    if ps.len() == 0 {
        seq![]
    } else {
        let before = reported(ps.drop_last());
        if before.len() == 0 || ps.last().read_ns >= ps[before.last()].read_ns
            + REPORT_INTERVAL_NS {
            before.push(ps.len() - 1)
        } else {
            before
        }
    }
}

/// The last of the pieces is reported.
pub open spec fn last_reported(report: bool, ps: Seq<Piece>) -> bool {
    report && reported(ps).len() > 0 && reported(ps).last() == ps.len() - 1
}

/// What the server does while the upload goes on: after each piece it reads on, at most to
/// the end of the chunk; before that it reports the time and all bytes so far, where the
/// piece is reported.
pub open spec fn answers(report: bool, ps: Seq<Piece>, chunk_size: usize) -> Seq<ActionView>
    decreases ps.len(),
{
    if ps.len() == 0 {
        seq![]
    } else {
        let read = ActionView::ReadData {
            size: commands::rest_of_chunk(total(ps), chunk_size),
        };
        answers(report, ps.drop_last(), chunk_size) + if last_reported(report, ps) {
            seq![
                ActionView::Send(commands::bytes_line(ps.last().read_ns, total(ps) as u64)),
                read,
            ]
        } else {
            seq![read]
        }
    }
}

/// The time of the last report, if there was one.
pub open spec fn last_report(report: bool, ps: Seq<Piece>) -> Option<u128> {
    if report && reported(ps).len() > 0 {
        Some(ps[reported(ps).last()].read_ns)
    } else {
        None
    }
}

/// The positions of the reported pieces are positions of pieces, and the first is reported.
proof fn lemma_reported(ps: Seq<Piece>)
    ensures
        forall|k: int| 0 <= k < reported(ps).len() ==> 0 <= #[trigger] reported(ps)[k] < ps.len(),
        ps.len() > 0 ==> reported(ps).len() > 0 && reported(ps)[0] == 0,
    decreases ps.len(),
{
    if ps.len() > 0 {
        let rest = ps.drop_last();
        lemma_reported(rest);
        let before = reported(rest);
        let r = reported(ps);
        assert forall|k: int| 0 <= k < r.len() implies 0 <= #[trigger] r[k] < ps.len() by {
            if k < before.len() {
                assert(r[k] == before[k]);
            }
        }
        if before.len() > 0 {
            assert(r[0] == before[0]);
            if rest.len() == 0 {
                assert(0 <= before[0] < rest.len());
            }
        }
    }
}

/// Where a session stands during an upload, and what it has done.
pub proof fn lemma_upload(s: Session, report: bool, ps: Seq<Piece>)
    requires
        s.phase == (Phase::Receiving { report, total_bytes: 0, last_report_ns: None }),
        pending(ps, s.chunk_size),
        total(ps) <= u64::MAX,
    ensures
        received_all(s, ps) == (
            commands::in_phase(
                s,
                Phase::Receiving {
                    report,
                    total_bytes: total(ps) as u64,
                    last_report_ns: last_report(report, ps),
                },
            ),
            answers(report, ps, s.chunk_size),
        ),
    decreases ps.len(),
{
    if ps.len() > 0 {
        let rest = ps.drop_last();
        lemma_upload(s, report, rest);
        lemma_reported(rest);
        let before = reported(rest);
        if before.len() > 0 {
            assert(0 <= before[before.len() - 1] < rest.len());
            assert(ps[before.last()] == rest[before.last()]);
        }
    }
}

/// An upload from its start to its end: the server reads at most to the end of a chunk, and
/// nothing is sent but the reports of `PUT`, each with all bytes so far, until the terminal
/// chunk has come, the one whose last byte is 0xFF. Then, after its own report if that is due,
/// the time that has passed is sent, and the commands are offered again.
pub proof fn law_upload(s: Session, report: bool, ps: Seq<Piece>, last: Piece)
    requires
        s.phase == (Phase::UploadStart { report }),
        pending(ps, s.chunk_size),
        last.count > 0,
        ends(ps.push(last), s.chunk_size),
        total(ps.push(last)) <= u64::MAX,
    ensures
        ({
            let all = ps.push(last);
            let (t, first) = commands::step(s, EventView::Done, 0);
            let (u, actions) = received_all(t, ps);
            &&& first == (ActionView::ReadData { size: s.chunk_size })
            &&& actions == answers(report, ps, s.chunk_size)
            &&& u.phase is Receiving
            &&& received(u, last) == (
                commands::in_phase(s, Phase::Ready),
                if last_reported(report, all) {
                    seq![
                        ActionView::Send(commands::bytes_line(last.read_ns, total(all) as u64)),
                        ActionView::Send(commands::time_line(last.sent_ns)),
                    ]
                } else {
                    seq![ActionView::Send(commands::time_line(last.read_ns))]
                },
            )
        }),
{
    let all = ps.push(last);
    assert(all.drop_last() == ps);
    let (t, first) = commands::step(s, EventView::Done, 0);
    lemma_upload(t, report, ps);
    lemma_reported(ps);
    let before = reported(ps);
    if before.len() > 0 {
        assert(0 <= before[before.len() - 1] < ps.len());
        assert(all[before.last()] == ps[before.last()]);
    }
}

/// The reports of a `PUT` are at least `REPORT_INTERVAL_NS` apart, and the first piece is
/// reported. `PUTNORESULT` reports nothing.
pub proof fn law_reports_are_spaced(ps: Seq<Piece>)
    ensures
        ps.len() > 0 ==> reported(ps).len() > 0 && reported(ps)[0] == 0,
        forall|k: int|
            0 <= k < reported(ps).len() ==> 0 <= #[trigger] reported(ps)[k] < ps.len(),
        forall|k: int|
            0 < k < reported(ps).len() ==> reported(ps)[k - 1] < #[trigger] reported(ps)[k]
                && ps[reported(ps)[k]].read_ns >= ps[reported(ps)[k - 1]].read_ns
                + REPORT_INTERVAL_NS,
        !last_reported(false, ps),
    decreases ps.len(),
{
    lemma_reported(ps);
    if ps.len() > 0 {
        let rest = ps.drop_last();
        law_reports_are_spaced(rest);
        let r = reported(ps);
        let before = reported(rest);
        assert forall|k: int| 0 < k < r.len() implies r[k - 1] < #[trigger] r[k]
            && ps[r[k]].read_ns >= ps[r[k - 1]].read_ns + REPORT_INTERVAL_NS by {
            assert(r[k - 1] == before[k - 1]);
            assert(0 <= before[k - 1] < rest.len());
            assert(ps[before[k - 1]] == rest[before[k - 1]]);
            if k < before.len() {
                assert(r[k] == before[k]);
                assert(ps[before[k]] == rest[before[k]]);
            }
        }
    }
}

/// A byte 0xFF at the end of a piece that is not the end of a chunk does not end the upload:
/// it is data like any other byte.
pub proof fn law_partial_chunk_goes_on(
    s: Session,
    report: bool,
    total_bytes: u64,
    last_report_ns: Option<u128>,
    p: Piece,
)
    requires
        s.wf(),
        s.phase == (Phase::Receiving { report, total_bytes, last_report_ns }),
        p.count > 0,
        total_bytes + p.count <= u64::MAX,
        (total_bytes + p.count) % (s.chunk_size as int) != 0,
    ensures
        received(s, p).0.phase matches Phase::Receiving { total_bytes: t, .. } && t
            == total_bytes + p.count,
        received(s, p).1.last() == (ActionView::ReadData {
            size: commands::rest_of_chunk((total_bytes + p.count) as nat, s.chunk_size),
        }),
{
}

/// What is asked for never reaches beyond the chunk that is being received: as long as no more
/// is read than was asked for, a piece lies within one chunk, and is the end of that chunk
/// exactly when all that was asked for has come.
pub proof fn law_reads_stay_within_a_chunk(received: nat, count: nat, chunk_size: usize)
    requires
        chunk_size > 0,
        0 < count <= commands::rest_of_chunk(received, chunk_size),
    ensures
        (received + count - 1) / (chunk_size as int) == received as int / (chunk_size as int),
        (received + count) % (chunk_size as nat) == 0 <==> count == commands::rest_of_chunk(
            received,
            chunk_size,
        ),
{
    let n = chunk_size as int;
    let q = received as int / n;
    let r = received as int % n;
    vstd::arithmetic::div_mod::lemma_fundamental_div_mod(received as int, n);
    assert(n * q == q * n) by (nonlinear_arith);
    vstd::arithmetic::div_mod::lemma_fundamental_div_mod_converse(
        received + count - 1,
        n,
        q,
        r + count - 1,
    );
    if r + count < n {
        vstd::arithmetic::div_mod::lemma_fundamental_div_mod_converse(
            (received + count) as int,
            n,
            q,
            r + count,
        );
    } else {
        assert(q * n + n == (q + 1) * n) by (nonlinear_arith);
        vstd::arithmetic::div_mod::lemma_fundamental_div_mod_converse(
            (received + count) as int,
            n,
            q + 1,
            0,
        );
    }
}

} // verus!
