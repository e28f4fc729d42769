//! What holds of a session of commands as a whole.

use vstd::prelude::*;
use crate::protocol::commands::{self, ActionView, EventView, Phase, Request, Session};
use crate::text;

verus! {

/// The state and the actions that a session comes to on events with their times, one after
/// the other.
pub open spec fn run(s: Session, events: Seq<(EventView, u128)>) -> (Session, Seq<ActionView>)
    decreases events.len(),
{
    if events.len() == 0 {
        (s, seq![])
    } else {
        let (before, actions) = run(s, events.drop_last());
        let (after, action) = commands::step(before, events.last().0, events.last().1);
        (after, actions.push(action))
    }
}

/// Successful actions at these times.
pub open spec fn done_at(times: Seq<u128>) -> Seq<(EventView, u128)> {
    times.map_values(|t: u128| (EventView::Done, t))
}

/// `n` chunks of `size` bytes, of which the last, if `ended`, and no other is terminal.
pub open spec fn chunks(n: nat, size: usize, ended: bool) -> Seq<ActionView> {
    Seq::new(
        n,
        |i: int| ActionView::SendChunk { size, terminal: ended && i == n - 1 },
    )
}

proof fn lemma_run_two(s: Session, a: (EventView, u128), b: (EventView, u128))
    ensures
        run(s, seq![a, b]) == ({
            let (t, x) = commands::step(s, a.0, a.1);
            let (u, y) = commands::step(t, b.0, b.1);
            (u, seq![x, y])
        }),
{
    assert(seq![a, b].drop_last() == seq![a]);
    assert(seq![a].drop_last() == Seq::<(EventView, u128)>::empty());
    assert(run(s, Seq::<(EventView, u128)>::empty()) == (s, Seq::<ActionView>::empty()));
    let (t, x) = commands::step(s, a.0, a.1);
    assert(run(s, seq![a]).1 == seq![x]);
    let (u, y) = commands::step(t, b.0, b.1);
    assert(run(s, seq![a, b]).1 == seq![x, y]);
}

/// The chunk size in force is always one that a client may request.
pub proof fn law_chunk_size_stays_valid(s: Session, events: Seq<(EventView, u128)>)
    requires
        s.wf(),
    ensures
        run(s, events).0.wf(),
    decreases events.len(),
{
    if events.len() > 0 {
        law_chunk_size_stays_valid(s, events.drop_last());
    }
}

/// Chunks sent by `GETCHUNKS` so far, and where the session stands then.
pub proof fn lemma_counted(s: Session, count: u32, times: Seq<u128>)
    requires
        s.phase == (Phase::Counted { left: count }),
        0 < count,
        times.len() <= count,
    ensures
        run(s, done_at(times)).0 == commands::in_phase(
            s,
            if times.len() == count {
                Phase::Sent
            } else {
                Phase::Counted { left: (count - times.len()) as u32 }
            },
        ),
        run(s, done_at(times)).1 == chunks(times.len(), s.chunk_size, times.len() == count),
    decreases times.len(),
{
    if times.len() == 0 {
        assert(done_at(times) == Seq::<(EventView, u128)>::empty());
        assert(chunks(0, s.chunk_size, false) == Seq::<ActionView>::empty());
    } else {
        let rest = times.drop_last();
        lemma_counted(s, count, rest);
        assert(done_at(times).drop_last() == done_at(rest));
        assert(run(s, done_at(times)).1 == chunks(
            times.len(),
            s.chunk_size,
            times.len() == count,
        ));
    }
}

/// `GETCHUNKS` sends exactly as many chunks as were asked for, whatever the clock shows; the
/// last and no other is terminal. Then the acknowledgement is read.
pub proof fn law_counted_download(s: Session, line: Seq<char>, count: u32, times: Seq<u128>)
    requires
        s.phase == Phase::Command,
        commands::command(line, s.chunk_size).1 == (Request::GetChunks { count }),
        times.len() == count,
    ensures
        ({
            let (t, first) = commands::step(s, EventView::Line(line), 0);
            let (end, actions) = run(t, done_at(times));
            &&& first == ActionView::StartClock
            &&& actions == chunks(count as nat, t.chunk_size, true)
            &&& end.phase == Phase::Sent
            &&& commands::step(end, EventView::Done, 0).1 == ActionView::ReadLine
        }),
{
    let (t, first) = commands::step(s, EventView::Line(line), 0);
    lemma_counted(t, count, times);
}

proof fn lemma_timed(s: Session, max_ns: u128, times: Seq<u128>)
    requires
        s.phase == (Phase::Timed { max_ns }),
        forall|i: int| 0 <= i < times.len() - 1 ==> #[trigger] times[i] < max_ns,
    ensures
        ({
            let ended = times.len() > 0 && times.last() >= max_ns;
            &&& run(s, done_at(times)).0 == commands::in_phase(
                s,
                if ended {
                    Phase::Sent
                } else {
                    s.phase
                },
            )
            &&& run(s, done_at(times)).1 == chunks(times.len(), s.chunk_size, ended)
        }),
    decreases times.len(),
{
    if times.len() == 0 {
        assert(done_at(times) == Seq::<(EventView, u128)>::empty());
        assert(chunks(0, s.chunk_size, false) == Seq::<ActionView>::empty());
    } else {
        let rest = times.drop_last();
        if rest.len() > 0 {
            assert(rest.last() == times[times.len() - 2]);
        }
        lemma_timed(s, max_ns, rest);
        assert(done_at(times).drop_last() == done_at(rest));
        assert(run(s, done_at(times)).1 == chunks(
            times.len(),
            s.chunk_size,
            times.last() >= max_ns,
        ));
    }
}

/// `GETTIME` sends chunks as long as the requested time has not passed, and one terminal
/// chunk at the first moment at which it has. Then the acknowledgement is read.
pub proof fn law_timed_download(s: Session, line: Seq<char>, seconds: u32, times: Seq<u128>)
    requires
        s.phase == Phase::Command,
        commands::command(line, s.chunk_size).1 == (Request::GetTime { seconds }),
        times.len() > 0,
        forall|i: int|
            0 <= i < times.len() - 1 ==> #[trigger] times[i] < seconds * 1_000_000_000,
        times.last() >= seconds * 1_000_000_000,
    ensures
        ({
            let (t, first) = commands::step(s, EventView::Line(line), 0);
            let (end, actions) = run(t, done_at(times));
            &&& first == ActionView::StartClock
            &&& actions == chunks(times.len(), t.chunk_size, true)
            &&& end.phase == Phase::Sent
            &&& commands::step(end, EventView::Done, 0).1 == ActionView::ReadLine
        }),
{
    let (t, first) = commands::step(s, EventView::Line(line), 0);
    lemma_timed(t, (seconds * 1_000_000_000) as u128, times);
}

/// A download or ping ends with the acknowledgement: `OK` is answered with the time that has
/// passed, anything else with `ERR`; then the commands are offered again.
pub proof fn law_acknowledgement(s: Session, line: Seq<char>, elapsed_ns: u128, later: u128)
    requires
        s.phase == Phase::Ack,
    ensures
        run(s, seq![(EventView::Line(line), elapsed_ns), (EventView::Done, later)]) == (
            commands::in_phase(s, Phase::Prompted),
            seq![
                ActionView::Send(
                    if text::trim(line) == "OK"@ {
                        commands::time_line(elapsed_ns)
                    } else {
                        "ERR\n"@
                    },
                ),
                ActionView::Send(commands::accept_line()),
            ],
        ),
{
    lemma_run_two(s, (EventView::Line(line), elapsed_ns), (EventView::Done, later));
}

/// `PING` is answered with `PONG` at once, with the clock started before it; then the
/// acknowledgement is read.
pub proof fn law_ping(s: Session, line: Seq<char>, a: u128, b: u128)
    requires
        s.phase == Phase::Command,
        commands::command(line, s.chunk_size).1 == Request::Ping,
    ensures
        ({
            let (t, first) = commands::step(s, EventView::Line(line), 0);
            &&& first == ActionView::StartClock
            &&& run(t, seq![(EventView::Done, a), (EventView::Done, b)]) == (
                commands::in_phase(s, Phase::Ack),
                seq![ActionView::Send("PONG\n"@), ActionView::ReadLine],
            )
        }),
{
    let (t, first) = commands::step(s, EventView::Line(line), 0);
    lemma_run_two(t, (EventView::Done, a), (EventView::Done, b));
}

/// A session that is ready offers the commands and then reads one.
pub proof fn law_commands_are_offered(s: Session, a: u128, b: u128)
    requires
        s.phase == Phase::Ready,
    ensures
        run(s, seq![(EventView::Done, a), (EventView::Done, b)]) == (
            commands::in_phase(s, Phase::Command),
            seq![ActionView::Send(commands::accept_line()), ActionView::ReadLine],
        ),
{
    lemma_run_two(s, (EventView::Done, a), (EventView::Done, b));
}

/// Every command is preceded by the offer of commands: a command line is read only right
/// after the offer was sent.
pub proof fn law_no_command_without_offer(s: Session, event: EventView, elapsed_ns: u128)
    ensures
        ({
            let (t, action) = commands::step(s, event, elapsed_ns);
            &&& t.phase == Phase::Command ==> s.phase == Phase::Prompted && event
                == EventView::Done
            &&& t.phase == Phase::Prompted ==> s.phase == Phase::Ready && action
                == ActionView::Send(commands::accept_line())
        }),
{
}

/// A session ends in three ways only: after `BYE` was sent in answer to `QUIT`, with a
/// connection that is closed during an upload, or with an event out of turn.
pub proof fn law_session_ends(s: Session, event: EventView, elapsed_ns: u128)
    ensures
        ({
            let (t, action) = commands::step(s, event, elapsed_ns);
            &&& t.phase == Phase::Closed <==> action is Quit || action is UnexpectedEof
                || action is OutOfTurn
            &&& action is Quit <==> s.phase == Phase::Leaving && event == EventView::Done
            &&& t.phase == Phase::Leaving <==> s.phase == Phase::Command && (event matches
                EventView::Line(line) && commands::command(line, s.chunk_size).1
                == Request::Quit)
            &&& action is UnexpectedEof <==> s.phase is Receiving && (event matches
                EventView::Data { count, .. } && count == 0)
        }),
{
}

/// `QUIT` is answered with `BYE`, and ends the session.
pub proof fn law_quit(s: Session, line: Seq<char>, a: u128, b: u128)
    requires
        s.phase == Phase::Command,
        commands::command(line, s.chunk_size).1 == Request::Quit,
    ensures
        run(s, seq![(EventView::Line(line), a), (EventView::Done, b)]) == (
            commands::in_phase(s, Phase::Closed),
            seq![ActionView::Send("BYE\n"@), ActionView::Quit],
        ),
{
    lemma_run_two(s, (EventView::Line(line), a), (EventView::Done, b));
}

/// An unknown command, or one with an invalid argument, is answered with `ERR`, and the
/// session goes on.
pub proof fn law_invalid_command(s: Session, line: Seq<char>, a: u128, b: u128)
    requires
        s.phase == Phase::Command,
        commands::command(line, s.chunk_size).1 == Request::Invalid,
    ensures
        run(s, seq![(EventView::Line(line), a), (EventView::Done, b)]).1 == seq![
            ActionView::Send("ERR\n"@),
            ActionView::Send(commands::accept_line()),
        ],
{
    lemma_run_two(s, (EventView::Line(line), a), (EventView::Done, b));
}

} // verus!
