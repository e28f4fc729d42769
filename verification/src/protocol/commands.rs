//! The command phase: what the server does after the greeting.
//!
//! The phase is a state machine. Each step takes what came of the last action, and the time
//! since the clock was last started, and yields the next action to perform.

use vstd::prelude::*;
use crate::config::constants::{
    CHUNK_SIZE, MAX_CHUNKS, MAX_CHUNK_SIZE, MAX_SECONDS, MIN_CHUNK_SIZE,
};
use crate::number::{self, push_dec, read_unsigned};
use crate::text::{self, cut_once, same_text, trimmed};

verus! {

// ── Reading a command ───────────────────────────────────────────────────────────
/// What a command line asks for.
#[derive(Clone, Copy, Debug, PartialEq, Eq, Structural)]
pub enum Request {
    /// `GETTIME <seconds> [chunksize]`
    GetTime { seconds: u32 },
    /// `GETCHUNKS <count> [chunksize]`
    GetChunks { count: u32 },
    /// `PUT [chunksize]` (with reports) or `PUTNORESULT [chunksize]`
    Put { report: bool },
    /// `PING`
    Ping,
    /// `QUIT`
    Quit,
    /// An unknown command, or one with an invalid argument.
    Invalid,
}

/// The fields of a command line: the command and up to two arguments, separated by single
/// spaces, without the white space around the line and around each argument.
pub open spec fn fields(line: Seq<char>) -> (Seq<char>, Seq<char>, Seq<char>) {
    let t = text::trim(line);
    let none = Seq::<char>::empty();
    match text::split_once(t, " "@) {
        Some((cmd, rest)) => match text::split_once(rest, " "@) {
            Some((a, b)) => (cmd, text::trim(a), text::trim(b)),
            None => (cmd, text::trim(rest), none),
        },
        None => (t, none, none),
    }
}

/// The chunk size that `s` spells, if it is from `MIN_CHUNK_SIZE` to `max`.
pub open spec fn chunk_size_of(s: Seq<char>, max: nat) -> Option<nat> {
    match number::unsigned(s, usize::MAX as nat) {
        Some(n) => if MIN_CHUNK_SIZE <= n <= max {
            Some(n)
        } else {
            None
        },
        None => None,
    }
}

/// The chunk size after a command with this argument: the present one without an argument.
pub open spec fn next_chunk_size(arg: Seq<char>, current: usize) -> Option<usize> {
    if arg.len() == 0 {
        Some(current)
    } else {
        match chunk_size_of(arg, MAX_CHUNK_SIZE as nat) {
            Some(n) => Some(n as usize),
            None => None,
        }
    }
}

/// The number from 1 to `max` that `s` spells.
pub open spec fn positive_of(s: Seq<char>, max: u32) -> Option<u32> {
    match number::unsigned(s, u32::MAX as nat) {
        Some(n) => if 0 < n <= max {
            Some(n as u32)
        } else {
            None
        },
        None => None,
    }
}

/// The chunk size and the request that a command line comes to. A valid chunk size stays in
/// force even when another argument is invalid.
pub open spec fn command(line: Seq<char>, chunk_size: usize) -> (usize, Request) {
    let (cmd, arg1, arg2) = fields(line);
    if cmd == "GETTIME"@ {
        match next_chunk_size(arg2, chunk_size) {
            Some(cs) => match positive_of(arg1, MAX_SECONDS) {
                Some(seconds) => (cs, Request::GetTime { seconds }),
                None => (cs, Request::Invalid),
            },
            None => (chunk_size, Request::Invalid),
        }
    } else if cmd == "GETCHUNKS"@ {
        match next_chunk_size(arg2, chunk_size) {
            Some(cs) => match positive_of(arg1, MAX_CHUNKS) {
                Some(count) => (cs, Request::GetChunks { count }),
                None => (cs, Request::Invalid),
            },
            None => (chunk_size, Request::Invalid),
        }
    } else if cmd == "PUT"@ || cmd == "PUTNORESULT"@ {
        match next_chunk_size(arg1, chunk_size) {
            Some(cs) => (cs, Request::Put { report: cmd == "PUT"@ }),
            None => (chunk_size, Request::Invalid),
        }
    } else if cmd == "PING"@ {
        (chunk_size, Request::Ping)
    } else if cmd == "QUIT"@ {
        (chunk_size, Request::Quit)
    } else {
        (chunk_size, Request::Invalid)
    }
}

/// Parses and validates a chunk size argument.
/// Returns `None` if the value is out of range or not a valid number.
pub fn parse_chunk_size(s: &str, max: usize) -> (r: Option<usize>)
    ensures
        match r {
            Some(n) => chunk_size_of(s@, max as nat) == Some(n as nat),
            None => chunk_size_of(s@, max as nat) is None,
        },
{
    match read_unsigned(s, usize::MAX as u64) {
        Some(n) => if n < MIN_CHUNK_SIZE as u64 || n > max as u64 {
            None
        } else {
            Some(n as usize)
        },
        None => None,
    }
}

fn override_chunk_size(arg: &str, current: usize) -> (r: Option<usize>)
    ensures
        r == next_chunk_size(arg@, current),
{
    if arg.is_empty() {
        Some(current)
    } else {
        parse_chunk_size(arg, MAX_CHUNK_SIZE as usize)
    }
}

fn parse_positive(s: &str, max: u32) -> (r: Option<u32>)
    ensures
        r == positive_of(s@, max),
{
    match read_unsigned(s, u32::MAX as u64) {
        Some(n) => if n > 0 && n <= max as u64 {
            Some(n as u32)
        } else {
            None
        },
        None => None,
    }
}

/// Reads a command line when `chunk_size` is the chunk size in force.
pub fn parse_command(line: &str, chunk_size: usize) -> (r: (usize, Request))
    ensures
        r == command(line@, chunk_size),
{
    let t = trimmed(line);
    let (cmd, arg1, arg2) = match cut_once(t, " ") {
        Some((cmd, rest)) => match cut_once(rest, " ") {
            Some((a, b)) => (cmd, trimmed(a), trimmed(b)),
            None => (cmd, trimmed(rest), ""),
        },
        None => (t, "", ""),
    };
    proof {
        reveal_strlit("");
        assert(""@ == Seq::<char>::empty());
    }
    if same_text(cmd, "GETTIME") {
        match override_chunk_size(arg2, chunk_size) {
            Some(cs) => match parse_positive(arg1, MAX_SECONDS) {
                Some(seconds) => (cs, Request::GetTime { seconds }),
                None => (cs, Request::Invalid),
            },
            None => (chunk_size, Request::Invalid),
        }
    } else if same_text(cmd, "GETCHUNKS") {
        match override_chunk_size(arg2, chunk_size) {
            Some(cs) => match parse_positive(arg1, MAX_CHUNKS) {
                Some(count) => (cs, Request::GetChunks { count }),
                None => (cs, Request::Invalid),
            },
            None => (chunk_size, Request::Invalid),
        }
    } else if same_text(cmd, "PUT") || same_text(cmd, "PUTNORESULT") {
        match override_chunk_size(arg1, chunk_size) {
            Some(cs) => (cs, Request::Put { report: same_text(cmd, "PUT") }),
            None => (chunk_size, Request::Invalid),
        }
    } else if same_text(cmd, "PING") {
        (chunk_size, Request::Ping)
    } else if same_text(cmd, "QUIT") {
        (chunk_size, Request::Quit)
    } else {
        (chunk_size, Request::Invalid)
    }
}

// ── The machine ─────────────────────────────────────────────────────────────────
/// Where a session stands.
#[derive(Clone, Copy, Debug, PartialEq, Eq, Structural)]
pub enum Phase {
    /// The commands have to be offered next.
    Ready,
    /// The offer is on its way.
    Prompted,
    /// A command line is awaited.
    Command,
    /// Chunks are sent until `max_ns` nanoseconds have passed.
    Timed { max_ns: u128 },
    /// `left` more chunks have to be sent.
    Counted { left: u32 },
    /// The last thing that the client has to acknowledge is on its way.
    Sent,
    /// The acknowledgement is awaited.
    Ack,
    /// The clock was started for a ping.
    PingStart,
    /// `OK` is on its way before an upload.
    Granted { report: bool },
    /// The clock was started for an upload.
    UploadStart { report: bool },
    /// Upload data is awaited. `last_report_ns` is the time of the last report.
    Receiving { report: bool, total_bytes: u64, last_report_ns: Option<u128> },
    /// A report is on its way; `done` when the terminal chunk has arrived.
    Reported { total_bytes: u64, last_report_ns: u128, done: bool },
    /// `BYE` is on its way.
    Leaving,
    /// The session is over.
    Closed,
}

/// The command phase of a connection.
#[derive(Clone, Copy, Debug, PartialEq, Eq, Structural)]
pub struct Session {
    /// The chunk size negotiated with the client.
    pub chunk_size: usize,
    pub phase: Phase,
}

/// What came of the last action.
pub enum Event {
    /// The session begins, the data was sent, or the clock was started.
    Done,
    /// A line was read.
    Line(String),
    /// `count` bytes were read, the last of which is `last_byte`; at the end of the data
    /// stream `count` is 0.
    Data { count: usize, last_byte: u8 },
}

/// What to do next.
pub enum Action {
    /// Send this protocol line.
    Send(String),
    /// Send a chunk of `size` random bytes.
    SendChunk { size: usize, terminal: bool },
    /// Start the clock at zero.
    StartClock,
    /// Read a line.
    ReadLine,
    /// Read at most `size` bytes of upload data.
    ReadData { size: usize },
    /// End the session: the client has quit.
    Quit,
    /// End the session: the connection was closed during an upload.
    UnexpectedEof,
    /// End the session: the event does not answer the last action.
    OutOfTurn,
}

/// What an `Event` says.
pub enum EventView {
    Done,
    Line(Seq<char>),
    Data { count: usize, last_byte: u8 },
}

/// What an `Action` says.
pub enum ActionView {
    Send(Seq<char>),
    SendChunk { size: usize, terminal: bool },
    StartClock,
    ReadLine,
    ReadData { size: usize },
    Quit,
    UnexpectedEof,
    OutOfTurn,
}

impl View for Event {
    type V = EventView;

    open spec fn view(&self) -> EventView {
        match self {
            Event::Done => EventView::Done,
            Event::Line(l) => EventView::Line(l@),
            Event::Data { count, last_byte } => EventView::Data {
                count: *count,
                last_byte: *last_byte,
            },
        }
    }
}

impl View for Action {
    type V = ActionView;

    open spec fn view(&self) -> ActionView {
        match self {
            Action::Send(s) => ActionView::Send(s@),
            Action::SendChunk { size, terminal } => ActionView::SendChunk {
                size: *size,
                terminal: *terminal,
            },
            Action::StartClock => ActionView::StartClock,
            Action::ReadLine => ActionView::ReadLine,
            Action::ReadData { size } => ActionView::ReadData { size: *size },
            Action::Quit => ActionView::Quit,
            Action::UnexpectedEof => ActionView::UnexpectedEof,
            Action::OutOfTurn => ActionView::OutOfTurn,
        }
    }
}

/// The offer of commands.
pub open spec fn accept_line() -> Seq<char> {
    "ACCEPT GETCHUNKS GETTIME PUT PUTNORESULT PING QUIT\n"@
}

/// The report of a time.
pub open spec fn time_line(ns: u128) -> Seq<char> {
    "TIME "@ + number::dec(ns as nat) + "\n"@
}

/// The report of a time and the bytes received by then.
pub open spec fn bytes_line(ns: u128, bytes: u64) -> Seq<char> {
    "TIME "@ + number::dec(ns as nat) + " BYTES "@ + number::dec(bytes as nat) + "\n"@
}

/// The shortest time between two reports of an upload, in nanoseconds.
pub const REPORT_INTERVAL_NS: u128 = 1_000_000;

/// A report is due: none was made yet, or the last was made long enough ago.
pub open spec fn report_due(last_report_ns: Option<u128>, elapsed_ns: u128) -> bool {
    match last_report_ns {
        Some(last) => elapsed_ns - last >= REPORT_INTERVAL_NS,
        None => true,
    }
}

/// The session in another phase.
pub open spec fn in_phase(s: Session, phase: Phase) -> Session {
    Session { chunk_size: s.chunk_size, phase }
}

/// The answer to a command line.
pub open spec fn on_command(s: Session, line: Seq<char>) -> (Session, ActionView) {
    let (chunk_size, request) = command(line, s.chunk_size);
    let t = Session { chunk_size, phase: s.phase };
    match request {
        Request::GetTime { seconds } => (
            in_phase(t, Phase::Timed { max_ns: (seconds * 1_000_000_000) as u128 }),
            ActionView::StartClock,
        ),
        Request::GetChunks { count } => (
            in_phase(t, Phase::Counted { left: count }),
            ActionView::StartClock,
        ),
        Request::Put { report } => (
            in_phase(t, Phase::Granted { report }),
            ActionView::Send("OK\n"@),
        ),
        Request::Ping => (in_phase(t, Phase::PingStart), ActionView::StartClock),
        Request::Quit => (in_phase(t, Phase::Leaving), ActionView::Send("BYE\n"@)),
        Request::Invalid => (in_phase(t, Phase::Ready), ActionView::Send("ERR\n"@)),
    }
}

/// How many bytes are left of the chunk that is being received, when `total` bytes of the
/// upload have come.
pub open spec fn rest_of_chunk(total: nat, chunk_size: usize) -> usize {
    (chunk_size - total % (chunk_size as nat)) as usize
}

/// The upload ends with this byte as the last of `total` bytes: it is 0xFF and the last byte
/// of a chunk.
pub open spec fn ends_upload(total: nat, last_byte: u8, chunk_size: usize) -> bool {
    last_byte == 0xff && total % (chunk_size as nat) == 0
}

/// The answer to a piece of upload data, which ends the upload when its last byte is 0xFF and
/// the last byte of a chunk.
pub open spec fn on_data(
    s: Session,
    report: bool,
    total_bytes: u64,
    last_report_ns: Option<u128>,
    count: usize,
    last_byte: u8,
    elapsed_ns: u128,
) -> (Session, ActionView) {
    let total = (total_bytes + count) as u64;
    let done = ends_upload(total as nat, last_byte, s.chunk_size);
    if count == 0 {
        (in_phase(s, Phase::Closed), ActionView::UnexpectedEof)
    } else if report && report_due(last_report_ns, elapsed_ns) {
        (
            in_phase(
                s,
                Phase::Reported { total_bytes: total, last_report_ns: elapsed_ns, done },
            ),
            ActionView::Send(bytes_line(elapsed_ns, total)),
        )
    } else if done {
        (in_phase(s, Phase::Ready), ActionView::Send(time_line(elapsed_ns)))
    } else {
        (
            in_phase(s, Phase::Receiving { report, total_bytes: total, last_report_ns }),
            ActionView::ReadData { size: rest_of_chunk(total as nat, s.chunk_size) },
        )
    }
}

/// One step of a session: the next state and action, when the last action came to `event`
/// and `elapsed_ns` nanoseconds have passed since the clock was started.
pub open spec fn step(s: Session, event: EventView, elapsed_ns: u128) -> (Session, ActionView) {
    match (s.phase, event) {
        (Phase::Ready, EventView::Done) => (
            in_phase(s, Phase::Prompted),
            ActionView::Send(accept_line()),
        ),
        (Phase::Prompted, EventView::Done) => (in_phase(s, Phase::Command), ActionView::ReadLine),
        (Phase::Command, EventView::Line(line)) => on_command(s, line),
        (Phase::Timed { max_ns }, EventView::Done) => {
            let terminal = elapsed_ns >= max_ns;
            (
                in_phase(
                    s,
                    if terminal {
                        Phase::Sent
                    } else {
                        s.phase
                    },
                ),
                ActionView::SendChunk { size: s.chunk_size, terminal },
            )
        },
        (Phase::Counted { left }, EventView::Done) => {
            let terminal = left <= 1;
            (
                in_phase(
                    s,
                    if terminal {
                        Phase::Sent
                    } else {
                        Phase::Counted { left: (left - 1) as u32 }
                    },
                ),
                ActionView::SendChunk { size: s.chunk_size, terminal },
            )
        },
        (Phase::Sent, EventView::Done) => (in_phase(s, Phase::Ack), ActionView::ReadLine),
        (Phase::Ack, EventView::Line(line)) => (
            in_phase(s, Phase::Ready),
            ActionView::Send(
                if text::trim(line) == "OK"@ {
                    time_line(elapsed_ns)
                } else {
                    "ERR\n"@
                },
            ),
        ),
        (Phase::PingStart, EventView::Done) => (
            in_phase(s, Phase::Sent),
            ActionView::Send("PONG\n"@),
        ),
        (Phase::Granted { report }, EventView::Done) => (
            in_phase(s, Phase::UploadStart { report }),
            ActionView::StartClock,
        ),
        (Phase::UploadStart { report }, EventView::Done) => (
            in_phase(s, Phase::Receiving { report, total_bytes: 0, last_report_ns: None }),
            ActionView::ReadData { size: s.chunk_size },
        ),
        (
            Phase::Receiving { report, total_bytes, last_report_ns },
            EventView::Data { count, last_byte },
        ) => on_data(s, report, total_bytes, last_report_ns, count, last_byte, elapsed_ns),
        (Phase::Reported { total_bytes, last_report_ns, done }, EventView::Done) => if done {
            (in_phase(s, Phase::Ready), ActionView::Send(time_line(elapsed_ns)))
        } else {
            (
                in_phase(
                    s,
                    Phase::Receiving {
                        report: true,
                        total_bytes,
                        last_report_ns: Some(last_report_ns),
                    },
                ),
                ActionView::ReadData { size: rest_of_chunk(total_bytes as nat, s.chunk_size) },
            )
        },
        (Phase::Leaving, EventView::Done) => (in_phase(s, Phase::Closed), ActionView::Quit),
        _ => (in_phase(s, Phase::Closed), ActionView::OutOfTurn),
    }
}

/// The bytes of an upload can be counted with 64 bits.
pub open spec fn counts(s: Session, event: EventView) -> bool {
    match (s.phase, event) {
        (Phase::Receiving { total_bytes, .. }, EventView::Data { count, .. }) => total_bytes
            + count <= u64::MAX,
        _ => true,
    }
}

impl Session {
    /// The chunk size is one that a client may request.
    pub open spec fn wf(self) -> bool {
        MIN_CHUNK_SIZE <= self.chunk_size <= MAX_CHUNK_SIZE
    }

    /// A session before its first command.
    pub fn new() -> (r: Session)
        ensures
            r == (Session { chunk_size: CHUNK_SIZE, phase: Phase::Ready }),
            r.wf(),
    {
        Session { chunk_size: CHUNK_SIZE, phase: Phase::Ready }
    }
}

fn time_text(ns: u128) -> (r: String)
    ensures
        r@ == time_line(ns),
{
    let mut out = "TIME ".to_owned();
    push_dec(&mut out, ns);
    out.append("\n");
    out
}

fn bytes_text(ns: u128, bytes: u64) -> (r: String)
    ensures
        r@ == bytes_line(ns, bytes),
{
    let mut out = "TIME ".to_owned();
    push_dec(&mut out, ns);
    out.append(" BYTES ");
    push_dec(&mut out, bytes as u128);
    out.append("\n");
    out
}

/// Answers a command line.
fn handle_command(s: &mut Session, line: &str) -> (r: Action)
    ensures
        (*final(s), r@) == on_command(*old(s), line@),
{
    let (chunk_size, request) = parse_command(line, s.chunk_size);
    s.chunk_size = chunk_size;
    match request {
        Request::GetTime { seconds } => {
            s.phase = Phase::Timed { max_ns: seconds as u128 * 1_000_000_000 };
            Action::StartClock
        },
        Request::GetChunks { count } => {
            s.phase = Phase::Counted { left: count };
            Action::StartClock
        },
        Request::Put { report } => {
            s.phase = Phase::Granted { report };
            Action::Send("OK\n".to_owned())
        },
        Request::Ping => {
            s.phase = Phase::PingStart;
            Action::StartClock
        },
        Request::Quit => {
            s.phase = Phase::Leaving;
            Action::Send("BYE\n".to_owned())
        },
        Request::Invalid => {
            s.phase = Phase::Ready;
            Action::Send("ERR\n".to_owned())
        },
    }
}

/// How many bytes are left of the chunk that is being received.
fn chunk_rest(total: u64, chunk_size: usize) -> (r: usize)
    requires
        chunk_size > 0,
    ensures
        r == rest_of_chunk(total as nat, chunk_size),
        0 < r <= chunk_size,
{
    let filled: u64 = total % chunk_size as u64;
    chunk_size - filled as usize
}

/// Answers a piece of upload data.
fn handle_data(
    s: &mut Session,
    report: bool,
    total_bytes: u64,
    last_report_ns: Option<u128>,
    count: usize,
    last_byte: u8,
    elapsed_ns: u128,
) -> (r: Action)
    requires
        total_bytes + count <= u64::MAX,
        old(s).wf(),
    ensures
        (*final(s), r@) == on_data(
            *old(s),
            report,
            total_bytes,
            last_report_ns,
            count,
            last_byte,
            elapsed_ns,
        ),
{
    if count == 0 {
        s.phase = Phase::Closed;
        return Action::UnexpectedEof;
    }
    let total: u64 = total_bytes + count as u64;
    let done = last_byte == 0xff && total % s.chunk_size as u64 == 0;
    let due = match last_report_ns {
        Some(last) => elapsed_ns >= last && elapsed_ns - last >= REPORT_INTERVAL_NS,
        None => true,
    };
    if report && due {
        s.phase = Phase::Reported { total_bytes: total, last_report_ns: elapsed_ns, done };
        Action::Send(bytes_text(elapsed_ns, total))
    } else if done {
        s.phase = Phase::Ready;
        Action::Send(time_text(elapsed_ns))
    } else {
        s.phase = Phase::Receiving { report, total_bytes: total, last_report_ns };
        Action::ReadData { size: chunk_rest(total, s.chunk_size) }
    }
}

/// One step of the command phase: takes what came of the last action, and the time since the
/// clock was started, and yields the next action. A session begins with `Event::Done`.
pub fn run_commands(s: &mut Session, event: Event, elapsed_ns: u128) -> (r: Action)
    requires
        old(s).wf(),
        counts(*old(s), event@),
    ensures
        (*final(s), r@) == step(*old(s), event@, elapsed_ns),
        final(s).wf(),
{
    match (s.phase, event) {
        (Phase::Ready, Event::Done) => {
            s.phase = Phase::Prompted;
            Action::Send("ACCEPT GETCHUNKS GETTIME PUT PUTNORESULT PING QUIT\n".to_owned())
        },
        (Phase::Prompted, Event::Done) => {
            s.phase = Phase::Command;
            Action::ReadLine
        },
        (Phase::Command, Event::Line(line)) => handle_command(s, line.as_str()),
        (Phase::Timed { max_ns }, Event::Done) => {
            let terminal = elapsed_ns >= max_ns;
            if terminal {
                s.phase = Phase::Sent;
            }
            Action::SendChunk { size: s.chunk_size, terminal }
        },
        (Phase::Counted { left }, Event::Done) => {
            let terminal = left <= 1;
            s.phase = if terminal {
                Phase::Sent
            } else {
                Phase::Counted { left: left - 1 }
            };
            Action::SendChunk { size: s.chunk_size, terminal }
        },
        (Phase::Sent, Event::Done) => {
            s.phase = Phase::Ack;
            Action::ReadLine
        },
        (Phase::Ack, Event::Line(line)) => {
            s.phase = Phase::Ready;
            if same_text(trimmed(line.as_str()), "OK") {
                Action::Send(time_text(elapsed_ns))
            } else {
                Action::Send("ERR\n".to_owned())
            }
        },
        (Phase::PingStart, Event::Done) => {
            s.phase = Phase::Sent;
            Action::Send("PONG\n".to_owned())
        },
        (Phase::Granted { report }, Event::Done) => {
            s.phase = Phase::UploadStart { report };
            Action::StartClock
        },
        (Phase::UploadStart { report }, Event::Done) => {
            s.phase = Phase::Receiving { report, total_bytes: 0, last_report_ns: None };
            Action::ReadData { size: s.chunk_size }
        },
        (
            Phase::Receiving { report, total_bytes, last_report_ns },
            Event::Data { count, last_byte },
        ) => handle_data(s, report, total_bytes, last_report_ns, count, last_byte, elapsed_ns),
        (Phase::Reported { total_bytes, last_report_ns, done }, Event::Done) => {
            if done {
                s.phase = Phase::Ready;
                Action::Send(time_text(elapsed_ns))
            } else {
                s.phase = Phase::Receiving {
                    report: true,
                    total_bytes,
                    last_report_ns: Some(last_report_ns),
                };
                Action::ReadData { size: chunk_rest(total_bytes, s.chunk_size) }
            }
        },
        (Phase::Leaving, Event::Done) => {
            s.phase = Phase::Closed;
            Action::Quit
        },
        _ => {
            s.phase = Phase::Closed;
            Action::OutOfTurn
        },
    }
}

} // verus!
