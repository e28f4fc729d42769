use rmbtd::protocol::commands::{
    parse_chunk_size, parse_command, run_commands, Action, Event, Phase, Request, Session,
};
use rmbtd::protocol::measure::Tally;

const ACCEPT: &str = "ACCEPT GETCHUNKS GETTIME PUT PUTNORESULT PING QUIT\n";

/// An action as a text.
fn show(a: &Action) -> String {
    match a {
        Action::Send(s) => format!("send {}", s.trim_end()),
        Action::SendChunk { size, terminal } => format!("chunk {size} {terminal}"),
        Action::StartClock => "start".to_string(),
        Action::ReadLine => "line".to_string(),
        Action::ReadData { size } => format!("data {size}"),
        Action::Quit => "quit".to_string(),
        Action::UnexpectedEof => "eof".to_string(),
        Action::OutOfTurn => "out of turn".to_string(),
    }
}

fn line(s: &str) -> Event {
    Event::Line(s.to_string())
}

/// A session that waits for a command.
fn ready() -> Session {
    let mut s = Session::new();
    assert!(matches!(run_commands(&mut s, Event::Done, 0), Action::Send(t) if t == ACCEPT));
    assert!(matches!(run_commands(&mut s, Event::Done, 0), Action::ReadLine));
    s
}

fn steps(s: &mut Session, events: Vec<(Event, u128)>) -> Vec<String> {
    events.into_iter().map(|(e, t)| show(&run_commands(s, e, t))).collect()
}

#[test]
fn command_lines_are_read() {
    let get_time = |seconds| Request::GetTime { seconds };
    let get_chunks = |count| Request::GetChunks { count };
    for (text, size, request) in [
        ("GETTIME 5", 4096, get_time(5)),
        ("  GETTIME 30 8192 ", 8192, get_time(30)),
        ("GETTIME 31", 4096, Request::Invalid),
        ("GETTIME 0", 4096, Request::Invalid),
        ("GETTIME", 4096, Request::Invalid),
        ("GETTIME x 8192", 8192, Request::Invalid),
        ("GETTIME 5 4095", 4096, Request::Invalid),
        ("GETTIME 5 4194305", 4096, Request::Invalid),
        ("GETTIME 5 4194304", 4_194_304, get_time(5)),
        ("GETCHUNKS 300000", 4096, get_chunks(300_000)),
        ("GETCHUNKS 300001", 4096, Request::Invalid),
        ("GETCHUNKS 2 5000", 5000, get_chunks(2)),
        ("GETCHUNKS  2", 4096, Request::Invalid),
        ("PUT", 4096, Request::Put { report: true }),
        ("PUT 9000", 9000, Request::Put { report: true }),
        ("PUTNORESULT", 4096, Request::Put { report: false }),
        ("PUT 1", 4096, Request::Invalid),
        ("PUT 9000 rest is ignored", 9000, Request::Put { report: true }),
        ("PING", 4096, Request::Ping),
        ("QUIT", 4096, Request::Quit),
        ("quit", 4096, Request::Invalid),
        ("", 4096, Request::Invalid),
        ("NONSENSE 1 2", 4096, Request::Invalid),
    ] {
        assert_eq!(parse_command(text, 4096), (size, request), "{text}");
    }
}

#[test]
fn chunk_sizes_have_bounds() {
    assert_eq!(parse_chunk_size("4096", 5000), Some(4096));
    assert_eq!(parse_chunk_size("5000", 5000), Some(5000));
    assert_eq!(parse_chunk_size("4095", 5000), None);
    assert_eq!(parse_chunk_size("5001", 5000), None);
    assert_eq!(parse_chunk_size("-1", 5000), None);
    assert_eq!(parse_chunk_size("", 5000), None);
}

#[test]
fn ping_is_answered_and_timed() {
    let mut s = ready();
    let seen = steps(
        &mut s,
        vec![
            (line("PING"), 0),
            (Event::Done, 1),
            (Event::Done, 2),
            (line("OK"), 777),
            (Event::Done, 0),
        ],
    );
    assert_eq!(seen, ["start", "send PONG", "line", "send TIME 777", &format!("send {}", ACCEPT.trim_end())]);
}

#[test]
fn counted_download_sends_exactly_the_chunks() {
    let mut s = ready();
    let seen = steps(
        &mut s,
        vec![
            (line("GETCHUNKS 3 5000"), 0),
            (Event::Done, 0),
            (Event::Done, 0),
            (Event::Done, 0),
            (Event::Done, 0),
            (line(" OK "), 42),
        ],
    );
    assert_eq!(
        seen,
        ["start", "chunk 5000 false", "chunk 5000 false", "chunk 5000 true", "line", "send TIME 42"]
    );
}

#[test]
fn timed_download_ends_when_the_time_is_up() {
    let mut s = ready();
    let second = 1_000_000_000;
    let seen = steps(
        &mut s,
        vec![
            (line("GETTIME 2"), 0),
            (Event::Done, 0),
            (Event::Done, 2 * second - 1),
            (Event::Done, 2 * second),
            (Event::Done, 0),
            (line("NO"), 3 * second),
        ],
    );
    assert_eq!(
        seen,
        ["start", "chunk 4096 false", "chunk 4096 false", "chunk 4096 true", "line", "send ERR"]
    );
}

fn data(count: usize, last_byte: u8) -> Event {
    Event::Data { count, last_byte }
}

#[test]
fn upload_is_reported_at_most_every_millisecond() {
    let mut s = ready();
    let ms = 1_000_000;
    let seen = steps(
        &mut s,
        vec![
            (line("PUT"), 0),
            (Event::Done, 0),
            (Event::Done, 0),
            (data(100, 0), 5),
            (Event::Done, 6),
            (data(100, 0), ms + 4),
            (data(100, 7), ms + 5),
            (Event::Done, ms + 6),
            (data(3796, 0xff), ms + 7),
        ],
    );
    assert_eq!(
        seen,
        [
            "send OK", "start", "data 4096", "send TIME 5 BYTES 100", "data 3996", "data 3896",
            "send TIME 1000005 BYTES 300", "data 3796", "send TIME 1000007",
        ]
    );
}

#[test]
fn last_piece_of_an_upload_may_be_reported_too() {
    let mut s = ready();
    let seen = steps(
        &mut s,
        vec![
            (line("PUT 8192"), 0),
            (Event::Done, 0),
            (Event::Done, 0),
            (data(8192, 0xff), 9),
            (Event::Done, 11),
        ],
    );
    assert_eq!(
        seen,
        ["send OK", "start", "data 8192", "send TIME 9 BYTES 8192", "send TIME 11"]
    );
    assert_eq!(s.phase, Phase::Ready);
}

#[test]
fn silent_upload_reports_only_its_time() {
    let mut s = ready();
    let seen = steps(
        &mut s,
        vec![
            (line("PUTNORESULT"), 0),
            (Event::Done, 0),
            (Event::Done, 0),
            (data(4096, 0), 5),
            (data(100, 0), 5_000_000),
            (data(3996, 0xff), 6_000_000),
        ],
    );
    assert_eq!(
        seen,
        ["send OK", "start", "data 4096", "data 4096", "data 3996", "send TIME 6000000"]
    );
}

#[test]
fn upload_ends_only_with_a_whole_chunk() {
    // a chunk with 0xFF at offsets 99 and 4095, which arrives in two reads
    for (command, answers) in [
        ("PUTNORESULT", vec!["data 3996", "send TIME 20"]),
        ("PUT", vec!["send TIME 10 BYTES 100", "data 3996", "send TIME 20"]),
    ] {
        let mut s = ready();
        steps(&mut s, vec![(line(command), 0), (Event::Done, 0), (Event::Done, 0)]);
        let mut seen = steps(&mut s, vec![(data(100, 0xff), 10)]);
        if command == "PUT" {
            seen.extend(steps(&mut s, vec![(Event::Done, 11)]));
        }
        assert_ne!(s.phase, Phase::Ready);
        seen.extend(steps(&mut s, vec![(data(3996, 0xff), 20)]));
        assert_eq!(seen, answers);
        assert_eq!(s.phase, Phase::Ready);
    }
}

#[test]
fn upload_ends_with_the_connection() {
    let mut s = ready();
    let seen = steps(
        &mut s,
        vec![(line("PUT"), 0), (Event::Done, 0), (Event::Done, 0), (data(0, 0), 5)],
    );
    assert_eq!(seen[3], "eof");
    assert_eq!(s.phase, Phase::Closed);
}

#[test]
fn bad_commands_are_refused_and_quit_ends() {
    let mut s = ready();
    let seen = steps(
        &mut s,
        vec![
            (line("HELLO"), 0),
            (Event::Done, 0),
            (Event::Done, 0),
            (line("QUIT"), 0),
            (Event::Done, 0),
            (Event::Done, 0),
        ],
    );
    assert_eq!(
        seen,
        ["send ERR", &format!("send {}", ACCEPT.trim_end()), "line", "send BYE", "quit", "out of turn"]
    );
}

#[test]
fn chunk_size_stays_in_force() {
    let mut s = ready();
    steps(&mut s, vec![(line("PUT 5000"), 0), (Event::Done, 0), (Event::Done, 0)]);
    steps(&mut s, vec![(data(5000, 0xff), 1), (Event::Done, 1), (Event::Done, 1), (Event::Done, 1)]);
    let seen = steps(&mut s, vec![(line("GETCHUNKS 1"), 0), (Event::Done, 0)]);
    assert_eq!(seen, ["start", "chunk 5000 true"]);
}

#[test]
fn tests_are_measured() {
    let mut s = Session::new();
    let mut tally = Tally::new();
    for (event, time) in [
        (Event::Done, 0),
        (Event::Done, 0),
        (line("GETCHUNKS 4"), 0),
        (Event::Done, 1),
        (Event::Done, 2),
        (Event::Done, 3),
        (Event::Done, 4),
        (Event::Done, 5),
        (line("OK"), 1000),
        (Event::Done, 0),
        (Event::Done, 0),
        (line("PUTNORESULT"), 0),
        (Event::Done, 0),
        (Event::Done, 0),
        (data(4096, 0), 0),
        (data(8192, 0xff), 600),
        (Event::Done, 0),
        (Event::Done, 0),
        (line("PING"), 0),
        (Event::Done, 0),
        (Event::Done, 0),
        (line("OK"), 102),
        (Event::Done, 0),
        (Event::Done, 0),
        (line("PING"), 0),
        (Event::Done, 0),
        (Event::Done, 0),
        (line("no"), 50),
        (Event::Done, 0),
        (Event::Done, 0),
        (line("PUT"), 0),
        (Event::Done, 0),
        (Event::Done, 0),
        (data(4096, 0xff), 7),
        (Event::Done, 9),
    ] {
        assert!(tally.fits(&s, &event, time));
        let action = tally.step(&mut s, event, time);
        assert_ne!(show(&action), "out of turn");
    }
    let stats = tally.stats;
    assert_eq!(stats.commands, 5);
    assert_eq!((stats.download_bytes, stats.download_ns), (16384, 1000));
    assert_eq!((stats.upload_bytes, stats.upload_ns), (12288 + 4096, 609));
    assert_eq!((stats.ping_count, stats.ping_min_ns, stats.ping_max_ns), (1, 102, 102));
}

#[test]
fn measurements_are_bounded() {
    let s = ready();
    let mut tally = Tally::new();
    tally.stats.commands = u32::MAX;
    assert!(!tally.fits(&s, &line("PING"), 0));
    tally.stats.commands = 0;
    assert!(tally.fits(&s, &line("PING"), 0));
}
