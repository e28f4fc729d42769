use rmbtd::stream::upgrade::{
    answer_request, detect_and_upgrade, find_key, handshake_response, websocket_accept, HeadStep,
    RequestHead, Upgrade, UpgradeError, MAX_HEAD_LENGTH,
};
use rmbtd::stream::{finish_line, strip_line, Backlog, Incoming, Message, Outgoing, Stream, StreamError};

fn raw(s: &str) -> Incoming {
    Incoming::Line(s.to_string())
}

fn text(s: &str) -> Incoming {
    Incoming::Frame(Message::Text(s.to_string()))
}

fn binary(b: &[u8]) -> Incoming {
    Incoming::Frame(Message::Binary(b.to_vec()))
}

fn ok(s: &str) -> Result<Option<String>, StreamError> {
    Ok(Some(s.to_string()))
}

#[test]
fn raw_lines_lose_one_line_end() {
    assert_eq!(Stream::read_line(raw("PING\n")), ok("PING"));
    assert_eq!(Stream::read_line(raw("PING\r\n")), ok("PING"));
    assert_eq!(Stream::read_line(raw("PING\r\r\n")), ok("PING\r"));
    assert_eq!(Stream::read_line(raw("PING")), ok("PING"));
    assert_eq!(Stream::read_line(raw("\n")), ok(""));
    assert_eq!(Stream::read_line(raw("")), Err(StreamError::ConnectionClosed));
    assert_eq!(finish_line("x\n\n"), ok("x\n"));
}

#[test]
fn messages_hold_lines() {
    assert_eq!(Stream::read_line(text("PING\n\n")), ok("PING"));
    assert_eq!(Stream::read_line(text("PING\r\r\n")), ok("PING"));
    assert_eq!(Stream::read_line(text("")), ok(""));
    assert_eq!(Stream::read_line(binary(b"PING\r\n")), ok("PING"));
    assert_eq!(Stream::read_line(binary(b"PING\n\n")), ok("PING\n"));
    assert_eq!(Stream::read_line(binary(b"a\xffb\n")), ok("a\u{fffd}b"));
    assert_eq!(Stream::read_line(Incoming::Frame(Message::Control)), Ok(None));
    assert_eq!(
        Stream::read_line(Incoming::Frame(Message::Close)),
        Err(StreamError::WsClose)
    );
}

#[test]
fn long_lines_are_refused() {
    let full = format!("{}\n", "a".repeat(1023));
    let long = format!("{}\n", "a".repeat(1024));
    // 1023 characters and the line feed, but more bytes
    let wide = format!("{}ä\n", "a".repeat(1022));
    assert_eq!(Stream::read_line(raw(&full)), ok(&"a".repeat(1023)));
    for s in [&long, &wide] {
        assert_eq!(Stream::read_line(raw(s)), Err(StreamError::LineTooLong));
        assert_eq!(Stream::read_line(text(s)), Err(StreamError::LineTooLong));
        assert_eq!(Stream::read_line(binary(s.as_bytes())), Err(StreamError::LineTooLong));
    }
}

#[test]
fn binary_lines_are_measured_as_sent() {
    // three bytes of text for each byte sent
    let sent = vec![0xffu8; 400];
    assert_eq!(Stream::read_line(binary(&sent)), ok(&"\u{fffd}".repeat(400)));
    assert_eq!(Stream::read_line(binary(&vec![0xffu8; 1025])), Err(StreamError::LineTooLong));
    assert_eq!(strip_line("x\r\n"), "x");
}

fn show(out: Outgoing) -> (char, Vec<u8>) {
    match out {
        Outgoing::Bytes(b) => ('r', b),
        Outgoing::Frame(Message::Text(t)) => ('t', t.into_bytes()),
        Outgoing::Frame(Message::Binary(b)) => ('b', b),
        Outgoing::Frame(_) => panic!("a control message goes out"),
    }
}

#[test]
fn data_is_framed_by_its_length() {
    for (len, kind) in [(0, 'b'), (1, 'b'), (2, 't'), (4093, 't'), (4094, 'b'), (5000, 'b')] {
        let data = vec![b'x'; len];
        assert_eq!(show(Stream::WebSocket.write_all(&data)), (kind, data.clone()));
        assert_eq!(show(Stream::Raw.write_all(&data)), ('r', data));
    }
    let lossy = show(Stream::WebSocket.write_all(b"a\xff"));
    assert_eq!(lossy, ('t', "a\u{fffd}".as_bytes().to_vec()));
}

#[test]
fn lines_are_read_back() {
    for s in ["OK", "TIME 5 BYTES 7", "ä"] {
        let sent = format!("{s}\n");
        match Stream::WebSocket.write_line(&sent) {
            Outgoing::Frame(m) => assert_eq!(Stream::read_line(Incoming::Frame(m)), ok(s)),
            Outgoing::Bytes(_) => panic!("raw bytes on a WebSocket"),
        }
        let (kind, bytes) = show(Stream::Raw.write_line(&sent));
        assert_eq!(kind, 'r');
        assert_eq!(Stream::read_line(raw(&String::from_utf8(bytes).unwrap())), ok(s));
    }
}

#[test]
fn messages_are_reassembled() {
    let mut buf = vec![9u8; 5];
    let mut filled = 0;
    for m in [
        Message::Binary(vec![1, 2]),
        Message::Control,
        Message::Text("A".to_string()),
        Message::Binary(vec![3, 4, 5, 6]),
    ] {
        filled = Stream::read_exact(&mut buf, filled, &m).unwrap();
    }
    assert_eq!((filled, buf.as_slice()), (5, &[1, 2, 65, 3, 4][..]));
    let closed = Stream::read_exact(&mut buf, 0, &Message::Close);
    assert_eq!(closed, Err(StreamError::WsClose));
    assert_eq!(buf, [1, 2, 65, 3, 4]);
}

#[test]
fn pieces_are_copied() {
    let mut buf = vec![9u8; 3];
    assert_eq!(Stream::read(&mut buf, &Message::Binary(vec![1])), Some(1));
    assert_eq!(buf, [1, 9, 9]);
    assert_eq!(Stream::read(&mut buf, &Message::Text("abcd".to_string())), Some(3));
    assert_eq!(buf, b"abc".to_vec());
    assert_eq!(Stream::read(&mut buf, &Message::Control), None);
    assert_eq!(Stream::read(&mut buf, &Message::Close), Some(0));
    assert_eq!(buf, b"abc".to_vec());
}

#[test]
fn upload_data_is_handed_on_in_pieces() {
    let mut b = Backlog::new();
    assert!(b.is_empty());
    assert_eq!(b.take(5), (0, 0));
    b.put(&[1, 2, 3, 4, 5]);
    assert_eq!(b.take(2), (2, 2));
    assert!(!b.is_empty());
    assert_eq!(b.take(9), (3, 5));
    assert!(b.is_empty());
    assert_eq!(Stream::Raw.upload_room(3, 10), 3);
    assert_eq!(Stream::WebSocket.upload_room(3, 10), 10);
}

#[test]
fn framings_have_names() {
    assert_eq!(Stream::Raw.kind_name(), "raw");
    assert_eq!(Stream::WebSocket.kind_name(), "websocket");
}

// ── The HTTP upgrade ────────────────────────────────────────────────────────────
fn read_head(bytes: &[u8]) -> (HeadStep, usize) {
    let mut head = RequestHead::new();
    for b in bytes {
        let step = head.push(*b);
        if step != HeadStep::More {
            return (step, head.bytes.len());
        }
    }
    (HeadStep::More, head.bytes.len())
}

#[test]
fn head_ends_at_the_first_blank_line() {
    assert_eq!(read_head(b"GET / HTTP/1.1\r\n\r\nrest\r\n\r\n"), (HeadStep::Complete, 18));
    assert_eq!(read_head(b"GET / HTTP/1.1\r\n"), (HeadStep::More, 16));
    assert_eq!(read_head(b"\n\r\n\r\n"), (HeadStep::Complete, 5));
}

#[test]
fn head_is_bounded() {
    let long = vec![b'a'; MAX_HEAD_LENGTH + 10];
    assert_eq!(read_head(&long), (HeadStep::TooLarge, MAX_HEAD_LENGTH + 1));
    let mut just = vec![b'a'; MAX_HEAD_LENGTH - 3];
    just.extend_from_slice(b"\r\n\r\n");
    assert_eq!(read_head(&just), (HeadStep::Complete, MAX_HEAD_LENGTH + 1));
}

fn accepted(u: Upgrade) -> (Stream, String) {
    match u {
        Upgrade::Accepted { stream, response } => (stream, response),
        Upgrade::Refused { error, .. } => panic!("{error:?}"),
    }
}

fn refused(u: Upgrade) -> (Option<String>, UpgradeError) {
    match u {
        Upgrade::Refused { response, error } => (response, error),
        Upgrade::Accepted { .. } => panic!("accepted"),
    }
}

#[test]
fn websocket_upgrade_answers_the_key() {
    let request = "GET /rmbt HTTP/1.1\r\nHost: x\r\nUPGRADE: WebSocket\r\nConnection: Upgrade\r\n\
                   sec-websocket-KEY:  dGhlIHNhbXBsZSBub25jZQ== \r\n\r\n";
    let (stream, response) = accepted(detect_and_upgrade(request.as_bytes()));
    assert_eq!(stream, Stream::WebSocket);
    assert_eq!(
        response,
        "HTTP/1.1 101 Switching Protocols\r\nConnection: Upgrade\r\nUpgrade: websocket\r\n\
         Sec-WebSocket-Accept: s3pPLMBiTxaQ9kYGzzhZRbK+xOo=\r\n\r\n"
    );
    assert_eq!(find_key(request).as_deref(), Some("dGhlIHNhbXBsZSBub25jZQ=="));
    assert_eq!(websocket_accept("dGhlIHNhbXBsZSBub25jZQ=="), "s3pPLMBiTxaQ9kYGzzhZRbK+xOo=");
    assert!(handshake_response("x").ends_with("Sec-WebSocket-Accept: x\r\n\r\n"));
}

#[test]
fn websocket_upgrade_needs_a_key() {
    let request = b"GET / HTTP/1.1\r\nUpgrade: websocket\r\n\r\n";
    assert_eq!(refused(detect_and_upgrade(request)), (None, UpgradeError::MissingKey));
}

#[test]
fn websocket_takes_precedence() {
    let request = "GET / HTTP/1.1\r\nUpgrade: RMBT\r\nUpgrade: websocket\r\n\
                   Sec-WebSocket-Key: a\r\n\r\n";
    assert_eq!(accepted(answer_request(request)).0, Stream::WebSocket);
}

#[test]
fn rmbt_upgrade_goes_on_raw() {
    // what is not UTF-8 does no harm
    let request = b"GET /\xff HTTP/1.1\r\nUpgrade: RMBT\r\n\r\n";
    assert_eq!(
        accepted(detect_and_upgrade(request)),
        (
            Stream::Raw,
            "HTTP/1.1 101 Switching Protocols\r\nConnection: Upgrade\r\nUpgrade: RMBT\r\n\r\n"
                .to_string()
        )
    );
}

#[test]
fn other_methods_are_not_allowed() {
    let request = b"POST / HTTP/1.1\r\nUpgrade: RMBT\r\n\r\n";
    assert_eq!(
        refused(detect_and_upgrade(request)),
        (
            Some(
                "HTTP/1.1 405 Method Not Allowed\r\nConnection: close\r\nContent-Length: 0\r\n\r\n"
                    .to_string()
            ),
            UpgradeError::ExpectedGet
        )
    );
    assert_eq!(refused(answer_request("get / HTTP/1.1\r\n\r\n")).1, UpgradeError::ExpectedGet);
}

#[test]
fn browsers_get_a_page() {
    let (response, error) = refused(answer_request("GET / HTTP/1.1\r\nHost: x\r\n\r\n"));
    assert_eq!(error, UpgradeError::NoUpgrade);
    assert_eq!(
        response.unwrap(),
        "HTTP/1.1 426 Upgrade Required\r\nConnection: close\r\nUpgrade: RMBT, websocket\r\n\
         Content-Type: text/plain\r\nContent-Length: 36\r\n\r\n\
         RMBT measurement server - RMBTv1.3.5"
    );
}
