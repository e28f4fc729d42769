//! A connection as the protocol sees it: lines and data, sent as raw bytes or as WebSocket
//! messages.

pub mod laws;
pub mod upgrade;
pub mod upgrade_laws;

use vstd::prelude::*;
use vstd::slice::slice_to_vec;
use vstd::utf8::{decode_utf8, encode_utf8, valid_utf8};
use crate::config::constants::{CHUNK_SIZE, MAX_LINE_LENGTH};
use crate::text::{self, lossy_text, stripped_last, trimmed_end_char};

verus! {

/// How a connection carries the protocol after the HTTP upgrade.
#[derive(Clone, Copy, Debug, PartialEq, Eq, Structural)]
pub enum Stream {
    /// Lines sent as raw bytes over TCP or TLS.
    Raw,
    /// Lines sent as text and binary messages of a WebSocket over TCP or TLS.
    WebSocket,
}

/// Why nothing can be read from a connection.
#[derive(Clone, Copy, Debug, PartialEq, Eq, Structural)]
pub enum StreamError {
    /// The connection was closed.
    ConnectionClosed,
    /// A line is longer than `MAX_LINE_LENGTH` bytes.
    LineTooLong,
    /// The WebSocket was closed.
    WsClose,
}

/// A message of a WebSocket.
pub enum Message {
    Text(String),
    Binary(Vec<u8>),
    Close,
    /// A ping, a pong or a bare frame.
    Control,
}

/// What a `Message` says.
pub enum MessageView {
    Text(Seq<char>),
    Binary(Seq<u8>),
    Close,
    Control,
}

impl View for Message {
    type V = MessageView;

    open spec fn view(&self) -> MessageView {
        match self {
            Message::Text(t) => MessageView::Text(t@),
            Message::Binary(b) => MessageView::Binary(b@),
            Message::Close => MessageView::Close,
            Message::Control => MessageView::Control,
        }
    }
}

/// What was read from a connection.
pub enum Incoming {
    /// Text up to a line feed or the end of a raw stream. It is empty at the end.
    Line(String),
    /// A message of a WebSocket.
    Frame(Message),
}

/// What an `Incoming` says.
pub enum IncomingView {
    Line(Seq<char>),
    Frame(MessageView),
}

impl View for Incoming {
    type V = IncomingView;

    open spec fn view(&self) -> IncomingView {
        match self {
            Incoming::Line(t) => IncomingView::Line(t@),
            Incoming::Frame(m) => IncomingView::Frame(m@),
        }
    }
}

/// What to write to a connection.
pub enum Outgoing {
    /// Raw bytes.
    Bytes(Vec<u8>),
    /// A message of a WebSocket.
    Frame(Message),
}

/// What an `Outgoing` says.
#[verifier::ext_equal]
pub enum OutgoingView {
    Bytes(Seq<u8>),
    Frame(MessageView),
}

impl View for Outgoing {
    type V = OutgoingView;

    open spec fn view(&self) -> OutgoingView {
        match self {
            Outgoing::Bytes(b) => OutgoingView::Bytes(b@),
            Outgoing::Frame(m) => OutgoingView::Frame(m@),
        }
    }
}

// ── Reading lines ───────────────────────────────────────────────────────────────
/// What came of an attempt to read a line: the line, nothing yet, or an error.
pub open spec fn line_view(r: Result<Option<String>, StreamError>) -> Result<
    Option<Seq<char>>,
    StreamError,
> {
    match r {
        Ok(l) => Ok(crate::config::text_option(l)),
        Err(e) => Err(e),
    }
}

/// The text of a line is not too long. A line feed at its end counts.
pub open spec fn fits(t: Seq<char>) -> bool {
    encode_utf8(t).len() <= MAX_LINE_LENGTH
}

/// `t` without one line feed and then one carriage return at its end.
pub open spec fn stripped(t: Seq<char>) -> Seq<char> {
    text::strip_last(text::strip_last(t, '\n'), '\r')
}

/// `t` as a line, without its line end.
pub open spec fn line_of(t: Seq<char>) -> Result<Option<Seq<char>>, StreamError> {
    if fits(t) {
        Ok(Some(stripped(t)))
    } else {
        Err(StreamError::LineTooLong)
    }
}

/// The line that something read from a connection holds. Control messages hold none.
pub open spec fn line_in(incoming: IncomingView) -> Result<Option<Seq<char>>, StreamError> {
    match incoming {
        IncomingView::Line(t) => if t.len() == 0 {
            Err(StreamError::ConnectionClosed)
        } else {
            line_of(t)
        },
        IncomingView::Frame(MessageView::Text(t)) => if fits(t) {
            Ok(Some(text::trim_end_char(text::trim_end_char(t, '\n'), '\r')))
        } else {
            Err(StreamError::LineTooLong)
        },
        IncomingView::Frame(MessageView::Binary(b)) => if b.len() <= MAX_LINE_LENGTH {
            Ok(Some(stripped(text::utf8_lossy(b))))
        } else {
            Err(StreamError::LineTooLong)
        },
        IncomingView::Frame(MessageView::Close) => Err(StreamError::WsClose),
        IncomingView::Frame(MessageView::Control) => Ok(None),
    }
}

/// Strips one line feed and then one carriage return from the end of a line.
pub fn strip_line(t: &str) -> (r: String)
    ensures
        r@ == stripped(t@),
{
    stripped_last(stripped_last(t, '\n'), '\r').to_owned()
}

/// Checks the length of a line and strips its end.
pub fn finish_line(t: &str) -> (r: Result<Option<String>, StreamError>)
    ensures
        line_view(r) == line_of(t@),
{
    if t.as_bytes().len() > MAX_LINE_LENGTH {
        Err(StreamError::LineTooLong)
    } else {
        Ok(Some(strip_line(t)))
    }
}

// ── Data of messages ────────────────────────────────────────────────────────────
/// The data that a message holds.
pub open spec fn data_in(m: MessageView) -> Option<Seq<u8>> {
    match m {
        MessageView::Text(t) => Some(encode_utf8(t)),
        MessageView::Binary(b) => Some(b),
        _ => None,
    }
}

/// How many of `count` bytes have room in `room` bytes.
pub open spec fn room_for(count: nat, room: nat) -> nat {
    if count <= room {
        count
    } else {
        room
    }
}

/// `buf` with as much of `data` as has room from position `at` on.
pub open spec fn filled_from(buf: Seq<u8>, at: int, data: Seq<u8>) -> Seq<u8> {
    let n = room_for(data.len(), (buf.len() - at) as nat) as int;
    buf.take(at) + data.take(n) + buf.skip(at + n)
}

fn copy_into(buf: &mut [u8], at: usize, data: &[u8]) -> (n: usize)
    requires
        at <= old(buf)@.len(),
    ensures
        final(buf)@ == filled_from(old(buf)@, at as int, data@),
        n == room_for(data@.len(), (old(buf)@.len() - at) as nat),
        at + n <= usize::MAX,
{
    let ghost before = buf@;
    let room: usize = buf.len() - at;
    let n: usize = if data.len() <= room {
        data.len()
    } else {
        room
    };
    assert(buf@ == buf@.take(at as int) + data@.take(0) + buf@.skip(at as int));
    let mut i: usize = 0;
    while i < n
        invariant
            i <= n,
            n <= data@.len(),
            at + n <= before.len(),
            buf@.len() == before.len(),
            before.len() <= usize::MAX,
            buf@ == before.take(at as int) + data@.take(i as int) + before.skip(at + i),
        decreases n - i,
    {
        buf[at + i] = data[i];
        i += 1;
    }
    n
}

// ── Writing ─────────────────────────────────────────────────────────────────────
/// Data of this length goes out as a binary message: chunks, and what is too short for a
/// line.
pub open spec fn goes_binary(len: nat) -> bool {
    len < 2 || len > CHUNK_SIZE - 3
}

/// How data goes out.
pub open spec fn framed(stream: Stream, data: Seq<u8>) -> OutgoingView {
    match stream {
        Stream::Raw => OutgoingView::Bytes(data),
        Stream::WebSocket => OutgoingView::Frame(
            if goes_binary(data.len()) {
                MessageView::Binary(data)
            } else {
                MessageView::Text(text::utf8_lossy(data))
            },
        ),
    }
}

/// How a line goes out.
pub open spec fn framed_line(stream: Stream, line: Seq<char>) -> OutgoingView {
    let data = encode_utf8(line);
    match stream {
        Stream::Raw => OutgoingView::Bytes(data),
        Stream::WebSocket => OutgoingView::Frame(
            if goes_binary(data.len()) {
                MessageView::Binary(data)
            } else {
                MessageView::Text(line)
            },
        ),
    }
}

impl Stream {
    /// Takes one newline-terminated protocol line (newline is stripped) from what was read.
    /// Yields an error on the end of the connection or if the line exceeds
    /// `MAX_LINE_LENGTH`, and nothing when another message has to be read.
    pub fn read_line(incoming: Incoming) -> (r: Result<Option<String>, StreamError>)
        ensures
            line_view(r) == line_in(incoming@),
            incoming@ matches IncomingView::Frame(MessageView::Binary(b)) ==> valid_utf8(b)
                ==> line_view(r) == line_of(decode_utf8(b)),
    {
        match incoming {
            Incoming::Line(t) => if t.as_str().is_empty() {
                Err(StreamError::ConnectionClosed)
            } else {
                finish_line(t.as_str())
            },
            Incoming::Frame(Message::Text(t)) => if t.as_str().as_bytes().len() > MAX_LINE_LENGTH {
                Err(StreamError::LineTooLong)
            } else {
                Ok(Some(trimmed_end_char(trimmed_end_char(t.as_str(), '\n'), '\r').to_owned()))
            },
            Incoming::Frame(Message::Binary(b)) => {
                proof {
                    if valid_utf8(b@) {
                        vstd::utf8::decode_utf8_encode_utf8(b@);
                    }
                }
                if b.len() > MAX_LINE_LENGTH {
                    Err(StreamError::LineTooLong)
                } else {
                    let t = lossy_text(b.as_slice());
                    Ok(Some(strip_line(t.as_str())))
                }
            },
            Incoming::Frame(Message::Close) => Err(StreamError::WsClose),
            Incoming::Frame(Message::Control) => Ok(None),
        }
    }

    /// How to write `data`: for a WebSocket a binary message for chunk data and a text
    /// message for short protocol lines.
    pub fn write_all(&self, data: &[u8]) -> (r: Outgoing)
        ensures
            r@ == framed(*self, data@),
            valid_utf8(data@) ==> r@ == framed_line(*self, decode_utf8(data@)),
    {
        proof {
            if valid_utf8(data@) {
                vstd::utf8::decode_utf8_encode_utf8(data@);
            }
        }
        match self {
            Stream::Raw => Outgoing::Bytes(slice_to_vec(data)),
            Stream::WebSocket => if data.len() < 2 || data.len() > CHUNK_SIZE - 3 {
                Outgoing::Frame(Message::Binary(slice_to_vec(data)))
            } else {
                Outgoing::Frame(Message::Text(lossy_text(data)))
            },
        }
    }

    /// How to write a protocol line.
    pub fn write_line(&self, s: &str) -> (r: Outgoing)
        ensures
            r@ == framed_line(*self, s@),
    {
        proof {
            vstd::utf8::encode_utf8_valid_utf8(s@);
            vstd::utf8::encode_utf8_decode_utf8(s@);
        }
        self.write_all(s.as_bytes())
    }

    /// Copies the data of a message into `buf`, of which `filled` bytes are filled already,
    /// and yields how many are now. To fill the buffer, messages are read until all of it is
    /// filled; what has no room is dropped. A control message holds no data.
    pub fn read_exact(buf: &mut [u8], filled: usize, message: &Message) -> (r: Result<
        usize,
        StreamError,
    >)
        requires
            filled <= old(buf)@.len(),
        ensures
            match data_in(message@) {
                Some(data) => {
                    &&& final(buf)@ == filled_from(old(buf)@, filled as int, data)
                    &&& r == Ok::<usize, StreamError>(
                        (filled + room_for(data.len(), (old(buf)@.len() - filled) as nat)) as usize,
                    )
                },
                None => {
                    &&& final(buf)@ == old(buf)@
                    &&& r == if message@ is Close {
                        Err(StreamError::WsClose)
                    } else {
                        Ok::<usize, StreamError>(filled)
                    }
                },
            },
    {
        match message {
            Message::Text(t) => {
                let n: usize = copy_into(buf, filled, t.as_str().as_bytes());
                Ok(filled + n)
            },
            Message::Binary(b) => {
                let n: usize = copy_into(buf, filled, b.as_slice());
                Ok(filled + n)
            },
            Message::Close => Err(StreamError::WsClose),
            Message::Control => Ok(filled),
        }
    }

    /// Copies the data of a message into `buf` and yields how many bytes that are: none when
    /// the WebSocket was closed. A control message yields nothing, and another message has to
    /// be read. What has no room is dropped.
    pub fn read(buf: &mut [u8], message: &Message) -> (r: Option<usize>)
        ensures
            match data_in(message@) {
                Some(data) => {
                    &&& final(buf)@ == filled_from(old(buf)@, 0, data)
                    &&& r == Some(room_for(data.len(), old(buf)@.len()) as usize)
                },
                None => {
                    &&& final(buf)@ == old(buf)@
                    &&& r == if message@ is Close {
                        Some(0usize)
                    } else {
                        None
                    }
                },
            },
    {
        match message {
            Message::Text(t) => Some(copy_into(buf, 0, t.as_str().as_bytes())),
            Message::Binary(b) => Some(copy_into(buf, 0, b.as_slice())),
            Message::Close => Some(0),
            Message::Control => None,
        }
    }

    /// How much room to read upload data into, when `size` bytes are asked for. A message of
    /// a WebSocket comes as a whole, so there has to be room for a chunk.
    pub fn upload_room(&self, size: usize, chunk_size: usize) -> (r: usize)
        ensures
            r == match self {
                Stream::Raw => size,
                Stream::WebSocket => chunk_size,
            },
    {
        match self {
            Stream::Raw => size,
            Stream::WebSocket => chunk_size,
        }
    }

    /// The name of the framing in logs.
    pub fn kind_name(&self) -> (r: &'static str)
        ensures
            r@ == match self {
                Stream::Raw => "raw"@,
                Stream::WebSocket => "websocket"@,
            },
    {
        match self {
            Stream::Raw => "raw",
            Stream::WebSocket => "websocket",
        }
    }
}

// ── Upload data ─────────────────────────────────────────────────────────────────
/// Upload data that was read, and how much of it has been handed on.
pub struct Backlog {
    pub data: Vec<u8>,
    pub taken: usize,
}

impl Backlog {
    /// No more has been handed on than was read.
    pub open spec fn wf(self) -> bool {
        self.taken <= self.data@.len()
    }

    /// What has not been handed on yet.
    pub open spec fn rest(self) -> Seq<u8> {
        self.data@.skip(self.taken as int)
    }

    /// Nothing has been read.
    pub fn new() -> (r: Backlog)
        ensures
            r.wf(),
            r.rest() == Seq::<u8>::empty(),
    {
        let r = Backlog { data: Vec::new(), taken: 0 };
        assert(r.rest() == Seq::<u8>::empty());
        r
    }

    /// Tells whether everything has been handed on.
    pub fn is_empty(&self) -> (r: bool)
        requires
            self.wf(),
        ensures
            r == (self.rest().len() == 0),
    {
        self.taken == self.data.len()
    }

    /// Takes in data that was read, in place of what is left.
    pub fn put(&mut self, data: &[u8])
        ensures
            final(self).wf(),
            final(self).rest() == data@,
    {
        self.data = slice_to_vec(data);
        self.taken = 0;
        assert(self.rest() == data@);
    }

    /// Hands on a piece of at most `size` bytes: yields its length and its last byte, which is
    /// 0 when the piece is empty.
    pub fn take(&mut self, size: usize) -> (r: (usize, u8))
        requires
            old(self).wf(),
        ensures
            final(self).wf(),
            r.0 == room_for(old(self).rest().len(), size as nat),
            r.1 == if r.0 > 0 {
                old(self).rest()[r.0 - 1]
            } else {
                0u8
            },
            final(self).rest() == old(self).rest().skip(r.0 as int),
    {
        let left: usize = self.data.len() - self.taken;
        let count: usize = if left <= size {
            left
        } else {
            size
        };
        let last_byte: u8 = if count > 0 {
            self.data[self.taken + count - 1]
        } else {
            0
        };
        self.taken = self.taken + count;
        assert(self.rest() == old(self).rest().skip(count as int));
        (count, last_byte)
    }
}

} // verus!
