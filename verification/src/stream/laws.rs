//! What holds of reading and writing together.

use vstd::prelude::*;
use vstd::utf8::{decode_utf8, encode_utf8};
use crate::config::constants::{self, MAX_LINE_LENGTH, MIN_CHUNK_SIZE};
use crate::stream::{self, IncomingView, MessageView, OutgoingView, Stream, StreamError};
use crate::text;
use crate::text_laws::{law_strip_last, law_trim_end_char};

verus! {

/// What the other side reads when this goes out.
pub open spec fn delivered(out: OutgoingView) -> IncomingView {
    match out {
        OutgoingView::Bytes(b) => IncomingView::Line(decode_utf8(b)),
        OutgoingView::Frame(m) => IncomingView::Frame(m),
    }
}

proof fn lemma_encoded_len(s: Seq<char>)
    ensures
        encode_utf8(s).len() >= s.len(),
    decreases s.len(),
{
    if s.len() > 0 {
        lemma_encoded_len(s.drop_first());
    }
}

/// A line that is written, with a line feed at its end, is read back on either kind of
/// connection, if it is not too long and does not itself end in a line end.
pub proof fn law_lines_are_read_back(kind: Stream, line: Seq<char>)
    requires
        line.len() > 0,
        line.last() != '\n',
        line.last() != '\r',
        stream::fits(line.push('\n')),
    ensures
        stream::line_in(delivered(stream::framed_line(kind, line.push('\n')))) == Ok::<
            Option<Seq<char>>,
            stream::StreamError,
        >(Some(line)),
{
    let full = line.push('\n');
    vstd::utf8::encode_utf8_decode_utf8(full);
    lemma_encoded_len(full);
    assert(full.drop_last() == line);
    assert(text::trim_end_char(full, '\n') == text::trim_end_char(line, '\n'));
}

/// Chunks go out unchanged on either kind of connection: on a WebSocket as binary messages.
pub proof fn law_chunks_go_out_unchanged(
    kind: Stream,
    random: Seq<u8>,
    size: int,
    terminal: bool,
)
    requires
        MIN_CHUNK_SIZE <= size <= random.len(),
    ensures
        ({
            let chunk = constants::chunk(random, size, terminal);
            stream::framed(kind, chunk) == match kind {
                Stream::Raw => OutgoingView::Bytes(chunk),
                Stream::WebSocket => OutgoingView::Frame(MessageView::Binary(chunk)),
            }
        }),
{
}

/// The byte strings `parts` one after the other.
pub open spec fn flat(parts: Seq<Seq<u8>>) -> Seq<u8>
    decreases parts.len(),
{
    if parts.len() == 0 {
        seq![]
    } else {
        flat(parts.drop_last()) + parts.last()
    }
}

/// A buffer, and how much of it is filled, after the data `parts` was copied into it.
pub open spec fn absorbed(buf: Seq<u8>, parts: Seq<Seq<u8>>) -> (Seq<u8>, nat)
    decreases parts.len(),
{
    if parts.len() == 0 {
        (buf, 0)
    } else {
        let (b, filled) = absorbed(buf, parts.drop_last());
        (
            stream::filled_from(b, filled as int, parts.last()),
            filled + stream::room_for(parts.last().len(), (b.len() - filled) as nat),
        )
    }
}

/// Messages that are read into a buffer are reassembled there: the buffer holds the beginning
/// of their data one after the other, all of it as long as it has room, and is otherwise
/// unchanged.
pub proof fn law_messages_are_reassembled(buf: Seq<u8>, parts: Seq<Seq<u8>>)
    ensures
        ({
            let (b, filled) = absorbed(buf, parts);
            &&& filled == stream::room_for(flat(parts).len(), buf.len())
            &&& b == flat(parts).take(filled as int) + buf.skip(filled as int)
        }),
    decreases parts.len(),
{
    if parts.len() == 0 {
        assert(flat(parts).take(0) + buf.skip(0) == buf);
    } else {
        let rest = parts.drop_last();
        let last = parts.last();
        law_messages_are_reassembled(buf, rest);
        let (b0, f0) = absorbed(buf, rest);
        let (b, filled) = absorbed(buf, parts);
        assert(b0.len() == buf.len());
        let n = stream::room_for(last.len(), (b0.len() - f0) as nat) as int;
        assert(b0.take(f0 as int) == flat(rest).take(f0 as int));
        assert(b0.skip(f0 + n) == buf.skip(f0 + n));
        if f0 == flat(rest).len() {
            assert(flat(rest).take(f0 as int) == flat(rest));
            assert(flat(rest) + last.take(n) == flat(parts).take(f0 + n));
        } else {
            assert(n == 0);
            assert(flat(rest).take(f0 as int) + last.take(n) == flat(parts).take(f0 as int));
        }
    }
}

// ── Line ends and lengths ───────────────────────────────────────────────────────
/// A line of a raw stream, or in a binary message, loses one line feed and then one carriage
/// return at its end, and nothing else.
pub proof fn law_one_line_end_is_stripped(line: Seq<char>)
    requires
        line.len() > 0,
        line.last() != '\n',
        line.last() != '\r',
        encode_utf8(line).len() <= MAX_LINE_LENGTH,
        encode_utf8(line + seq!['\n']).len() <= MAX_LINE_LENGTH,
        encode_utf8(line + seq!['\r', '\n']).len() <= MAX_LINE_LENGTH,
        encode_utf8(line + seq!['\n', '\n']).len() <= MAX_LINE_LENGTH,
    ensures
        forall|t: Seq<char>|
            t == line || t == line + seq!['\n'] || t == line + seq!['\r', '\n'] ==> {
                &&& #[trigger] stream::line_of(t) == Ok::<Option<Seq<char>>, StreamError>(
                    Some(line),
                )
                &&& stream::line_in(IncomingView::Line(t)) == Ok::<Option<Seq<char>>, StreamError>(
                    Some(line),
                )
            },
        stream::line_of(line + seq!['\n', '\n']) == Ok::<Option<Seq<char>>, StreamError>(
            Some(line + seq!['\n']),
        ),
{
    assert(line + seq!['\n'] == line.push('\n'));
    assert(line + seq!['\r', '\n'] == line.push('\r').push('\n'));
    assert(line + seq!['\n', '\n'] == line.push('\n').push('\n'));
    law_strip_last(line, '\n');
    law_strip_last(line, '\r');
    law_strip_last(line.push('\r'), '\n');
    law_strip_last(line.push('\n'), '\n');
    law_strip_last(line.push('\n'), '\r');
}

/// A text message loses all line feeds and then all carriage return characters at its end, and nothing
/// else.
pub proof fn law_text_message_line_ends_are_stripped(
    line: Seq<char>,
    crs: Seq<char>,
    lfs: Seq<char>,
)
    requires
        line.len() > 0 ==> line.last() != '\n' && line.last() != '\r',
        forall|i: int| 0 <= i < crs.len() ==> #[trigger] crs[i] == '\r',
        forall|i: int| 0 <= i < lfs.len() ==> #[trigger] lfs[i] == '\n',
        encode_utf8(line + crs + lfs).len() <= MAX_LINE_LENGTH,
    ensures
        stream::line_in(IncomingView::Frame(MessageView::Text(line + crs + lfs))) == Ok::<
            Option<Seq<char>>,
            StreamError,
        >(Some(line)),
{
    let t = line + crs;
    if t.len() > 0 {
        if crs.len() > 0 {
            assert(t[t.len() - 1] == crs[crs.len() - 1]);
        } else {
            assert(t == line);
        }
    }
    law_trim_end_char(t, lfs, '\n');
    law_trim_end_char(line, crs, '\r');
}

/// A line of more than 1024 bytes is an error, however it comes. So is the end of a raw
/// stream, and the end of a WebSocket. Control messages hold no line.
pub proof fn law_what_is_no_line(t: Seq<char>, b: Seq<u8>)
    requires
        encode_utf8(t).len() > 1024,
        b.len() > 1024,
    ensures
        stream::line_in(IncomingView::Line(t)) == Err::<Option<Seq<char>>, StreamError>(
            StreamError::LineTooLong,
        ),
        stream::line_in(IncomingView::Frame(MessageView::Text(t))) == Err::<
            Option<Seq<char>>,
            StreamError,
        >(StreamError::LineTooLong),
        stream::line_in(IncomingView::Frame(MessageView::Binary(b))) == Err::<
            Option<Seq<char>>,
            StreamError,
        >(StreamError::LineTooLong),
        stream::line_in(IncomingView::Line(Seq::<char>::empty())) == Err::<
            Option<Seq<char>>,
            StreamError,
        >(StreamError::ConnectionClosed),
        stream::line_in(IncomingView::Frame(MessageView::Close)) == Err::<
            Option<Seq<char>>,
            StreamError,
        >(StreamError::WsClose),
        stream::line_in(IncomingView::Frame(MessageView::Control)) == Ok::<
            Option<Seq<char>>,
            StreamError,
        >(None),
{
    if t.len() == 0 {
        assert(encode_utf8(t).len() == 0);
    }
}

// ── Data ────────────────────────────────────────────────────────────────────────
/// Raw data goes out byte for byte. On a WebSocket, data of 2 to 4093 bytes goes out as text,
/// and other data as the bytes themselves.
pub proof fn law_data_goes_out_whole(data: Seq<u8>, line: Seq<char>)
    ensures
        stream::framed(Stream::Raw, data) == OutgoingView::Bytes(data),
        stream::framed_line(Stream::Raw, line) == OutgoingView::Bytes(encode_utf8(line)),
        stream::framed(Stream::WebSocket, data) == OutgoingView::Frame(
            if 2 <= data.len() <= 4093 {
                MessageView::Text(text::utf8_lossy(data))
            } else {
                MessageView::Binary(data)
            },
        ),
        stream::framed_line(Stream::WebSocket, line) == OutgoingView::Frame(
            if 2 <= encode_utf8(line).len() <= 4093 {
                MessageView::Text(line)
            } else {
                MessageView::Binary(encode_utf8(line))
            },
        ),
{
}

/// Copying data into a buffer puts each byte that has room at its place and touches no other.
pub proof fn law_data_is_copied_in_place(buf: Seq<u8>, at: int, data: Seq<u8>, i: int)
    requires
        0 <= at <= buf.len(),
        0 <= i < buf.len(),
    ensures
        stream::filled_from(buf, at, data).len() == buf.len(),
        stream::filled_from(buf, at, data)[i] == if at <= i < at + data.len() {
            data[i - at]
        } else {
            buf[i]
        },
        stream::room_for(data.len(), (buf.len() - at) as nat) <= data.len(),
        at + stream::room_for(data.len(), (buf.len() - at) as nat) <= buf.len(),
        stream::room_for(data.len(), (buf.len() - at) as nat) == data.len() || at
            + stream::room_for(data.len(), (buf.len() - at) as nat) == buf.len(),
{
}

/// The data of a text message is its UTF-8 form, that of a binary message its bytes; other
/// messages hold none.
pub proof fn law_messages_hold_their_data(t: Seq<char>, b: Seq<u8>)
    ensures
        stream::data_in(MessageView::Text(t)) == Some(encode_utf8(t)),
        stream::data_in(MessageView::Binary(b)) == Some(b),
        stream::data_in(MessageView::Close) is None,
        stream::data_in(MessageView::Control) is None,
{
}

/// A binary message of up to 1024 bytes holds the line that its text is, without its one line
/// end.
pub proof fn law_binary_message_holds_a_line(b: Seq<u8>, line: Seq<char>)
    requires
        b.len() <= 1024,
        line.len() > 0,
        line.last() != '\n',
        line.last() != '\r',
        text::utf8_lossy(b) == line || text::utf8_lossy(b) == line + seq!['\n']
            || text::utf8_lossy(b) == line + seq!['\r', '\n'],
    ensures
        stream::line_in(IncomingView::Frame(MessageView::Binary(b))) == Ok::<
            Option<Seq<char>>,
            StreamError,
        >(Some(line)),
{
    assert(line + seq!['\n'] == line.push('\n'));
    assert(line + seq!['\r', '\n'] == line.push('\r').push('\n'));
    law_strip_last(line, '\n');
    law_strip_last(line, '\r');
    law_strip_last(line.push('\r'), '\n');
}

/// Stripping a line end takes one line feed and then one carriage return away, of a line of
/// any length.
pub proof fn law_line_end(line: Seq<char>)
    ensures
        line.len() > 0 && line.last() != '\n' && line.last() != '\r' ==> stream::stripped(line)
            == line,
        line.len() > 0 && line.last() != '\r' ==> stream::stripped(line.push('\n')) == line,
        stream::stripped(line.push('\r').push('\n')) == line,
        stream::stripped(line.push('\r')) == line,
        stream::stripped(line.push('\n').push('\n')) == line.push('\n'),
        stream::stripped(Seq::<char>::empty()) == Seq::<char>::empty(),
{
    law_strip_last(line, '\n');
    law_strip_last(line, '\r');
    law_strip_last(line.push('\r'), '\n');
    law_strip_last(line.push('\n'), '\n');
    law_strip_last(line.push('\n'), '\r');
    law_strip_last(Seq::<char>::empty(), '\n');
    law_strip_last(Seq::<char>::empty(), '\r');
}

} // verus!
