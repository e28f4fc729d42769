//! The HTTP upgrade that begins every connection: to a WebSocket, or to the plain RMBT
//! protocol.

use vstd::prelude::*;
use vstd::utf8::encode_utf8;
use crate::config::constants::GREETING;
use crate::crypto::{self, base64_encode, sha1_digest};
use crate::number::{self, push_dec};
use crate::stream::Stream;
use crate::text::{
    self, appended, cut_once, has_prefix, lossy_text, lower_contains, lower_has_prefix, split_lines,
    trimmed,
};

verus! {

// ── The head of a request ───────────────────────────────────────────────────────
/// The longest head of a request that is read on before its end has come, in bytes.
pub const MAX_HEAD_LENGTH: usize = 8192;

/// What to do after one more byte of a request.
#[derive(Clone, Copy, Debug, PartialEq, Eq, Structural)]
pub enum HeadStep {
    /// Read another byte.
    More,
    /// The head is complete.
    Complete,
    /// Give up: the head is too large.
    TooLarge,
}

/// The bytes end with the blank line that ends the head of a request.
pub open spec fn ends_head(b: Seq<u8>) -> bool {
    b.len() >= 4 && b.skip(b.len() - 4) == seq![13u8, 10u8, 13u8, 10u8]
}

/// What to do when these bytes have been read.
pub open spec fn head_step(b: Seq<u8>) -> HeadStep {
    if ends_head(b) {
        HeadStep::Complete
    } else if b.len() > MAX_HEAD_LENGTH {
        HeadStep::TooLarge
    } else {
        HeadStep::More
    }
}

/// The head of a request, as far as it has been read.
pub struct RequestHead {
    pub bytes: Vec<u8>,
}

impl RequestHead {
    /// Nothing has been read yet.
    pub fn new() -> (r: RequestHead)
        ensures
            r.bytes@ == Seq::<u8>::empty(),
    {
        RequestHead { bytes: Vec::new() }
    }

    /// Takes one more byte.
    pub fn push(&mut self, byte: u8) -> (r: HeadStep)
        ensures
            final(self).bytes@ == old(self).bytes@.push(byte),
            r == head_step(final(self).bytes@),
    {
        self.bytes.push(byte);
        let n: usize = self.bytes.len();
        if n >= 4 && self.bytes[n - 4] == 13 && self.bytes[n - 3] == 10 && self.bytes[n - 2] == 13
            && self.bytes[n - 1] == 10 {
            assert(self.bytes@.skip(n - 4) == seq![13u8, 10u8, 13u8, 10u8]);
            HeadStep::Complete
        } else {
            proof {
                if ends_head(self.bytes@) {
                    let tail = self.bytes@.skip(n - 4);
                    assert(tail[0] == 13 && tail[1] == 10 && tail[2] == 13 && tail[3] == 10);
                }
            }
            if n > MAX_HEAD_LENGTH {
                HeadStep::TooLarge
            } else {
                HeadStep::More
            }
        }
    }
}

// ── Answers ─────────────────────────────────────────────────────────────────────
/// The answer to an upgrade to the plain RMBT protocol, without WebSocket framing.
pub const RMBT_UPGRADE_RESPONSE: &'static str =
    "HTTP/1.1 101 Switching Protocols\r\nConnection: Upgrade\r\nUpgrade: RMBT\r\n\r\n";

/// The answer to a request that is not a GET.
pub const NOT_GET_RESPONSE: &'static str =
    "HTTP/1.1 405 Method Not Allowed\r\nConnection: close\r\nContent-Length: 0\r\n\r\n";

/// The suffix of RFC 6455, section 1.3, that is appended to the key before it is hashed.
pub const WS_GUID: &'static str = "258EAFA5-E914-47DA-95CA-C5AB0DC85B11";

/// The header that holds the key of a WebSocket handshake, in lower case.
pub const KEY_HEADER: &'static str = "sec-websocket-key:";

/// Why a connection is not upgraded.
#[derive(Clone, Copy, Debug, PartialEq, Eq, Structural)]
pub enum UpgradeError {
    /// The request is not a GET.
    ExpectedGet,
    /// A WebSocket handshake has no key.
    MissingKey,
    /// The request asks neither for a WebSocket nor for RMBT.
    NoUpgrade,
}

/// What comes of a request.
pub enum Upgrade {
    /// The connection goes on as `stream` after the response.
    Accepted { stream: Stream, response: String },
    /// The connection ends after the response, if there is one.
    Refused { response: Option<String>, error: UpgradeError },
}

/// What an `Upgrade` says.
pub enum UpgradeView {
    Accepted { stream: Stream, response: Seq<char> },
    Refused { response: Option<Seq<char>>, error: UpgradeError },
}

impl View for Upgrade {
    type V = UpgradeView;

    open spec fn view(&self) -> UpgradeView {
        match self {
            Upgrade::Accepted { stream, response } => UpgradeView::Accepted {
                stream: *stream,
                response: response@,
            },
            Upgrade::Refused { response, error } => UpgradeView::Refused {
                response: crate::config::text_option(*response),
                error: *error,
            },
        }
    }
}

/// The page for a browser or health check without an upgrade.
pub open spec fn page() -> Seq<char> {
    "RMBT measurement server - "@ + text::trim(GREETING@)
}

/// The answer to a request without an upgrade.
pub open spec fn page_response() -> Seq<char> {
    "HTTP/1.1 426 Upgrade Required\r\nConnection: close\r\nUpgrade: RMBT, websocket\r\nContent-Type: text/plain\r\nContent-Length: "@
        + number::dec(encode_utf8(page()).len()) + "\r\n\r\n"@ + page()
}

fn page_answer() -> (r: String)
    ensures
        r@ == page_response(),
{
    let page = appended("RMBT measurement server - ", trimmed(GREETING));
    let mut out =
        "HTTP/1.1 426 Upgrade Required\r\nConnection: close\r\nUpgrade: RMBT, websocket\r\nContent-Type: text/plain\r\nContent-Length: ".to_owned();
    push_dec(&mut out, page.as_str().as_bytes().len() as u128);
    out.append("\r\n\r\n");
    out.append(page.as_str());
    out
}

// ── The WebSocket handshake ─────────────────────────────────────────────────────
/// The line is the header that holds the key.
pub open spec fn is_key_line(line: Seq<char>) -> bool {
    text::begins_with(text::ascii_lower(line), KEY_HEADER@)
}

/// What a header line says: what follows its colon, without the white space around it.
pub open spec fn header_value(line: Seq<char>) -> Option<Seq<char>> {
    match text::split_once(line, ":"@) {
        Some((name, value)) => Some(text::trim(value)),
        None => None,
    }
}

/// The key in the first line that holds one.
pub open spec fn key_in(lines: Seq<Seq<char>>) -> Option<Seq<char>>
    decreases lines.len(),
{
    if lines.len() == 0 {
        None
    } else if is_key_line(lines.first()) {
        header_value(lines.first())
    } else {
        key_in(lines.drop_first())
    }
}

/// The proof that the server has read the key: base64(SHA1(key + WS_GUID)).
pub open spec fn accept_of(key: Seq<char>) -> Seq<char> {
    crypto::base64_text(crypto::sha1_of(encode_utf8(key) + encode_utf8(WS_GUID@)))
}

/// The answer that opens a WebSocket.
pub open spec fn handshake_text(accept: Seq<char>) -> Seq<char> {
    "HTTP/1.1 101 Switching Protocols\r\nConnection: Upgrade\r\nUpgrade: websocket\r\nSec-WebSocket-Accept: "@
        + accept + "\r\n\r\n"@
}

/// Extracts the Sec-WebSocket-Key header value (case-insensitive search).
pub fn find_key(request: &str) -> (r: Option<String>)
    ensures
        crate::config::text_option(r) == key_in(text::lines(request@)),
{
    let lines = split_lines(request);
    let ghost all = text::texts(lines@);
    let mut i: usize = 0;
    assert(all.skip(0) == all);
    while i < lines.len()
        invariant
            all == text::texts(lines@),
            all == text::lines(request@),
            i <= lines@.len(),
            key_in(all) == key_in(all.skip(i as int)),
        decreases lines@.len() - i,
    {
        let line = lines[i].as_str();
        assert(all[i as int] == line@);
        assert(all.skip(i as int).first() == line@);
        assert(all.skip(i as int).drop_first() == all.skip(i + 1));
        if lower_has_prefix(line, KEY_HEADER) {
            return match cut_once(line, ":") {
                Some((_, value)) => Some(trimmed(value).to_owned()),
                None => None,
            };
        }
        i += 1;
    }
    assert(all.skip(all.len() as int) == Seq::<Seq<char>>::empty());
    None
}

/// Computes Sec-WebSocket-Accept for a key.
pub fn websocket_accept(key: &str) -> (r: String)
    ensures
        r@ == accept_of(key@),
{
    let mut data: Vec<u8> = Vec::new();
    data.extend_from_slice(key.as_bytes());
    data.extend_from_slice(WS_GUID.as_bytes());
    assert(data@ == encode_utf8(key@) + encode_utf8(WS_GUID@));
    let digest = sha1_digest(data.as_slice());
    base64_encode(digest.as_slice())
}

/// The answer that opens a WebSocket, for a computed Sec-WebSocket-Accept.
pub fn handshake_response(accept: &str) -> (r: String)
    ensures
        r@ == handshake_text(accept@),
{
    let mut out =
        "HTTP/1.1 101 Switching Protocols\r\nConnection: Upgrade\r\nUpgrade: websocket\r\nSec-WebSocket-Accept: ".to_owned();
    out.append(accept);
    out.append("\r\n\r\n");
    out
}

/// What comes of a request for a WebSocket.
pub open spec fn handshake(request: Seq<char>) -> UpgradeView {
    match key_in(text::lines(request)) {
        Some(key) => UpgradeView::Accepted {
            stream: Stream::WebSocket,
            response: handshake_text(accept_of(key)),
        },
        None => UpgradeView::Refused { response: None, error: UpgradeError::MissingKey },
    }
}

/// Completes the RFC 6455 WebSocket opening handshake.
pub fn websocket_handshake(request: &str) -> (r: Upgrade)
    ensures
        r@ == handshake(request@),
{
    match find_key(request) {
        Some(key) => {
            let accept = websocket_accept(key.as_str());
            Upgrade::Accepted {
                stream: Stream::WebSocket,
                response: handshake_response(accept.as_str()),
            }
        },
        None => Upgrade::Refused { response: None, error: UpgradeError::MissingKey },
    }
}

// ── Detection ───────────────────────────────────────────────────────────────────
/// The request asks for this protocol.
pub open spec fn asks_for(request: Seq<char>, header: Seq<char>) -> bool {
    text::find(text::ascii_lower(request), header) is Some
}

/// What comes of a request.
pub open spec fn upgrade_for(request: Seq<char>) -> UpgradeView {
    if !text::begins_with(request, "GET "@) {
        UpgradeView::Refused {
            response: Some(NOT_GET_RESPONSE@),
            error: UpgradeError::ExpectedGet,
        }
    } else if asks_for(request, "upgrade: websocket"@) {
        handshake(request)
    } else if asks_for(request, "upgrade: rmbt"@) {
        UpgradeView::Accepted { stream: Stream::Raw, response: RMBT_UPGRADE_RESPONSE@ }
    } else {
        UpgradeView::Refused { response: Some(page_response()), error: UpgradeError::NoUpgrade }
    }
}

/// Answers the text of a request head.
pub fn answer_request(request: &str) -> (r: Upgrade)
    ensures
        r@ == upgrade_for(request@),
{
    if !has_prefix(request, "GET ") {
        Upgrade::Refused {
            response: Some(NOT_GET_RESPONSE.to_owned()),
            error: UpgradeError::ExpectedGet,
        }
    } else if lower_contains(request, "upgrade: websocket") {
        websocket_handshake(request)
    } else if lower_contains(request, "upgrade: rmbt") {
        Upgrade::Accepted { stream: Stream::Raw, response: RMBT_UPGRADE_RESPONSE.to_owned() }
    } else {
        Upgrade::Refused { response: Some(page_answer()), error: UpgradeError::NoUpgrade }
    }
}

/// Detects the HTTP upgrade type of a request head and answers it.
pub fn detect_and_upgrade(head: &[u8]) -> (r: Upgrade)
    ensures
        r@ == upgrade_for(text::utf8_lossy(head@)),
        vstd::utf8::valid_utf8(head@) ==> r@ == upgrade_for(vstd::utf8::decode_utf8(head@)),
{
    let request = lossy_text(head);
    answer_request(request.as_str())
}

// ── Laws ────────────────────────────────────────────────────────────────────────
/// The head of a request ends at its first blank line: up to there every byte is read on,
/// unless the head is too large.
pub proof fn law_head_ends_at_first_blank_line(b: Seq<u8>)
    requires
        ends_head(b),
        b.len() <= MAX_HEAD_LENGTH + 1,
        forall|i: int| 0 <= i < b.len() ==> !ends_head(#[trigger] b.take(i)),
    ensures
        forall|i: int| 0 <= i < b.len() ==> head_step(#[trigger] b.take(i)) == HeadStep::More,
        head_step(b) == HeadStep::Complete,
{
}

/// What a request asks for does not depend on the case of its letters.
pub proof fn law_case_is_ignored(a: Seq<char>, b: Seq<char>, header: Seq<char>)
    requires
        text::ascii_lower(a) == text::ascii_lower(b),
    ensures
        asks_for(a, header) == asks_for(b, header),
        is_key_line(a) == is_key_line(b),
{
}

proof fn lemma_colon(line: Seq<char>, i: int)
    requires
        0 <= i < line.len(),
    ensures
        text::occurs_at(line, ":"@, i) <==> line[i] == ':',
        line[i] == ':' <==> text::ascii_lower(line)[i] == ':',
{
    reveal_strlit(":");
    assert(":"@ == seq![':']);
    assert(line.subrange(i, i + 1) == seq![line[i]]);
    if text::occurs_at(line, ":"@, i) {
        assert(line.subrange(i, i + 1)[0] == ':');
    }
    let c = line[i];
    vstd::utf8::char_u32_cast(c, c as u32);
}

/// A line that holds the key always has a value: what stands behind the header's name.
pub proof fn law_key_line_has_a_value(line: Seq<char>)
    requires
        is_key_line(line),
    ensures
        header_value(line) == Some(text::trim(line.skip(KEY_HEADER@.len() as int))),
{
    reveal_strlit("sec-websocket-key:");
    reveal_strlit(":");
    let n = KEY_HEADER@.len() as int;
    let low = text::ascii_lower(line);
    assert forall|i: int| 0 <= i < n implies low[i] == KEY_HEADER@[i] by {
        assert(low.subrange(0, n)[i] == low[i]);
    }
    assert forall|i: int| 0 <= i < n - 1 implies !text::occurs_at(line, ":"@, i) by {
        lemma_colon(line, i);
    }
    lemma_colon(line, n - 1);
    text::lemma_find_is(line, ":"@, n - 1);
}

/// Only a GET request is upgraded, and one that asks for a WebSocket becomes no other kind of
/// connection, whatever else it asks for.
pub proof fn law_upgrade_is_asked_for(request: Seq<char>)
    ensures
        upgrade_for(request) matches UpgradeView::Accepted { stream, response } ==> {
            &&& text::begins_with(request, "GET "@)
            &&& stream == Stream::WebSocket <==> asks_for(request, "upgrade: websocket"@)
            &&& stream == Stream::Raw ==> asks_for(request, "upgrade: rmbt"@)
        },
{
}

} // verus!
