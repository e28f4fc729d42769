//! What the HTTP upgrade comes to, in terms of the lines of the request.

use vstd::prelude::*;
use vstd::utf8::encode_utf8;
use crate::stream::upgrade::{self, HeadStep, UpgradeError, UpgradeView};
use crate::stream::Stream;
use crate::text_laws::{self, law_find, law_trim};
use crate::{crypto, number, text};

verus! {

// ── The key ─────────────────────────────────────────────────────────────────────
/// The line is the header `Sec-WebSocket-Key`, in any case of its letters.
pub open spec fn names_the_key(line: Seq<char>) -> bool {
    text::begins_with(text::ascii_lower(line), "sec-websocket-key:"@)
}

/// The key of a request is the trimmed text behind the header's name in the first line that
/// is this header, whatever the other lines are.
pub proof fn law_key_is_that_of_its_header(lines: Seq<Seq<char>>, k: int)
    requires
        0 <= k < lines.len(),
        names_the_key(lines[k]),
        forall|j: int| 0 <= j < k ==> !names_the_key(#[trigger] lines[j]),
    ensures
        upgrade::key_in(lines) == Some(text::trim(lines[k].skip(18))),
    decreases k,
{
    reveal_strlit("sec-websocket-key:");
    if k == 0 {
        upgrade::law_key_line_has_a_value(lines[0]);
    } else {
        assert(!names_the_key(lines[0]));
        let rest = lines.drop_first();
        assert(rest[k - 1] == lines[k]);
        assert forall|j: int| 0 <= j < k - 1 implies !names_the_key(#[trigger] rest[j]) by {
            assert(rest[j] == lines[j + 1]);
        }
        law_key_is_that_of_its_header(rest, k - 1);
    }
}

/// A request without that header has no key.
pub proof fn law_no_header_no_key(lines: Seq<Seq<char>>)
    requires
        forall|j: int| 0 <= j < lines.len() ==> !names_the_key(#[trigger] lines[j]),
    ensures
        upgrade::key_in(lines) is None,
    decreases lines.len(),
{
    if lines.len() > 0 {
        assert(!names_the_key(lines[0]));
        let rest = lines.drop_first();
        assert forall|j: int| 0 <= j < rest.len() implies !names_the_key(#[trigger] rest[j]) by {
            assert(rest[j] == lines[j + 1]);
        }
        law_no_header_no_key(rest);
    }
}

/// The header's value is the key character by character: the case of the header's name and
/// the white space around the value do not matter, and the case of the key stays.
pub proof fn law_key_is_kept(
    lines: Seq<Seq<char>>,
    k: int,
    name: Seq<char>,
    pre: Seq<char>,
    key: Seq<char>,
    post: Seq<char>,
)
    requires
        0 <= k < lines.len(),
        lines[k] == name + (pre + key + post),
        text::ascii_lower(name) == "sec-websocket-key:"@,
        text_laws::all_white(pre),
        text_laws::all_white(post),
        text_laws::is_trimmed(key),
        forall|j: int| 0 <= j < k ==> !names_the_key(#[trigger] lines[j]),
    ensures
        upgrade::key_in(lines) == Some(key),
{
    reveal_strlit("sec-websocket-key:");
    let line = lines[k];
    let value = pre + key + post;
    text_laws::law_lower_case(name);
    assert(text::ascii_lower(line) == text::ascii_lower(name) + text::ascii_lower(value));
    text_laws::law_prefix("sec-websocket-key:"@, text::ascii_lower(value), line);
    law_key_is_that_of_its_header(lines, k);
    assert(line.skip(18) == value);
    law_trim(pre, key, post);
}

// ── Answers ─────────────────────────────────────────────────────────────────────
/// The text stands somewhere in the request, in any case of its letters.
pub open spec fn mentions(request: Seq<char>, header: Seq<char>) -> bool {
    exists|i: int| text::occurs_at(text::ascii_lower(request), header, i)
}

/// A GET request that mentions `Upgrade: websocket` and has a key becomes a WebSocket, and
/// the answer holds the base64 form of the SHA-1 of the key and the GUID of RFC 6455.
pub proof fn law_websocket_is_opened(request: Seq<char>, k: int)
    requires
        text::begins_with(request, "GET "@),
        mentions(request, "upgrade: websocket"@),
        0 <= k < text::lines(request).len(),
        names_the_key(text::lines(request)[k]),
        forall|j: int| 0 <= j < k ==> !names_the_key(#[trigger] text::lines(request)[j]),
    ensures
        upgrade::upgrade_for(request) == (UpgradeView::Accepted {
            stream: Stream::WebSocket,
            response:
                "HTTP/1.1 101 Switching Protocols\r\nConnection: Upgrade\r\nUpgrade: websocket\r\nSec-WebSocket-Accept: "@
                + crypto::base64_text(
                crypto::sha1_of(
                    encode_utf8(text::trim(text::lines(request)[k].skip(18))) + encode_utf8(
                        "258EAFA5-E914-47DA-95CA-C5AB0DC85B11"@,
                    ),
                ),
            ) + "\r\n\r\n"@,
        }),
{
    law_key_is_that_of_its_header(text::lines(request), k);
    law_find(text::ascii_lower(request), "upgrade: websocket"@);
}

/// A GET request that mentions `Upgrade: websocket` without a key is refused without an
/// answer.
pub proof fn law_websocket_needs_a_key(request: Seq<char>)
    requires
        text::begins_with(request, "GET "@),
        mentions(request, "upgrade: websocket"@),
        forall|j: int|
            0 <= j < text::lines(request).len() ==> !names_the_key(
                #[trigger] text::lines(request)[j],
            ),
    ensures
        upgrade::upgrade_for(request) == (UpgradeView::Refused {
            response: None,
            error: UpgradeError::MissingKey,
        }),
{
    law_no_header_no_key(text::lines(request));
    law_find(text::ascii_lower(request), "upgrade: websocket"@);
}

/// A GET request that mentions `Upgrade: RMBT` and no WebSocket goes on as a raw stream.
pub proof fn law_rmbt_is_opened(request: Seq<char>)
    requires
        text::begins_with(request, "GET "@),
        !mentions(request, "upgrade: websocket"@),
        mentions(request, "upgrade: rmbt"@),
    ensures
        upgrade::upgrade_for(request) == (UpgradeView::Accepted {
            stream: Stream::Raw,
            response:
                "HTTP/1.1 101 Switching Protocols\r\nConnection: Upgrade\r\nUpgrade: RMBT\r\n\r\n"@,
        }),
{
    law_find(text::ascii_lower(request), "upgrade: websocket"@);
    law_find(text::ascii_lower(request), "upgrade: rmbt"@);
}

/// Any other request is refused: with 405 when it is not a GET, and else with 426.
pub proof fn law_other_requests_are_refused(request: Seq<char>)
    ensures
        !text::begins_with(request, "GET "@) ==> upgrade::upgrade_for(request) == (
        UpgradeView::Refused {
            response: Some(
                "HTTP/1.1 405 Method Not Allowed\r\nConnection: close\r\nContent-Length: 0\r\n\r\n"@,
            ),
            error: UpgradeError::ExpectedGet,
        }),
        text::begins_with(request, "GET "@) && !mentions(request, "upgrade: websocket"@)
            && !mentions(request, "upgrade: rmbt"@) ==> {
            &&& upgrade::upgrade_for(request) matches UpgradeView::Refused { response, error }
            &&& error == UpgradeError::NoUpgrade
            &&& response matches Some(r) && text::begins_with(
                r,
                "HTTP/1.1 426 Upgrade Required\r\nConnection: close\r\nUpgrade: RMBT, websocket\r\nContent-Type: text/plain\r\nContent-Length: "@,
            )
        },
{
    law_find(text::ascii_lower(request), "upgrade: websocket"@);
    law_find(text::ascii_lower(request), "upgrade: rmbt"@);
    let h =
        "HTTP/1.1 426 Upgrade Required\r\nConnection: close\r\nUpgrade: RMBT, websocket\r\nContent-Type: text/plain\r\nContent-Length: "@;
    let r = upgrade::page_response();
    assert(r == h + r.skip(h.len() as int));
    text_laws::law_prefix(h, r.skip(h.len() as int), r);
}

// ── The head ────────────────────────────────────────────────────────────────────
/// A head ends with the bytes CR LF CR LF. Otherwise up to 8192 bytes are read on, and more
/// are too many.
pub proof fn law_head_steps(head: Seq<u8>, b: Seq<u8>)
    requires
        b.len() >= 4 ==> !(b[b.len() - 4] == 13 && b[b.len() - 3] == 10 && b[b.len() - 2] == 13
            && b[b.len() - 1] == 10),
    ensures
        upgrade::head_step(head + seq![13u8, 10, 13, 10]) == HeadStep::Complete,
        b.len() <= 8192 ==> upgrade::head_step(b) == HeadStep::More,
        b.len() > 8192 ==> upgrade::head_step(b) == HeadStep::TooLarge,
{
    let h = head + seq![13u8, 10, 13, 10];
    assert(h.skip(h.len() - 4) == seq![13u8, 10, 13, 10]);
    if upgrade::ends_head(b) {
        let t = b.skip(b.len() - 4);
        assert(t[0] == 13 && t[1] == 10 && t[2] == 13 && t[3] == 10);
    }
}

/// The page for a request without an upgrade is announced with its length in bytes.
pub proof fn law_page_length_is_told()
    ensures
        exists|d: Seq<char>|
            upgrade::page_response()
                == "HTTP/1.1 426 Upgrade Required\r\nConnection: close\r\nUpgrade: RMBT, websocket\r\nContent-Type: text/plain\r\nContent-Length: "@
                + d + "\r\n\r\n"@ + upgrade::page() && number::all_digits(d)
                && #[trigger] number::digits_value(d) == encode_utf8(upgrade::page()).len(),
{
    let n = encode_utf8(upgrade::page()).len();
    number::law_decimal_roundtrip(n);
    assert(number::digits_value(number::dec(n)) == n);
}

/// The accept value is the base64 form of the SHA-1 of the key's bytes, all of them, and the
/// bytes of the GUID; the answer holds the accept value as it is.
pub proof fn law_accept_value(key: Seq<char>, accept: Seq<char>)
    ensures
        upgrade::accept_of(key) == crypto::base64_text(
            crypto::sha1_of(
                encode_utf8(key) + encode_utf8("258EAFA5-E914-47DA-95CA-C5AB0DC85B11"@),
            ),
        ),
        upgrade::handshake_text(accept)
            == "HTTP/1.1 101 Switching Protocols\r\nConnection: Upgrade\r\nUpgrade: websocket\r\nSec-WebSocket-Accept: "@
            + accept + "\r\n\r\n"@,
{
}

} // verus!
