//! The constants of the RMBT protocol, and the chunks of a download.

use vstd::prelude::*;

verus! {

/// Version string sent to clients in the greeting line.
pub const GREETING: &'static str = "RMBTv1.3.5\n";

/// Default chunk size for download/upload tests (4 KiB).
pub const CHUNK_SIZE: usize = 4096;

/// Minimum chunk size a client may request.
pub const MIN_CHUNK_SIZE: u32 = 4096;

/// Maximum chunk size a client may request (4 MiB).
pub const MAX_CHUNK_SIZE: u32 = 4_194_304;

/// Maximum number of chunks for a GETCHUNKS command (~1.2 GiB at 4 KiB).
pub const MAX_CHUNKS: u32 = 300_000;

/// Maximum duration in seconds for a GETTIME command.
pub const MAX_SECONDS: u32 = 30;

/// Maximum length of a single protocol text line (bytes).
pub const MAX_LINE_LENGTH: usize = 1024;

/// Per-socket I/O timeout (seconds).
pub const SOCKET_TIMEOUT_SECS: u64 = 30;

/// Token time window: how many seconds early a client may connect.
/// The server will sleep until the token's start time is reached.
pub const MAX_ACCEPT_EARLY: i64 = 20;

/// Token time window: how many seconds late a client may still connect.
pub const MAX_ACCEPT_LATE: i64 = 90;

/// Port of the TLS listeners when no address is given.
pub const DEFAULT_TLS_PORT: u16 = 443;

// ── Download chunks ─────────────────────────────────────────────────────────────
//
// Download tests send random-filled byte strings. One buffer of MAX_CHUNK_SIZE bytes is
// filled with pseudo-random bytes; each chunk is its beginning with the last byte set:
//   0x00: non-terminal chunk (more data follows)
//   0xFF: terminal chunk     (end of this transfer)

/// `fastrand::fill` overwrites every byte of the slice with a pseudo-random value. Of the
/// values nothing is promised; the length stays.
#[verifier::external_body]
fn fill_random(buf: &mut Vec<u8>)
    ensures
        final(buf)@.len() == old(buf)@.len(),
{
    fastrand::fill(buf)
}

/// A buffer of `MAX_CHUNK_SIZE` pseudo-random bytes.
pub fn random_chunk() -> (buf: Vec<u8>)
    ensures
        buf@.len() == MAX_CHUNK_SIZE,
{
    let mut buf: Vec<u8> = vec![0u8; MAX_CHUNK_SIZE as usize];
    fill_random(&mut buf);
    buf
}

/// A chunk of `size` bytes from the beginning of `random`, with the last byte telling
/// whether it is the terminal one.
pub open spec fn chunk(random: Seq<u8>, size: int, terminal: bool) -> Seq<u8> {
    random.take(size - 1).push(
        if terminal {
            0xffu8
        } else {
            0u8
        },
    )
}

/// Makes a chunk of `size` bytes.
pub fn make_chunk(random: &[u8], size: usize, terminal: bool) -> (r: Vec<u8>)
    requires
        0 < size <= random@.len(),
    ensures
        r@ == chunk(random@, size as int, terminal),
        r@.len() == size,
{
    let mut r: Vec<u8> = Vec::new();
    let body = vstd::slice::slice_subrange(random, 0, size - 1);
    r.extend_from_slice(body);
    r.push(
        if terminal {
            0xff
        } else {
            0
        },
    );
    assert(r@ == chunk(random@, size as int, terminal));
    r
}

/// A chunk is the beginning of the random bytes, one by one, but for its last byte, which is
/// 0xFF in the terminal chunk and 0 in any other.
pub proof fn law_chunk_bytes(random: Seq<u8>, size: int, terminal: bool)
    requires
        0 < size <= random.len(),
    ensures
        chunk(random, size, terminal).len() == size,
        forall|i: int|
            0 <= i < size - 1 ==> #[trigger] chunk(random, size, terminal)[i] == random[i],
        terminal ==> chunk(random, size, terminal)[size - 1] == 0xff,
        !terminal ==> chunk(random, size, terminal)[size - 1] == 0,
{
}

} // verus!
