//! Message authentication, digests and base64, from the crates that compute them.

use base64::engine::general_purpose::STANDARD;
use base64::Engine;
use hmac::{Hmac, KeyInit, Mac};
use sha1::{Digest, Sha1};
use sha2::Sha256;
use vstd::prelude::*;
use vstd::utf8::encode_utf8;

verus! {

/// The HMAC-SHA256 tag of a message under a key.
pub uninterp spec fn hmac_sha256_of(key: Seq<u8>, msg: Seq<u8>) -> Seq<u8>;

/// The HMAC-SHA1 tag of a message under a key.
pub uninterp spec fn hmac_sha1_of(key: Seq<u8>, msg: Seq<u8>) -> Seq<u8>;

/// The SHA-1 digest of a message.
pub uninterp spec fn sha1_of(msg: Seq<u8>) -> Seq<u8>;

/// The standard base64 text of some bytes, with padding.
pub uninterp spec fn base64_text(bytes: Seq<u8>) -> Seq<char>;

/// The bytes that a standard base64 text stands for, if it is one.
pub uninterp spec fn base64_bytes(text: Seq<u8>) -> Option<Seq<u8>>;

/// `hmac::Hmac<sha2::Sha256>`: keyed by `new_from_slice`, which takes a key of any length,
/// fed `msg` by `update`, and finalized. The tag depends on the key and the message alone.
#[verifier::external_body]
fn mac_sha256(key: &[u8], msg: &[u8]) -> (tag: [u8; 32])
    ensures
        tag@ == hmac_sha256_of(key@, msg@),
{
    let mut mac = Hmac::<Sha256>::new_from_slice(key).expect("HMAC accepts any key length");
    mac.update(msg);
    mac.finalize().into_bytes().into()
}

/// `hmac::Hmac<sha1::Sha1>`: keyed by `new_from_slice`, which takes a key of any length,
/// fed `msg` by `update`, and finalized. The tag depends on the key and the message alone.
#[verifier::external_body]
fn mac_sha1(key: &[u8], msg: &[u8]) -> (tag: [u8; 20])
    ensures
        tag@ == hmac_sha1_of(key@, msg@),
{
    let mut mac = Hmac::<Sha1>::new_from_slice(key).expect("HMAC accepts any key length");
    mac.update(msg);
    mac.finalize().into_bytes().into()
}

/// `sha1::Sha1::digest`: the digest depends on the message alone.
#[verifier::external_body]
pub(crate) fn sha1_digest(msg: &[u8]) -> (digest: [u8; 20])
    ensures
        digest@ == sha1_of(msg@),
{
    Sha1::digest(msg).into()
}

/// `Engine::encode` of base64's `STANDARD` engine: the text depends on the bytes alone, and
/// decoding it gives the bytes back. It panics only when the length of the text overflows.
#[verifier::external_body]
pub(crate) fn base64_encode(bytes: &[u8]) -> (text: String)
    requires
        bytes@.len() <= usize::MAX / 4,
    ensures
        text@ == base64_text(bytes@),
        base64_bytes(encode_utf8(text@)) == Some(bytes@),
{
    STANDARD.encode(bytes)
}

/// `Engine::decode` of base64's `STANDARD` engine: whether the text is accepted, and the
/// bytes that it stands for, depend on the text alone.
#[verifier::external_body]
pub(crate) fn base64_decode(text: &[u8]) -> (bytes: Option<Vec<u8>>)
    ensures
        match bytes {
            Some(b) => base64_bytes(text@) == Some(b@),
            None => base64_bytes(text@) is None,
        },
{
    STANDARD.decode(text).ok()
}

/// The byte strings `parts` one after the other.
pub open spec fn joined(parts: Seq<&[u8]>) -> Seq<u8>
    decreases parts.len(),
{
    if parts.len() == 0 {
        seq![]
    } else {
        joined(parts.drop_last()) + parts.last()@
    }
}

/// The HMAC-SHA256 tag of the message that `parts` make up in order.
pub fn hmac_sha256(key: &[u8], parts: &[&[u8]]) -> (tag: [u8; 32])
    ensures
        tag@ == hmac_sha256_of(key@, joined(parts@)),
{
    let mut msg: Vec<u8> = Vec::new();
    for i in 0..parts.len()
        invariant
            msg@ == joined(parts@.take(i as int)),
    {
        msg.extend_from_slice(parts[i]);
        assert(parts@.take(i + 1).drop_last() == parts@.take(i as int));
    }
    assert(parts@.take(parts@.len() as int) == parts@);
    mac_sha256(key, msg.as_slice())
}

/// The base64 text of the HMAC-SHA1 tag of `msg`.
pub fn hmac_sha1_b64(key: &[u8], msg: &[u8]) -> (text: String)
    ensures
        text@ == base64_text(hmac_sha1_of(key@, msg@)),
{
    let tag = mac_sha1(key, msg);
    base64_encode(tag.as_slice())
}

} // verus!
