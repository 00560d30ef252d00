//! Base64 with the standard alphabet and padding, as the base64 crate encodes
//! and decodes it.

use base64::engine::general_purpose::STANDARD;
use base64::Engine;
use vstd::prelude::*;

verus! {

/// The base64 text of some bytes.
pub uninterp spec fn base64_encoded(bytes: Seq<u8>) -> Seq<char>;

/// What a text decodes to: the bytes, or the text of the error.
pub uninterp spec fn base64_decoded(text: Seq<char>) -> Result<Seq<u8>, Seq<char>>;

/// The length of the base64 text of `n` bytes: four characters for every three
/// bytes, the last group padded.
pub open spec fn base64_len(n: nat) -> nat {
    (n + 2) / 3 * 4
}

/// `Engine::encode` of the standard engine. Its text has four characters for
/// every three bytes, and decoding it gives the bytes back. It panics where the
/// text would not fit in memory's address range.
#[verifier::external_body]
pub(crate) fn encode_base64(bytes: &[u8]) -> (r: String)
    requires
        base64_len(bytes@.len()) <= isize::MAX,
    ensures
        r@ == base64_encoded(bytes@),
        r@.len() == base64_len(bytes@.len()),
        base64_decoded(r@) is Ok && base64_decoded(r@)->Ok_0 == bytes@,
{
    STANDARD.encode(bytes)
}

/// `Engine::decode` of the standard engine.
#[verifier::external_body]
pub(crate) fn decode_base64(text: &str) -> (r: Result<Vec<u8>, String>)
    ensures
        match r {
            Ok(bytes) => base64_decoded(text@) == Ok::<Seq<u8>, Seq<char>>(bytes@),
            Err(e) => base64_decoded(text@) == Err::<Seq<u8>, Seq<char>>(e@),
        },
{
    STANDARD.decode(text.as_bytes()).map_err(|e| e.to_string())
}

} // verus!
