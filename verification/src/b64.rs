//! Trusted boundary to the `base64` crate: the URL-safe unpadded decoding
//! used by token payload segments, and the standard encoding used by
//! Basic-auth headers.

use base64::Engine;
use vstd::prelude::*;

verus! {

/// The byte sequence that Base64URL (no padding) decoding assigns to `s`,
/// or `None` where `s` is not a valid encoding.
pub uninterp spec fn b64url_decode_of(s: Seq<char>) -> Option<Seq<u8>>;

/// The standard Base64 (padded) encoding of the UTF-8 bytes of `s`.
pub uninterp spec fn b64_std_encode_of(s: Seq<char>) -> Seq<char>;

/// Relies on base64's `URL_SAFE_NO_PAD` engine, `Engine::decode`: the result
/// is a function of the input characters alone, the decoded bytes or an
/// error for input that is not a valid encoding.
#[verifier::external_body]
pub(crate) fn b64url_decode(s: &str) -> (r: Option<Vec<u8>>)
    ensures
        match r {
            Option::Some(v) => b64url_decode_of(s@) == Option::Some(v@),
            Option::None => b64url_decode_of(s@) is None,
        },
{
    base64::engine::general_purpose::URL_SAFE_NO_PAD.decode(s).ok()
}

/// Relies on base64's `STANDARD` engine, `Engine::encode`: the result is a
/// function of the input bytes alone.  The length bound keeps the input
/// well under the size at which the crate's output-size computation would
/// overflow and panic.
#[verifier::external_body]
pub(crate) fn b64_std_encode(s: &str) -> (r: String)
    requires
        s@.len() <= 0x1000_0000,
    ensures
        r@ == b64_std_encode_of(s@),
{
    base64::engine::general_purpose::STANDARD.encode(s.as_bytes())
}

} // verus!
