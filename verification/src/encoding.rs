//! Base64 encoding of credentials, done by the `base64` crate.

use vstd::prelude::*;

verus! {

/// The standard base64 encoding (RFC 4648 alphabet, padded with `=`) of the
/// UTF-8 bytes of `text`.
pub uninterp spec fn base64_standard(text: Seq<char>) -> Seq<char>;

/// Calls `base64::Engine::encode` on `base64::prelude::BASE64_STANDARD`.
///
/// Trusted: the returned string is the standard padded base64 encoding of the
/// bytes of `text`, a function of `text` alone. The call panics where the
/// encoded length, four bytes for every three of the input, does not fit in
/// `usize`; a `str` holds at most `isize::MAX` bytes, so none is that long.
#[verifier::external_body]
pub(crate) fn encode_standard(text: &str) -> (encoded: String)
    ensures
        encoded@ == base64_standard(text@),
{
    base64::Engine::encode(&base64::prelude::BASE64_STANDARD, text)
}

} // verus!
