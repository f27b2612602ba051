//! base64url without padding, the encoding WebAuthn uses for challenges.
use vstd::prelude::*;
use base64::engine::general_purpose::URL_SAFE_NO_PAD;
use base64::Engine;

verus! {

/// What the base64 crate's `URL_SAFE_NO_PAD` engine decodes `text` to: the
/// bytes, or, where it refuses it (a character outside the URL-safe alphabet,
/// padding, a bad length or non-zero trailing bits), the text its error displays.
pub uninterp spec fn base64url_decoding(text: Seq<char>) -> core::result::Result<Seq<u8>, Seq<char>>;

/// The unpadded base64url text that the `URL_SAFE_NO_PAD` engine encodes
/// `bytes` to.
pub uninterp spec fn base64url_encoding(bytes: Seq<u8>) -> Seq<char>;

/// Calls `URL_SAFE_NO_PAD.decode` of the base64 crate on the text's bytes,
/// handing an error over as the text it displays. Claimed: the outcome is the
/// one `base64url_decoding` names for the text.
#[verifier::external_body]
pub(crate) fn decode_base64url(text: &str) -> (res: core::result::Result<Vec<u8>, String>)
    ensures
        match res {
            Ok(b) => base64url_decoding(text@) == Ok::<Seq<u8>, Seq<char>>(b@),
            Err(m) => base64url_decoding(text@) == Err::<Seq<u8>, Seq<char>>(m@),
        },
{
    match URL_SAFE_NO_PAD.decode(text.as_bytes()) {
        Ok(b) => Ok(b),
        Err(e) => Err(e.to_string()),
    }
}

/// A character of the URL-safe base64 alphabet: `A`-`Z`, `a`-`z`, `0`-`9`, `-`, `_`.
pub open spec fn is_base64url_char(c: char) -> bool {
    ('A' <= c && c <= 'Z') || ('a' <= c && c <= 'z') || ('0' <= c && c <= '9') || c == '-' || c == '_'
}

/// Calls `URL_SAFE_NO_PAD.encode` of the base64 crate. Claimed: the text is the
/// name's value on the input, decoding it gives the input back, it has
/// `ceil(4n / 3)` characters for `n` input bytes (no padding), and each of them
/// is in the URL-safe alphabet.
#[verifier::external_body]
pub(crate) fn encode_base64url(bytes: &[u8]) -> (text: String)
    requires
        bytes@.len() <= usize::MAX / 4,
    ensures
        text@ == base64url_encoding(bytes@),
        base64url_decoding(text@) is Ok,
        base64url_decoding(text@)->Ok_0 == bytes@,
        text@.len() == (4 * bytes@.len() + 2) / 3,
        forall|i: int| 0 <= i < text@.len() ==> is_base64url_char(#[trigger] text@[i]),
{
    URL_SAFE_NO_PAD.encode(bytes)
}

} // verus!
