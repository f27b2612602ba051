//! The crypto backend: SHA-256, ES256 signature verification, and the OS
//! random number generator.
use vstd::prelude::*;
use crate::cose::{sec1_encoding, CoseEs256Key};
use crate::error::{Error, ErrorKind, Result};
use getrandom::Error as RandomError;

verus! {

/// `getrandom::Error`, the OS random number generator's failure, carried opaque.
#[verifier::external_type_specification]
#[verifier::external_body]
pub struct ExRandomError(RandomError);

/// The SHA-256 digest of `data`.
pub uninterp spec fn sha256_digest(data: Seq<u8>) -> Seq<u8>;

/// Whether `signature_der`, an ASN.1 DER ECDSA signature, verifies under the
/// P-256 public key whose SEC1 encoding is `public_key_sec1` over the SHA-256
/// of `message`.
pub uninterp spec fn es256_signature_valid(public_key_sec1: Seq<u8>, message: Seq<u8>, signature_der: Seq<u8>) -> bool;

/// Calls `ring::digest::digest` with `SHA256`. Claimed: the 32 bytes returned
/// are the name's value on the input.
#[verifier::external_body]
pub(crate) fn sha256(data: &[u8]) -> (digest: [u8; 32])
    ensures
        digest@ == sha256_digest(data@),
{
    let d = ring::digest::digest(&ring::digest::SHA256, data);
    let mut out = [0u8; 32];
    out.copy_from_slice(d.as_ref());
    out
}

/// Calls `ring::signature::UnparsedPublicKey::verify` with
/// `ECDSA_P256_SHA256_ASN1`. Claimed: it accepts exactly when the name holds.
#[verifier::external_body]
fn es256_accepts(public_key_sec1: &[u8; 65], message: &[u8], signature_der: &[u8]) -> (valid: bool)
    ensures
        valid == es256_signature_valid(public_key_sec1@, message@, signature_der@),
{
    let key = ring::signature::UnparsedPublicKey::new(&ring::signature::ECDSA_P256_SHA256_ASN1, &public_key_sec1[..]);
    key.verify(message, signature_der).is_ok()
}

/// Verify an ES256 signature. WebAuthn authenticators emit ASN.1 DER ECDSA
/// signatures; the SHA-256 of the message is taken by the verifier.
pub fn verify_es256(key: &CoseEs256Key, message: &[u8], signature_der: &[u8]) -> (res: Result<()>)
    ensures
        match res {
            Ok(_) => es256_signature_valid(sec1_encoding(key@), message@, signature_der@),
            Err(e) => !es256_signature_valid(sec1_encoding(key@), message@, signature_der@)
                && e.kind() == ErrorKind::BadSignature,
        },
{
    let point = key.to_sec1_uncompressed();
    if es256_accepts(&point, message, signature_der) {
        Ok(())
    } else {
        Err(Error::BadSignature)
    }
}

/// Calls `getrandom::getrandom` on the buffer. The bytes it leaves are random:
/// nothing is claimed of them or of whether the call succeeds.
#[verifier::external_body]
pub(crate) fn fill_random(buf: &mut [u8; 32]) -> core::result::Result<(), RandomError> {
    getrandom::getrandom(buf)
}

/// Calls `Display::to_string` on a getrandom error; nothing is claimed of the
/// text.
#[verifier::external_body]
pub(crate) fn random_error_text(e: &RandomError) -> String {
    e.to_string()
}

} // verus!
