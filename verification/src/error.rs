//! The failure reasons of a ceremony check.
use vstd::prelude::*;

verus! {

/// Everything that can go wrong verifying a ceremony. Each variant is a distinct
/// check failing, so a caller can log or branch on the reason.
#[derive(Debug)]
#[allow(inconsistent_fields)]
pub enum Error {
    /// clientDataJSON is not valid JSON or lacks a required field.
    ClientDataJson(String),
    /// The ceremony type in clientDataJSON is not the one expected.
    TypeMismatch { expected: &'static str, got: String },
    /// The challenge does not match the one issued for this ceremony.
    ChallengeMismatch,
    /// The origin in clientDataJSON is not the configured origin.
    OriginMismatch { expected: String, got: String },
    /// attestationObject is not valid CBOR or lacks a required field.
    AttestationCbor(String),
    /// authenticatorData is malformed.
    AuthData(String),
    /// rpIdHash in authenticatorData does not match the configured rp_id.
    RpIdHashMismatch,
    /// The user presence flag (UP) was not set.
    UserNotPresent,
    /// User verification was required but the UV flag was not set.
    UserNotVerified,
    /// The credential public key is not ES256 over P-256.
    UnsupportedKey,
    /// The COSE key is malformed.
    CoseKey(String),
    /// The attestation format is not supported.
    UnsupportedAttestation(String),
    /// The attestation statement is malformed.
    AttestationStatement(String),
    /// Signature verification failed.
    BadSignature,
    /// The signature counter did not advance (possible cloned authenticator).
    SignCountRegression { stored: u32, got: u32 },
    /// base64url decoding failed.
    Base64(String),
    /// Random number generation failed.
    Rng(String),
}

/// The crate's result alias.
pub type Result<T> = core::result::Result<T, Error>;

/// What a failure says: the variant, the values that the checks compared where
/// a variant carries them, and the message of a variant that carries one.
/// A message is `Some` where the library words it itself and `None` where the
/// text comes from an outside decoder or the operating system and is not stated.
#[allow(inconsistent_fields)]
pub enum ErrorKind {
    ClientDataJson(Option<Seq<char>>),
    TypeMismatch { expected: Seq<char>, got: Seq<char> },
    ChallengeMismatch,
    OriginMismatch { expected: Seq<char>, got: Seq<char> },
    AttestationCbor(Option<Seq<char>>),
    AuthData(Option<Seq<char>>),
    RpIdHashMismatch,
    UserNotPresent,
    UserNotVerified,
    UnsupportedKey,
    CoseKey(Option<Seq<char>>),
    UnsupportedAttestation(Seq<char>),
    AttestationStatement(Option<Seq<char>>),
    BadSignature,
    SignCountRegression { stored: u32, got: u32 },
    Base64(Option<Seq<char>>),
    Rng(Option<Seq<char>>),
}

impl Error {
    /// The kind of this error, with the compared values and the message it carries.
    pub open spec fn kind(&self) -> ErrorKind {
        match self {
            Error::ClientDataJson(m) => ErrorKind::ClientDataJson(Some(m@)),
            Error::TypeMismatch { expected, got } => ErrorKind::TypeMismatch {
                expected: expected@,
                got: got@,
            },
            Error::ChallengeMismatch => ErrorKind::ChallengeMismatch,
            Error::OriginMismatch { expected, got } => ErrorKind::OriginMismatch {
                expected: expected@,
                got: got@,
            },
            Error::AttestationCbor(m) => ErrorKind::AttestationCbor(Some(m@)),
            Error::AuthData(m) => ErrorKind::AuthData(Some(m@)),
            Error::RpIdHashMismatch => ErrorKind::RpIdHashMismatch,
            Error::UserNotPresent => ErrorKind::UserNotPresent,
            Error::UserNotVerified => ErrorKind::UserNotVerified,
            Error::UnsupportedKey => ErrorKind::UnsupportedKey,
            Error::CoseKey(m) => ErrorKind::CoseKey(Some(m@)),
            Error::UnsupportedAttestation(s) => ErrorKind::UnsupportedAttestation(s@),
            Error::AttestationStatement(m) => ErrorKind::AttestationStatement(Some(m@)),
            Error::BadSignature => ErrorKind::BadSignature,
            Error::SignCountRegression { stored, got } => ErrorKind::SignCountRegression {
                stored: *stored,
                got: *got,
            },
            Error::Base64(m) => ErrorKind::Base64(Some(m@)),
            Error::Rng(m) => ErrorKind::Rng(Some(m@)),
        }
    }
}

/// A kind with its message, if it carries one, left open.
pub open spec fn unworded(k: ErrorKind) -> ErrorKind {
    match k {
        ErrorKind::ClientDataJson(_) => ErrorKind::ClientDataJson(None),
        ErrorKind::AttestationCbor(_) => ErrorKind::AttestationCbor(None),
        ErrorKind::AuthData(_) => ErrorKind::AuthData(None),
        ErrorKind::CoseKey(_) => ErrorKind::CoseKey(None),
        ErrorKind::AttestationStatement(_) => ErrorKind::AttestationStatement(None),
        ErrorKind::Base64(_) => ErrorKind::Base64(None),
        ErrorKind::Rng(_) => ErrorKind::Rng(None),
        _ => k,
    }
}

/// Whether the kind of an error is the failure `expected` names: the same kind
/// exactly, or, where `expected` leaves the message open, the same variant with
/// any message.
pub open spec fn fits(actual: ErrorKind, expected: ErrorKind) -> bool {
    actual == expected || unworded(actual) == expected
}

/// Whether a result is the one a specification gives: the value seen through
/// its view, or an error that fits the specified kind.
pub open spec fn agrees<T: View>(r: Result<T>, spec: core::result::Result<T::V, ErrorKind>) -> bool {
    match (r, spec) {
        (Ok(t), Ok(v)) => t@ == v,
        (Err(e), Err(k)) => fits(e.kind(), k),
        _ => false,
    }
}

} // verus!
