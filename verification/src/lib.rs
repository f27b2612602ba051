//! passkeep: a small WebAuthn relying party.
//!
//! It does exactly the server side of passkeys: verify a registration ceremony,
//! verify an assertion ceremony, and tell you what to store. You own transport
//! and storage; this crate owns the ceremony checks and the ES256 signature
//! verification.
//!
//! Scope: ES256 (the algorithm Apple and Android platform authenticators emit),
//! attestation `none` and `packed` self attestation.
use vstd::prelude::*;

pub mod assertion;
pub mod attestation;
pub mod auth_data;
pub mod bytes;
pub mod cbor;
pub mod client_data;
pub mod cose;
pub mod crypto;
pub mod encoding;
pub mod error;
pub mod json;
pub mod registration;

pub use assertion::{AssertionOutcome, AssertionVerification};
pub use cose::CoseEs256Key;
pub use error::{Error, ErrorKind, Result};
pub use registration::{RegisteredCredential, RegistrationVerification};

use assertion::assertion_outcome;
use crypto::{fill_random, random_error_text};
use encoding::{base64url_decoding, base64url_encoding, encode_base64url, is_base64url_char};
use error::{agrees, fits};
use registration::registration_outcome;
use vstd::slice::slice_to_vec;

verus! {

/// A configured relying party.
///
/// `rp_id` is the domain the credential is scoped to (an eTLD+1 or a host, e.g.
/// `example.com`); `origin` is the exact origin the browser reports, scheme and
/// all (e.g. `https://example.com`). Both are checked on every ceremony.
#[derive(Clone, Debug)]
pub struct RelyingParty {
    rp_id: String,
    origin: String,
}

/// The configuration of a relying party.
pub struct RelyingPartyView {
    pub rp_id: Seq<char>,
    pub origin: Seq<char>,
}

impl View for RelyingParty {
    type V = RelyingPartyView;

    closed spec fn view(&self) -> RelyingPartyView {
        RelyingPartyView { rp_id: self.rp_id@, origin: self.origin@ }
    }
}

impl RelyingParty {
    pub fn new(rp_id: &str, origin: &str) -> (rp: Self)
        ensures
            rp@.rp_id == rp_id@,
            rp@.origin == origin@,
    {
        RelyingParty { rp_id: rp_id.to_owned(), origin: origin.to_owned() }
    }

    pub fn rp_id(&self) -> (id: &str)
        ensures
            id@ == self@.rp_id,
    {
        self.rp_id.as_str()
    }

    pub fn origin(&self) -> (origin: &str)
        ensures
            origin@ == self@.origin,
    {
        self.origin.as_str()
    }

    /// Verify a registration (navigator.credentials.create) response. On success
    /// returns the credential to persist.
    pub fn verify_registration(&self, v: &RegistrationVerification<'_>) -> (res: Result<RegisteredCredential>)
        ensures
            agrees(res, registration_outcome(
                self@.rp_id,
                self@.origin,
                v.client_data_json@,
                v.attestation_object@,
                v.expected_challenge@,
                v.require_user_verification,
            )),
    {
        registration::verify(self.rp_id.as_str(), self.origin.as_str(), v)
    }

    /// Verify an assertion (navigator.credentials.get) response against a stored
    /// credential. On success returns the new sign count to persist.
    pub fn verify_assertion(&self, v: &AssertionVerification<'_>) -> (res: Result<AssertionOutcome>)
        ensures
            agrees(res, assertion_outcome(
                self@.rp_id,
                self@.origin,
                v.client_data_json@,
                v.authenticator_data@,
                v.signature@,
                v.expected_challenge@,
                v.credential_public_key@,
                v.previous_sign_count,
                v.require_user_verification,
            )),
    {
        assertion::verify(self.rp_id.as_str(), self.origin.as_str(), v)
    }
}

/// A freshly generated 32-byte ceremony challenge.
///
/// Issue one per ceremony: send [`Challenge::to_base64url`] to the browser as
/// the `challenge`, and keep [`Challenge::as_bytes`] server-side to pass as the
/// `expected_challenge` when the response comes back.
pub struct Challenge(Vec<u8>);

impl Challenge {
    #[verifier::type_invariant]
    spec fn well_formed(self) -> bool {
        self.0@.len() == 32
    }
}

impl View for Challenge {
    type V = Seq<u8>;

    closed spec fn view(&self) -> Seq<u8> {
        self.0@
    }
}

impl Challenge {
    /// 32 random bytes from the OS RNG.
    pub fn generate() -> (res: Result<Self>)
        ensures
            match res {
                Ok(c) => c@.len() == 32,
                Err(e) => fits(e.kind(), ErrorKind::Rng(None)),
            },
    {
        let mut buf = [0u8; 32];
        match fill_random(&mut buf) {
            Ok(()) => {},
            Err(e) => {
                return Err(Error::Rng(random_error_text(&e)));
            },
        }
        Ok(Challenge(slice_to_vec(&buf)))
    }

    pub fn as_bytes(&self) -> (bytes: &[u8])
        ensures
            bytes@ == self@,
            bytes@.len() == 32,
    {
        proof {
            use_type_invariant(self);
        }
        self.0.as_slice()
    }

    /// The challenge as unpadded base64url, the form the browser is sent.
    pub fn to_base64url(&self) -> (text: String)
        ensures
            text@ == base64url_encoding(self@),
            base64url_decoding(text@) == Ok::<Seq<u8>, Seq<char>>(self@),
            text@.len() == 43,
            forall|i: int| 0 <= i < text@.len() ==> is_base64url_char(#[trigger] text@[i]),
    {
        proof {
            use_type_invariant(self);
        }
        encode_base64url(self.0.as_slice())
    }

    pub fn into_bytes(self) -> (bytes: Vec<u8>)
        ensures
            bytes@ == self@,
            bytes@.len() == 32,
    {
        proof {
            use_type_invariant(&self);
        }
        self.0
    }
}

} // verus!
