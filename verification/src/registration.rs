//! The registration ceremony (navigator.credentials.create).
use vstd::prelude::*;
use crate::attestation::{attestation_check, attestation_from_bytes, verify_attestation, AttestationObject};
use crate::auth_data::{
    auth_data_from_bytes, authenticator_check, be_u32, flag_set, lemma_auth_data_layout, AuthenticatorData,
    FLAG_BE, FLAG_BS, FLAG_UP, FLAG_UV,
};
use crate::client_data::{client_data_check, client_data_from_bytes, CollectedClientData};
use crate::cose::{CoseEs256Key, CoseKeyView};
use crate::crypto::{sha256, sha256_digest};
use crate::encoding::base64url_decoding;
use crate::error::{agrees, Error, ErrorKind, Result};

verus! {

/// The pieces a caller extracts from a navigator.credentials.create() response,
/// plus the expectations to check against.
///
/// `client_data_json` and `attestation_object` are the raw decoded bytes (not
/// base64url), and `expected_challenge` is the raw challenge you issued.
pub struct RegistrationVerification<'a> {
    pub client_data_json: &'a [u8],
    pub attestation_object: &'a [u8],
    pub expected_challenge: &'a [u8],
    pub require_user_verification: bool,
}

/// What to persist after a successful registration. Store at least the
/// credential id, public key, and sign_count; the rest is useful metadata.
#[derive(Clone, Debug)]
pub struct RegisteredCredential {
    pub credential_id: Vec<u8>,
    pub public_key: CoseEs256Key,
    pub sign_count: u32,
    pub aaguid: [u8; 16],
    pub user_verified: bool,
    pub backup_eligible: bool,
    pub backup_state: bool,
    pub attestation_format: String,
}

/// A registered credential as byte strings, text and flags.
pub struct CredentialView {
    pub credential_id: Seq<u8>,
    pub public_key: CoseKeyView,
    pub sign_count: u32,
    pub aaguid: Seq<u8>,
    pub user_verified: bool,
    pub backup_eligible: bool,
    pub backup_state: bool,
    pub attestation_format: Seq<char>,
}

impl View for RegisteredCredential {
    type V = CredentialView;

    open spec fn view(&self) -> CredentialView {
        CredentialView {
            credential_id: self.credential_id@,
            public_key: self.public_key@,
            sign_count: self.sign_count,
            aaguid: self.aaguid@,
            user_verified: self.user_verified,
            backup_eligible: self.backup_eligible,
            backup_state: self.backup_state,
            attestation_format: self.attestation_format@,
        }
    }
}

/// The ceremony type a registration response must carry.
pub open spec fn create_type() -> Seq<char> {
    "webauthn.create"@
}

/// The bytes of a text as UTF-8, as the rpIdHash is taken over them.
pub open spec fn utf8_bytes(text: Seq<char>) -> Seq<u8> {
    vstd::utf8::encode_utf8(text)
}

/// What a registration response gives, check by check in order: the client
/// data parses and binds the response to `webauthn.create`, the expected
/// challenge and `origin`; the attestation object and its authenticatorData
/// parse; the rpIdHash is the SHA-256 of `rp_id`, UP is set, and UV where
/// required; the authenticatorData carries a credential; the attestation
/// statement verifies. The credential is what the authenticatorData and the
/// attestation object hold.
pub open spec fn registration_outcome(
    rp_id: Seq<char>,
    origin: Seq<char>,
    client_data_json: Seq<u8>,
    attestation_object: Seq<u8>,
    expected_challenge: Seq<u8>,
    require_user_verification: bool,
) -> core::result::Result<CredentialView, ErrorKind> {
    match client_data_from_bytes(client_data_json) {
        Err(k) => Err(k),
        Ok(client) => match client_data_check(client, create_type(), expected_challenge, origin) {
            Err(k) => Err(k),
            Ok(_) => match attestation_from_bytes(attestation_object) {
                Err(k) => Err(k),
                Ok(att) => match auth_data_from_bytes(att.auth_data) {
                    Err(k) => Err(k),
                    Ok(auth) => match authenticator_check(auth, sha256_digest(utf8_bytes(rp_id)), require_user_verification) {
                        Err(k) => Err(k),
                        Ok(_) => match auth.attested_credential {
                            None => Err(ErrorKind::AuthData(Some("registration authData has no attested credential data"@))),
                            Some(cred) => match attestation_check(att, cred.public_key, client_data_json) {
                                Err(k) => Err(k),
                                Ok(_) => Ok(CredentialView {
                                    credential_id: cred.credential_id,
                                    public_key: cred.public_key,
                                    sign_count: auth.sign_count,
                                    aaguid: cred.aaguid,
                                    user_verified: flag_set(auth.flags, FLAG_UV),
                                    backup_eligible: flag_set(auth.flags, FLAG_BE),
                                    backup_state: flag_set(auth.flags, FLAG_BS),
                                    attestation_format: att.fmt,
                                }),
                            },
                        },
                    },
                },
            },
        },
    }
}

/// Verify a registration response for the relying party `rp_id` at `origin`.
pub fn verify(rp_id: &str, origin: &str, v: &RegistrationVerification<'_>) -> (res: Result<RegisteredCredential>)
    ensures
        agrees(res, registration_outcome(
            rp_id@,
            origin@,
            v.client_data_json@,
            v.attestation_object@,
            v.expected_challenge@,
            v.require_user_verification,
        )),
{
    let client = CollectedClientData::parse(v.client_data_json)?;
    client.verify("webauthn.create", v.expected_challenge, origin)?;

    let att = AttestationObject::parse(v.attestation_object)?;
    let auth = AuthenticatorData::parse(att.auth_data.as_slice())?;

    let rp_id_hash = sha256(rp_id.as_bytes());
    auth.check(&rp_id_hash, v.require_user_verification)?;

    let sign_count = auth.sign_count;
    let user_verified = auth.user_verified();
    let backup_eligible = auth.backup_eligible();
    let backup_state = auth.backup_state();

    let cred = match auth.attested_credential {
        Some(c) => c,
        None => {
            return Err(Error::AuthData("registration authData has no attested credential data".to_owned()));
        },
    };

    verify_attestation(&att, &cred, v.client_data_json)?;

    Ok(RegisteredCredential {
        credential_id: cred.credential_id,
        public_key: cred.public_key,
        sign_count,
        aaguid: cred.aaguid,
        user_verified,
        backup_eligible,
        backup_state,
        attestation_format: att.fmt,
    })
}

/// An accepted registration passed every check: the client data is a
/// `webauthn.create` for the expected challenge and origin, the rpIdHash is the
/// SHA-256 of the rp_id, UP is set (and UV where required, which the credential
/// then reports), the attestation format is `none` or `packed`, and the
/// credential is the one the authenticatorData carries.
pub proof fn lemma_accepted_registration_passed_checks(
    rp_id: Seq<char>,
    origin: Seq<char>,
    client_data_json: Seq<u8>,
    attestation_object: Seq<u8>,
    expected_challenge: Seq<u8>,
    require_user_verification: bool,
)
    requires
        registration_outcome(rp_id, origin, client_data_json, attestation_object, expected_challenge,
            require_user_verification) is Ok,
    ensures
        client_data_from_bytes(client_data_json) is Ok,
        client_data_from_bytes(client_data_json)->Ok_0.ceremony_type == create_type(),
        base64url_decoding(client_data_from_bytes(client_data_json)->Ok_0.challenge) == Ok::<Seq<u8>, Seq<char>>(expected_challenge),
        client_data_from_bytes(client_data_json)->Ok_0.origin == origin,
        attestation_from_bytes(attestation_object) is Ok,
        ({
            let att = attestation_from_bytes(attestation_object)->Ok_0;
            let cred = registration_outcome(rp_id, origin, client_data_json, attestation_object,
                expected_challenge, require_user_verification)->Ok_0;
            &&& att.fmt == "none"@ || att.fmt == "packed"@
            &&& cred.attestation_format == att.fmt
            &&& auth_data_from_bytes(att.auth_data) is Ok
            &&& auth_data_from_bytes(att.auth_data)->Ok_0.rp_id_hash == sha256_digest(utf8_bytes(rp_id))
            &&& flag_set(auth_data_from_bytes(att.auth_data)->Ok_0.flags, FLAG_UP)
            &&& require_user_verification ==> flag_set(auth_data_from_bytes(att.auth_data)->Ok_0.flags, FLAG_UV)
            &&& require_user_verification ==> cred.user_verified
            &&& auth_data_from_bytes(att.auth_data)->Ok_0.attested_credential matches Some(c)
                && c.credential_id == cred.credential_id && c.public_key == cred.public_key
                && c.aaguid == cred.aaguid
        }),
{
}

/// Dropping the user-verification requirement never turns an accepted
/// registration into a rejected one, nor changes the credential it yields.
pub proof fn lemma_registration_uv_requirement_only_narrows(
    rp_id: Seq<char>,
    origin: Seq<char>,
    client_data_json: Seq<u8>,
    attestation_object: Seq<u8>,
    expected_challenge: Seq<u8>,
)
    requires
        registration_outcome(rp_id, origin, client_data_json, attestation_object, expected_challenge, true) is Ok,
    ensures
        registration_outcome(rp_id, origin, client_data_json, attestation_object, expected_challenge, false)
            == registration_outcome(rp_id, origin, client_data_json, attestation_object, expected_challenge, true),
{
}

/// What an accepted registration reports of the authenticator is read from the
/// authenticatorData bytes in the attestation object, whether or not user
/// verification was required: the counter in bytes 33..37, and the UV, BE and
/// BS bits of the flags byte.
pub proof fn lemma_registration_reads_flags(
    rp_id: Seq<char>,
    origin: Seq<char>,
    client_data_json: Seq<u8>,
    attestation_object: Seq<u8>,
    expected_challenge: Seq<u8>,
    require_user_verification: bool,
)
    requires
        registration_outcome(rp_id, origin, client_data_json, attestation_object, expected_challenge,
            require_user_verification) is Ok,
    ensures
        attestation_from_bytes(attestation_object) is Ok,
        ({
            let ad = attestation_from_bytes(attestation_object)->Ok_0.auth_data;
            let cred = registration_outcome(rp_id, origin, client_data_json, attestation_object,
                expected_challenge, require_user_verification)->Ok_0;
            &&& ad.len() >= 37
            &&& cred.sign_count == be_u32(ad, 33)
            &&& cred.user_verified == flag_set(ad[32], FLAG_UV)
            &&& cred.backup_eligible == flag_set(ad[32], FLAG_BE)
            &&& cred.backup_state == flag_set(ad[32], FLAG_BS)
        }),
{
    lemma_auth_data_layout(attestation_from_bytes(attestation_object)->Ok_0.auth_data);
}

/// A registration that passes every check is accepted, with the credential the
/// authenticatorData carries: the client data parses as a `webauthn.create` for
/// the expected challenge and `origin`; the attestation object and its
/// authenticatorData parse, the first 32 bytes of that are the SHA-256 of
/// `rp_id`, UP is set in its flags byte (and UV where required), and it carries
/// a credential; the attestation statement passes for that credential's key.
pub proof fn lemma_registration_complete(
    rp_id: Seq<char>,
    origin: Seq<char>,
    client_data_json: Seq<u8>,
    attestation_object: Seq<u8>,
    expected_challenge: Seq<u8>,
    require_user_verification: bool,
)
    requires
        client_data_from_bytes(client_data_json) is Ok,
        client_data_from_bytes(client_data_json)->Ok_0.ceremony_type == "webauthn.create"@,
        base64url_decoding(client_data_from_bytes(client_data_json)->Ok_0.challenge)
            == Ok::<Seq<u8>, Seq<char>>(expected_challenge),
        client_data_from_bytes(client_data_json)->Ok_0.origin == origin,
        attestation_from_bytes(attestation_object) is Ok,
        ({
            let att = attestation_from_bytes(attestation_object)->Ok_0;
            let ad = att.auth_data;
            &&& auth_data_from_bytes(ad) is Ok
            &&& ad.take(32) == sha256_digest(utf8_bytes(rp_id))
            &&& flag_set(ad[32], FLAG_UP)
            &&& (require_user_verification ==> flag_set(ad[32], FLAG_UV))
            &&& auth_data_from_bytes(ad)->Ok_0.attested_credential is Some
            &&& attestation_check(att, auth_data_from_bytes(ad)->Ok_0.attested_credential->Some_0.public_key,
                client_data_json) is Ok
        }),
    ensures
        registration_outcome(rp_id, origin, client_data_json, attestation_object, expected_challenge,
            require_user_verification) is Ok,
        ({
            let att = attestation_from_bytes(attestation_object)->Ok_0;
            let c = auth_data_from_bytes(att.auth_data)->Ok_0.attested_credential->Some_0;
            let cred = registration_outcome(rp_id, origin, client_data_json, attestation_object,
                expected_challenge, require_user_verification)->Ok_0;
            &&& cred.credential_id == c.credential_id
            &&& cred.public_key == c.public_key
            &&& cred.aaguid == c.aaguid
            &&& cred.attestation_format == att.fmt
        }),
{
    lemma_auth_data_layout(attestation_from_bytes(attestation_object)->Ok_0.auth_data);
}

} // verus!
