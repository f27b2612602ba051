//! The assertion ceremony (navigator.credentials.get).
use vstd::prelude::*;
use crate::auth_data::{
    auth_data_from_bytes, authenticator_check, be_u32, flag_set, lemma_auth_data_layout, AuthenticatorData,
    FLAG_BS, FLAG_UP, FLAG_UV,
};
use crate::bytes::concat_bytes;
use crate::client_data::{client_data_check, client_data_from_bytes, CollectedClientData};
use crate::encoding::base64url_decoding;
use crate::cose::{sec1_encoding, CoseEs256Key, CoseKeyView};
use crate::crypto::{es256_signature_valid, sha256, sha256_digest, verify_es256};
use crate::error::{agrees, Error, ErrorKind, Result};
use crate::registration::utf8_bytes;

verus! {

/// The pieces a caller extracts from a navigator.credentials.get() response,
/// plus the stored credential to check it against.
///
/// You look up `credential_public_key` and `previous_sign_count` by the
/// credential id the client returned. `client_data_json`,
/// `authenticator_data`, and `signature` are raw decoded bytes, and
/// `expected_challenge` is the raw challenge you issued.
pub struct AssertionVerification<'a> {
    pub client_data_json: &'a [u8],
    pub authenticator_data: &'a [u8],
    pub signature: &'a [u8],
    pub expected_challenge: &'a [u8],
    pub credential_public_key: &'a CoseEs256Key,
    pub previous_sign_count: u32,
    pub require_user_verification: bool,
}

/// What a successful assertion yields. Persist `new_sign_count` back onto the
/// stored credential (that is the whole point of the counter check).
#[derive(Clone, Debug)]
pub struct AssertionOutcome {
    pub new_sign_count: u32,
    pub user_verified: bool,
    pub backup_state: bool,
}

impl View for AssertionOutcome {
    type V = AssertionOutcome;

    open spec fn view(&self) -> AssertionOutcome {
        *self
    }
}

/// The ceremony type an assertion response must carry.
pub open spec fn get_type() -> Seq<char> {
    "webauthn.get"@
}

/// Signature counter monotonicity: when both the stored and the new counter are
/// zero the authenticator does not implement a counter, which is allowed;
/// otherwise the new value must strictly exceed the stored one.
pub open spec fn sign_count_check(previous: u32, new: u32) -> core::result::Result<(), ErrorKind> {
    if !(new == 0 && previous == 0) && new <= previous {
        Err(ErrorKind::SignCountRegression { stored: previous, got: new })
    } else {
        Ok(())
    }
}

/// What an assertion response gives, check by check in order: the client data
/// parses and binds the response to `webauthn.get`, the expected challenge and
/// `origin`; the authenticatorData parses; the rpIdHash is the SHA-256 of
/// `rp_id`, UP is set, and UV where required; the signature verifies under the
/// stored key over `authenticatorData || SHA-256(clientDataJSON)`; the counter
/// advances. The outcome carries the new counter and the UV and BS flags.
pub open spec fn assertion_outcome(
    rp_id: Seq<char>,
    origin: Seq<char>,
    client_data_json: Seq<u8>,
    authenticator_data: Seq<u8>,
    signature: Seq<u8>,
    expected_challenge: Seq<u8>,
    credential_public_key: CoseKeyView,
    previous_sign_count: u32,
    require_user_verification: bool,
) -> core::result::Result<AssertionOutcome, ErrorKind> {
    match client_data_from_bytes(client_data_json) {
        Err(k) => Err(k),
        Ok(client) => match client_data_check(client, get_type(), expected_challenge, origin) {
            Err(k) => Err(k),
            Ok(_) => match auth_data_from_bytes(authenticator_data) {
                Err(k) => Err(k),
                Ok(auth) => match authenticator_check(auth, sha256_digest(utf8_bytes(rp_id)), require_user_verification) {
                    Err(k) => Err(k),
                    Ok(_) => if !es256_signature_valid(
                        sec1_encoding(credential_public_key),
                        authenticator_data + sha256_digest(client_data_json),
                        signature,
                    ) {
                        Err(ErrorKind::BadSignature)
                    } else {
                        match sign_count_check(previous_sign_count, auth.sign_count) {
                            Err(k) => Err(k),
                            Ok(_) => Ok(AssertionOutcome {
                                new_sign_count: auth.sign_count,
                                user_verified: flag_set(auth.flags, FLAG_UV),
                                backup_state: flag_set(auth.flags, FLAG_BS),
                            }),
                        }
                    },
                },
            },
        },
    }
}

/// Check that the signature counter advanced from `previous` to `new` (or that
/// the authenticator keeps no counter: both zero).
pub fn check_sign_count(previous: u32, new: u32) -> (res: Result<()>)
    ensures
        agrees(res, sign_count_check(previous, new)),
{
    let both_zero = new == 0 && previous == 0;
    if !both_zero && new <= previous {
        return Err(Error::SignCountRegression { stored: previous, got: new });
    }
    Ok(())
}

/// Verify an assertion response for the relying party `rp_id` at `origin`.
pub fn verify(rp_id: &str, origin: &str, v: &AssertionVerification<'_>) -> (res: Result<AssertionOutcome>)
    ensures
        agrees(res, assertion_outcome(
            rp_id@,
            origin@,
            v.client_data_json@,
            v.authenticator_data@,
            v.signature@,
            v.expected_challenge@,
            v.credential_public_key@,
            v.previous_sign_count,
            v.require_user_verification,
        )),
{
    let client = CollectedClientData::parse(v.client_data_json)?;
    client.verify("webauthn.get", v.expected_challenge, origin)?;

    let auth = AuthenticatorData::parse(v.authenticator_data)?;
    let rp_id_hash = sha256(rp_id.as_bytes());
    auth.check(&rp_id_hash, v.require_user_verification)?;

    // The authenticator signs authenticatorData || SHA-256(clientDataJSON).
    let client_data_hash = sha256(v.client_data_json);
    let signed = concat_bytes(v.authenticator_data, &client_data_hash);
    verify_es256(v.credential_public_key, signed.as_slice(), v.signature)?;

    check_sign_count(v.previous_sign_count, auth.sign_count)?;

    Ok(AssertionOutcome {
        new_sign_count: auth.sign_count,
        user_verified: auth.user_verified(),
        backup_state: auth.backup_state(),
    })
}

/// A counter that was accepted has advanced: the new value is above the stored
/// one, or both are zero (an authenticator that keeps no counter).
pub proof fn lemma_accepted_counter_advances(
    rp_id: Seq<char>,
    origin: Seq<char>,
    client_data_json: Seq<u8>,
    authenticator_data: Seq<u8>,
    signature: Seq<u8>,
    expected_challenge: Seq<u8>,
    credential_public_key: CoseKeyView,
    previous_sign_count: u32,
    require_user_verification: bool,
)
    requires
        assertion_outcome(rp_id, origin, client_data_json, authenticator_data, signature,
            expected_challenge, credential_public_key, previous_sign_count, require_user_verification) is Ok,
    ensures
        ({
            let o = assertion_outcome(rp_id, origin, client_data_json, authenticator_data, signature,
                expected_challenge, credential_public_key, previous_sign_count, require_user_verification)->Ok_0;
            o.new_sign_count > previous_sign_count || (o.new_sign_count == 0 && previous_sign_count == 0)
        }),
{
}

/// Replaying an accepted assertion is rejected: once the new counter has been
/// persisted, the same response checked against it fails as a counter
/// regression (unless the authenticator keeps no counter, new counter zero).
pub proof fn lemma_replay_rejected(
    rp_id: Seq<char>,
    origin: Seq<char>,
    client_data_json: Seq<u8>,
    authenticator_data: Seq<u8>,
    signature: Seq<u8>,
    expected_challenge: Seq<u8>,
    credential_public_key: CoseKeyView,
    previous_sign_count: u32,
    require_user_verification: bool,
)
    requires
        assertion_outcome(rp_id, origin, client_data_json, authenticator_data, signature,
            expected_challenge, credential_public_key, previous_sign_count, require_user_verification) is Ok,
        assertion_outcome(rp_id, origin, client_data_json, authenticator_data, signature,
            expected_challenge, credential_public_key, previous_sign_count, require_user_verification)->Ok_0.new_sign_count != 0,
    ensures
        ({
            let n = assertion_outcome(rp_id, origin, client_data_json, authenticator_data, signature,
                expected_challenge, credential_public_key, previous_sign_count, require_user_verification)->Ok_0.new_sign_count;
            assertion_outcome(rp_id, origin, client_data_json, authenticator_data, signature,
                expected_challenge, credential_public_key, n, require_user_verification)
                == Err::<AssertionOutcome, ErrorKind>(ErrorKind::SignCountRegression { stored: n, got: n })
        }),
{
}

/// An accepted assertion passed every check: the client data is a
/// `webauthn.get` for the expected challenge and origin, the rpIdHash is the
/// SHA-256 of the rp_id, UP is set (and UV where required, which the outcome
/// then reports), and the signature verifies under the stored key over
/// `authenticatorData || SHA-256(clientDataJSON)`.
pub proof fn lemma_accepted_assertion_passed_checks(
    rp_id: Seq<char>,
    origin: Seq<char>,
    client_data_json: Seq<u8>,
    authenticator_data: Seq<u8>,
    signature: Seq<u8>,
    expected_challenge: Seq<u8>,
    credential_public_key: CoseKeyView,
    previous_sign_count: u32,
    require_user_verification: bool,
)
    requires
        assertion_outcome(rp_id, origin, client_data_json, authenticator_data, signature,
            expected_challenge, credential_public_key, previous_sign_count, require_user_verification) is Ok,
    ensures
        client_data_from_bytes(client_data_json) is Ok,
        client_data_from_bytes(client_data_json)->Ok_0.ceremony_type == get_type(),
        base64url_decoding(client_data_from_bytes(client_data_json)->Ok_0.challenge) == Ok::<Seq<u8>, Seq<char>>(expected_challenge),
        client_data_from_bytes(client_data_json)->Ok_0.origin == origin,
        auth_data_from_bytes(authenticator_data) is Ok,
        auth_data_from_bytes(authenticator_data)->Ok_0.rp_id_hash == sha256_digest(utf8_bytes(rp_id)),
        flag_set(auth_data_from_bytes(authenticator_data)->Ok_0.flags, FLAG_UP),
        require_user_verification ==> flag_set(auth_data_from_bytes(authenticator_data)->Ok_0.flags, FLAG_UV),
        require_user_verification ==> assertion_outcome(rp_id, origin, client_data_json, authenticator_data, signature,
            expected_challenge, credential_public_key, previous_sign_count, require_user_verification)->Ok_0.user_verified,
        es256_signature_valid(sec1_encoding(credential_public_key), authenticator_data + sha256_digest(client_data_json), signature),
{
}

/// Dropping the user-verification requirement never turns an accepted
/// assertion into a rejected one, nor changes what it yields.
pub proof fn lemma_assertion_uv_requirement_only_narrows(
    rp_id: Seq<char>,
    origin: Seq<char>,
    client_data_json: Seq<u8>,
    authenticator_data: Seq<u8>,
    signature: Seq<u8>,
    expected_challenge: Seq<u8>,
    credential_public_key: CoseKeyView,
    previous_sign_count: u32,
)
    requires
        assertion_outcome(rp_id, origin, client_data_json, authenticator_data, signature,
            expected_challenge, credential_public_key, previous_sign_count, true) is Ok,
    ensures
        assertion_outcome(rp_id, origin, client_data_json, authenticator_data, signature,
            expected_challenge, credential_public_key, previous_sign_count, false)
            == assertion_outcome(rp_id, origin, client_data_json, authenticator_data, signature,
            expected_challenge, credential_public_key, previous_sign_count, true),
{
}

/// An assertion that passes every check is accepted, whatever its BE and BS
/// flags: the client data parses as a `webauthn.get` for the expected challenge
/// and `origin`; the authenticatorData parses, its first 32 bytes are the
/// SHA-256 of `rp_id`, UP is set in its flags byte (and UV where required); the
/// signature verifies under the stored key over
/// `authenticatorData || SHA-256(clientDataJSON)`; the counter advances (or
/// both counters are zero). The outcome is the counter in bytes 33..37 and the
/// UV and BS bits of the flags byte.
pub proof fn lemma_assertion_complete(
    rp_id: Seq<char>,
    origin: Seq<char>,
    client_data_json: Seq<u8>,
    authenticator_data: Seq<u8>,
    signature: Seq<u8>,
    expected_challenge: Seq<u8>,
    credential_public_key: CoseKeyView,
    previous_sign_count: u32,
    require_user_verification: bool,
)
    requires
        client_data_from_bytes(client_data_json) is Ok,
        client_data_from_bytes(client_data_json)->Ok_0.ceremony_type == "webauthn.get"@,
        base64url_decoding(client_data_from_bytes(client_data_json)->Ok_0.challenge)
            == Ok::<Seq<u8>, Seq<char>>(expected_challenge),
        client_data_from_bytes(client_data_json)->Ok_0.origin == origin,
        auth_data_from_bytes(authenticator_data) is Ok,
        authenticator_data.take(32) == sha256_digest(utf8_bytes(rp_id)),
        flag_set(authenticator_data[32], FLAG_UP),
        require_user_verification ==> flag_set(authenticator_data[32], FLAG_UV),
        es256_signature_valid(sec1_encoding(credential_public_key),
            authenticator_data + sha256_digest(client_data_json), signature),
        be_u32(authenticator_data, 33) > previous_sign_count
            || (be_u32(authenticator_data, 33) == 0 && previous_sign_count == 0),
    ensures
        assertion_outcome(rp_id, origin, client_data_json, authenticator_data, signature,
            expected_challenge, credential_public_key, previous_sign_count, require_user_verification)
            == Ok::<AssertionOutcome, ErrorKind>(AssertionOutcome {
                new_sign_count: be_u32(authenticator_data, 33) as u32,
                user_verified: flag_set(authenticator_data[32], FLAG_UV),
                backup_state: flag_set(authenticator_data[32], FLAG_BS),
            }),
{
    lemma_auth_data_layout(authenticator_data);
}

/// What an accepted assertion reports is read from the authenticatorData bytes:
/// the counter in bytes 33..37, and the UV and BS bits of the flags byte.
pub proof fn lemma_assertion_outcome_reads_flags(
    rp_id: Seq<char>,
    origin: Seq<char>,
    client_data_json: Seq<u8>,
    authenticator_data: Seq<u8>,
    signature: Seq<u8>,
    expected_challenge: Seq<u8>,
    credential_public_key: CoseKeyView,
    previous_sign_count: u32,
    require_user_verification: bool,
)
    requires
        assertion_outcome(rp_id, origin, client_data_json, authenticator_data, signature,
            expected_challenge, credential_public_key, previous_sign_count, require_user_verification) is Ok,
    ensures
        ({
            let o = assertion_outcome(rp_id, origin, client_data_json, authenticator_data, signature,
                expected_challenge, credential_public_key, previous_sign_count, require_user_verification)->Ok_0;
            &&& authenticator_data.len() >= 37
            &&& o.new_sign_count == be_u32(authenticator_data, 33)
            &&& o.user_verified == flag_set(authenticator_data[32], FLAG_UV)
            &&& o.backup_state == flag_set(authenticator_data[32], FLAG_BS)
        }),
{
    lemma_auth_data_layout(authenticator_data);
}

} // verus!
