//! authenticatorData (WebAuthn 6.1): the fixed header, and the attested
//! credential data that registration carries after it.
use vstd::prelude::*;
use vstd::slice::{slice_subrange, slice_to_vec};
use crate::bytes::{array_from, bytes_equal};
use crate::cose::{cose_key_from_bytes, CoseEs256Key, CoseKeyView};
use crate::error::{agrees, Error, ErrorKind, Result};

verus! {

/// User Present.
pub const FLAG_UP: u8 = 0x01;
/// User Verified.
pub const FLAG_UV: u8 = 0x04;
/// Backup Eligible.
pub const FLAG_BE: u8 = 0x08;
/// Backup State (currently backed up).
pub const FLAG_BS: u8 = 0x10;
/// Attested credential data present.
pub const FLAG_AT: u8 = 0x40;

/// Parsed authenticatorData. Present in both ceremonies; only registration
/// carries the attested credential data.
pub struct AuthenticatorData {
    pub rp_id_hash: [u8; 32],
    pub flags: u8,
    pub sign_count: u32,
    pub attested_credential: Option<AttestedCredential>,
}

/// The credential minted during registration: its id, the authenticator's
/// AAGUID, and its ES256 public key.
pub struct AttestedCredential {
    pub aaguid: [u8; 16],
    pub credential_id: Vec<u8>,
    pub public_key: CoseEs256Key,
}

/// The attested credential data as byte strings.
pub struct AttestedView {
    pub aaguid: Seq<u8>,
    pub credential_id: Seq<u8>,
    pub public_key: CoseKeyView,
}

/// authenticatorData as byte strings and numbers.
pub struct AuthDataView {
    pub rp_id_hash: Seq<u8>,
    pub flags: u8,
    pub sign_count: u32,
    pub attested_credential: Option<AttestedView>,
}

impl View for AttestedCredential {
    type V = AttestedView;

    open spec fn view(&self) -> AttestedView {
        AttestedView { aaguid: self.aaguid@, credential_id: self.credential_id@, public_key: self.public_key@ }
    }
}

impl View for AuthenticatorData {
    type V = AuthDataView;

    open spec fn view(&self) -> AuthDataView {
        AuthDataView {
            rp_id_hash: self.rp_id_hash@,
            flags: self.flags,
            sign_count: self.sign_count,
            attested_credential: match self.attested_credential {
                Some(c) => Some(c@),
                None => None,
            },
        }
    }
}

/// The big-endian unsigned integer in the four bytes of `b` from `at`.
pub open spec fn be_u32(b: Seq<u8>, at: int) -> int {
    b[at] * 16777216 + b[at + 1] * 65536 + b[at + 2] * 256 + b[at + 3]
}

/// The big-endian unsigned integer in the two bytes of `b` from `at`.
pub open spec fn be_u16(b: Seq<u8>, at: int) -> int {
    b[at] * 256 + b[at + 1]
}

/// Whether the flag bit `flag` is set in `flags`.
pub open spec fn flag_set(flags: u8, flag: u8) -> bool {
    flags & flag != 0
}

/// The checks on parsed authenticatorData shared by both ceremonies, in order:
/// the rpIdHash is the expected one, the UP flag is set, and the UV flag is set
/// where user verification is required.
pub open spec fn authenticator_check(
    auth: AuthDataView,
    expected_rp_id_hash: Seq<u8>,
    require_user_verification: bool,
) -> core::result::Result<(), ErrorKind> {
    if auth.rp_id_hash != expected_rp_id_hash {
        Err(ErrorKind::RpIdHashMismatch)
    } else if !flag_set(auth.flags, FLAG_UP) {
        Err(ErrorKind::UserNotPresent)
    } else if require_user_verification && !flag_set(auth.flags, FLAG_UV) {
        Err(ErrorKind::UserNotVerified)
    } else {
        Ok(())
    }
}

/// What the attested credential data `rest` gives: a 16-byte AAGUID, a 2-byte
/// big-endian length `L`, a credential id of `L` bytes, and the COSE key at the
/// head of what follows.
pub open spec fn attested_from_bytes(rest: Seq<u8>) -> core::result::Result<AttestedView, ErrorKind> {
    if rest.len() < 18 {
        Err(ErrorKind::AuthData(Some("attested credential data is truncated"@)))
    } else {
        let id_len = be_u16(rest, 16);
        let after_len = rest.skip(18);
        if after_len.len() < id_len {
            Err(ErrorKind::AuthData(Some("credential id length exceeds the buffer"@)))
        } else {
            match cose_key_from_bytes(after_len.skip(id_len)) {
                Ok(key) => Ok(AttestedView {
                    aaguid: rest.take(16),
                    credential_id: after_len.take(id_len),
                    public_key: key,
                }),
                Err(k) => Err(k),
            }
        }
    }
}

/// What authenticatorData bytes give: the 32-byte rpIdHash, the flags byte, the
/// big-endian signature counter, and, where the AT flag is set, the attested
/// credential data after these 37 bytes.
pub open spec fn auth_data_from_bytes(data: Seq<u8>) -> core::result::Result<AuthDataView, ErrorKind> {
    if data.len() < 37 {
        Err(ErrorKind::AuthData(Some("shorter than the 37-byte header"@)))
    } else {
        let header = AuthDataView {
            rp_id_hash: data.take(32),
            flags: data[32],
            sign_count: be_u32(data, 33) as u32,
            attested_credential: None,
        };
        if flag_set(data[32], FLAG_AT) {
            match attested_from_bytes(data.skip(37)) {
                Ok(c) => Ok(AuthDataView { attested_credential: Some(c), ..header }),
                Err(k) => Err(k),
            }
        } else {
            Ok(header)
        }
    }
}

impl AuthenticatorData {
    pub fn user_present(&self) -> (res: bool)
        ensures
            res == flag_set(self.flags, FLAG_UP),
    {
        self.flags & FLAG_UP != 0
    }

    pub fn user_verified(&self) -> (res: bool)
        ensures
            res == flag_set(self.flags, FLAG_UV),
    {
        self.flags & FLAG_UV != 0
    }

    pub fn backup_eligible(&self) -> (res: bool)
        ensures
            res == flag_set(self.flags, FLAG_BE),
    {
        self.flags & FLAG_BE != 0
    }

    pub fn backup_state(&self) -> (res: bool)
        ensures
            res == flag_set(self.flags, FLAG_BS),
    {
        self.flags & FLAG_BS != 0
    }

    /// Check the rpIdHash against `expected_rp_id_hash` (the SHA-256 of the
    /// configured rp_id), then the UP flag, then the UV flag where required.
    pub fn check(&self, expected_rp_id_hash: &[u8], require_user_verification: bool) -> (res: Result<()>)
        ensures
            agrees(res, authenticator_check(self@, expected_rp_id_hash@, require_user_verification)),
    {
        if !bytes_equal(&self.rp_id_hash, expected_rp_id_hash) {
            return Err(Error::RpIdHashMismatch);
        }
        if !self.user_present() {
            return Err(Error::UserNotPresent);
        }
        if require_user_verification && !self.user_verified() {
            return Err(Error::UserNotVerified);
        }
        Ok(())
    }

    /// Parse the fixed 37-byte header and, if the AT flag is set, the attested
    /// credential data that follows.
    pub fn parse(data: &[u8]) -> (res: Result<Self>)
        ensures
            agrees(res, auth_data_from_bytes(data@)),
    {
        if data.len() < 37 {
            return Err(Error::AuthData("shorter than the 37-byte header".to_owned()));
        }
        let rp_id_hash: [u8; 32] = array_from(data, 0);
        let flags = data[32];
        let sign_count = (data[33] as u32) * 16777216 + (data[34] as u32) * 65536
            + (data[35] as u32) * 256 + (data[36] as u32);
        let rest = slice_subrange(data, 37, data.len());

        let attested_credential = if flags & FLAG_AT != 0 {
            Some(parse_attested(rest)?)
        } else {
            None
        };
        let res = AuthenticatorData { rp_id_hash, flags, sign_count, attested_credential };
        assert(data@.subrange(0, 32) =~= data@.take(32));
        assert(rest@ =~= data@.skip(37));
        Ok(res)
    }
}

/// Parse the attested credential data.
fn parse_attested(rest: &[u8]) -> (res: Result<AttestedCredential>)
    ensures
        agrees(res, attested_from_bytes(rest@)),
{
    if rest.len() < 18 {
        return Err(Error::AuthData("attested credential data is truncated".to_owned()));
    }
    let aaguid: [u8; 16] = array_from(rest, 0);
    let id_len = (rest[16] as usize) * 256 + (rest[17] as usize);
    let after_len = slice_subrange(rest, 18, rest.len());
    if after_len.len() < id_len {
        return Err(Error::AuthData("credential id length exceeds the buffer".to_owned()));
    }
    let credential_id = slice_to_vec(slice_subrange(after_len, 0, id_len));
    // The COSE key is the next CBOR item. When the ED flag is also set,
    // extension data follows the key; the decoder reads exactly one item from
    // the head, which is all that is needed.
    let key_bytes = slice_subrange(after_len, id_len, after_len.len());
    let public_key = CoseEs256Key::from_cose_bytes(key_bytes)?;
    assert(rest@.subrange(0, 16) =~= rest@.take(16));
    assert(after_len@ =~= rest@.skip(18));
    assert(key_bytes@ =~= rest@.skip(18).skip(id_len as int));
    assert(credential_id@ =~= rest@.skip(18).take(id_len as int));
    Ok(AttestedCredential { aaguid, credential_id, public_key })
}

/// Parsed authenticatorData reads its header from the first 37 bytes, and it
/// carries attested credential data exactly when the AT flag is set.
pub proof fn lemma_auth_data_layout(data: Seq<u8>)
    requires
        auth_data_from_bytes(data) is Ok,
    ensures
        data.len() >= 37,
        auth_data_from_bytes(data)->Ok_0.rp_id_hash == data.take(32),
        auth_data_from_bytes(data)->Ok_0.flags == data[32],
        auth_data_from_bytes(data)->Ok_0.sign_count == be_u32(data, 33),
        auth_data_from_bytes(data)->Ok_0.attested_credential is Some <==> flag_set(data[32], FLAG_AT),
{
}

/// With the AT flag set and a credential id of length `L` (bytes 53 and 54,
/// big-endian) within the bytes, the COSE key parse of what follows the
/// credential id decides the result: its error comes back unchanged, and its
/// key is the credential's, with the AAGUID and credential id taken from the
/// bytes.
pub proof fn lemma_cose_key_outcome_propagates(data: Seq<u8>)
    requires
        data.len() >= 55,
        flag_set(data[32], FLAG_AT),
        data.len() >= 55 + be_u16(data, 53),
    ensures
        match cose_key_from_bytes(data.skip(55 + be_u16(data, 53))) {
            Err(k) => auth_data_from_bytes(data) == Err::<AuthDataView, ErrorKind>(k),
            Ok(key) => auth_data_from_bytes(data) is Ok
                && auth_data_from_bytes(data)->Ok_0.attested_credential == Some(AttestedView {
                    aaguid: data.subrange(37, 53),
                    credential_id: data.subrange(55, 55 + be_u16(data, 53)),
                    public_key: key,
                }),
        },
{
    let rest = data.skip(37);
    let len = be_u16(data, 53);
    assert(be_u16(rest, 16) == len);
    assert(rest.skip(18).skip(len) =~= data.skip(55 + len));
    assert(rest.take(16) =~= data.subrange(37, 53));
    assert(rest.skip(18).take(len) =~= data.subrange(55, 55 + len));
}

} // verus!
