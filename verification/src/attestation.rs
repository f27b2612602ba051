//! The attestationObject (WebAuthn 6.5) and the attestation statement formats
//! this relying party supports.
use vstd::prelude::*;
use vstd::slice::slice_to_vec;
use crate::auth_data::AttestedCredential;
use crate::bytes::{concat_bytes, text_equal};
use crate::cbor::{
    bytes_value, cbor_decoding, decode_cbor, find_text_key, int_value,
    last_text_key, lookup_text, text_value, CborValue,
};
use crate::cose::{sec1_encoding, CoseKeyView};
use crate::crypto::{es256_signature_valid, sha256, sha256_digest, verify_es256};
use crate::error::{agrees, Error, ErrorKind, Result};

verus! {

/// The error text for a `packed` statement that carries an x5c certificate chain.
pub const X5C_UNSUPPORTED: &'static str = "packed with x5c (basic/full attestation cert chain) is not yet implemented; use attestation none or packed self attestation";

/// The decoded attestationObject: the format tag, the raw authenticatorData
/// bytes, and the format-specific attestation statement.
pub struct AttestationObject {
    pub fmt: String,
    pub auth_data: Vec<u8>,
    pub att_stmt: CborValue,
}

/// An attestationObject with its text and bytes as sequences.
pub struct AttestationView {
    pub fmt: Seq<char>,
    pub auth_data: Seq<u8>,
    pub att_stmt: CborValue,
}

impl View for AttestationObject {
    type V = AttestationView;

    open spec fn view(&self) -> AttestationView {
        AttestationView { fmt: self.fmt@, auth_data: self.auth_data@, att_stmt: self.att_stmt }
    }
}

/// The value of the last map entry whose key is the text `name`.
pub open spec fn last_field(entries: Seq<(CborValue, CborValue)>, name: Seq<char>) -> Option<CborValue> {
    match last_text_key(entries, name, entries.len() as int) {
        Some(i) => Some(entries[i].1),
        None => None,
    }
}

/// An index found by a search, as an integer.
pub open spec fn found(i: Option<usize>) -> Option<int> {
    match i {
        Some(j) => Some(j as int),
        None => None,
    }
}

/// What a decoded attestationObject item gives: a map whose last `fmt` entry is
/// text and whose last `authData` entry is a byte string; the last `attStmt`
/// entry, or null where there is none, is the statement.
pub open spec fn attestation_from_item(item: CborValue) -> core::result::Result<AttestationView, ErrorKind> {
    match item {
        CborValue::Mapping(m) => {
            let e = m@;
            let fmt = match last_field(e, "fmt"@) { Some(v) => text_value(v), None => None };
            let auth = match last_field(e, "authData"@) { Some(v) => bytes_value(v), None => None };
            let stmt = match last_field(e, "attStmt"@) { Some(v) => v, None => CborValue::Null };
            match (fmt, auth) {
                (Some(f), Some(a)) => Ok(AttestationView { fmt: f, auth_data: a, att_stmt: stmt }),
                (None, _) => Err(ErrorKind::AttestationCbor(Some("missing fmt"@))),
                (_, None) => Err(ErrorKind::AttestationCbor(Some("missing authData"@))),
            }
        },
        _ => Err(ErrorKind::AttestationCbor(Some("attestationObject is not a map"@))),
    }
}

/// What attestationObject bytes give: the attestation object of the CBOR item
/// at their head.
pub open spec fn attestation_from_bytes(bytes: Seq<u8>) -> core::result::Result<AttestationView, ErrorKind> {
    match cbor_decoding(bytes) {
        Ok(item) => attestation_from_item(item),
        Err(text) => Err(ErrorKind::AttestationCbor(Some(text))),
    }
}

/// The `packed` self-attestation check: the statement is a map with integer
/// `alg` -7, a byte-string `sig` and no `x5c`, and `sig` is an ES256 signature
/// by the credential's own key over `authData || SHA-256(clientDataJSON)`.
pub open spec fn packed_check(
    stmt: CborValue,
    auth_data: Seq<u8>,
    key: CoseKeyView,
    client_data_json: Seq<u8>,
) -> core::result::Result<(), ErrorKind> {
    match stmt {
        CborValue::Mapping(m) => {
            let e = m@;
            let alg = match lookup_text(e, "alg"@) { Some(v) => int_value(v), None => None };
            let sig = match lookup_text(e, "sig"@) { Some(v) => bytes_value(v), None => None };
            match alg {
                Some(a) => if a != -7 {
                    Err(ErrorKind::AttestationStatement(Some("packed alg is not ES256 (-7)"@)))
                } else {
                    match sig {
                        Some(s) => if lookup_text(e, "x5c"@) is Some {
                            Err(ErrorKind::UnsupportedAttestation(X5C_UNSUPPORTED@))
                        } else if es256_signature_valid(
                            sec1_encoding(key),
                            auth_data + sha256_digest(client_data_json),
                            s,
                        ) {
                            Ok(())
                        } else {
                            Err(ErrorKind::BadSignature)
                        },
                        None => Err(ErrorKind::AttestationStatement(Some("missing sig"@))),
                    }
                },
                None => Err(ErrorKind::AttestationStatement(Some("missing or non-integer alg"@))),
            }
        },
        _ => Err(ErrorKind::AttestationStatement(Some("attStmt is not a map"@))),
    }
}

/// The attestation statement check for the formats supported: `none` passes,
/// `packed` goes through the self-attestation check, any other format fails.
pub open spec fn attestation_check(
    att: AttestationView,
    key: CoseKeyView,
    client_data_json: Seq<u8>,
) -> core::result::Result<(), ErrorKind> {
    if att.fmt == "none"@ {
        Ok(())
    } else if att.fmt == "packed"@ {
        packed_check(att.att_stmt, att.auth_data, key, client_data_json)
    } else {
        Err(ErrorKind::UnsupportedAttestation(att.fmt))
    }
}

/// Finds the last map entry whose key is the text `name`.
fn find_last_text_key(entries: &Vec<(CborValue, CborValue)>, name: &str) -> (res: Option<usize>)
    ensures
        found(res) == last_text_key(entries@, name@, entries@.len() as int),
        res matches Some(i) ==> i < entries@.len(),
{
    let mut last: Option<usize> = None;
    let mut i: usize = 0;
    while i < entries.len()
        invariant
            i <= entries@.len(),
            found(last) == last_text_key(entries@, name@, i as int),
            last matches Some(j) ==> j < i,
        decreases entries@.len() - i,
    {
        if entries[i].0.is_text(name) {
            last = Some(i);
        }
        i = i + 1;
    }
    last
}

impl AttestationObject {
    /// Parse an attestationObject.
    pub fn parse(bytes: &[u8]) -> (res: Result<Self>)
        ensures
            agrees(res, attestation_from_bytes(bytes@)),
    {
        match decode_cbor(bytes) {
            Ok(item) => Self::from_cbor(item),
            Err(text) => Err(Error::AttestationCbor(text)),
        }
    }

    /// Read the attestation object out of a decoded CBOR item.
    pub fn from_cbor(item: CborValue) -> (res: Result<Self>)
        ensures
            agrees(res, attestation_from_item(item)),
    {
        let mut entries = match item {
            CborValue::Mapping(m) => m,
            _ => {
                return Err(Error::AttestationCbor("attestationObject is not a map".to_owned()));
            },
        };
        let ghost e = entries@;
        let fmt_at = find_last_text_key(&entries, "fmt");
        let auth_at = find_last_text_key(&entries, "authData");
        let stmt_at = find_last_text_key(&entries, "attStmt");
        let fmt = match fmt_at {
            Some(j) => match entries[j].1.as_text() {
                Some(t) => Some(t.clone()),
                None => None,
            },
            None => None,
        };
        let auth_data = match auth_at {
            Some(j) => match entries[j].1.as_bytes() {
                Some(b) => Some(slice_to_vec(b.as_slice())),
                None => None,
            },
            None => None,
        };
        let att_stmt = match stmt_at {
            Some(j) => entries.remove(j).1,
            None => CborValue::Null,
        };
        assert(att_stmt == (match last_field(e, "attStmt"@) { Some(v) => v, None => CborValue::Null }));
        let fmt = match fmt {
            Some(f) => f,
            None => {
                return Err(Error::AttestationCbor("missing fmt".to_owned()));
            },
        };
        let auth_data = match auth_data {
            Some(a) => a,
            None => {
                return Err(Error::AttestationCbor("missing authData".to_owned()));
            },
        };
        Ok(AttestationObject { fmt, auth_data, att_stmt })
    }
}

/// Verify the attestation statement for the formats this crate supports.
///
/// - `none`: nothing to verify.
/// - `packed` self attestation: the sig is over `authData || clientDataHash`
///   with the credential's own key.
/// - `packed` with an x5c cert chain (basic/full attestation) is not
///   implemented and is refused.
pub fn verify_attestation(att: &AttestationObject, cred: &AttestedCredential, client_data_json: &[u8]) -> (res: Result<()>)
    ensures
        agrees(res, attestation_check(att@, cred.public_key@, client_data_json@)),
{
    if text_equal(att.fmt.as_str(), "none") {
        Ok(())
    } else if text_equal(att.fmt.as_str(), "packed") {
        verify_packed(att, cred, client_data_json)
    } else {
        Err(Error::UnsupportedAttestation(att.fmt.clone()))
    }
}

/// The value of the first statement entry whose key is the text `name`.
fn get<'a>(entries: &'a Vec<(CborValue, CborValue)>, name: &str) -> (res: Option<&'a CborValue>)
    ensures
        match res {
            Some(v) => lookup_text(entries@, name@) == Some(*v),
            None => lookup_text(entries@, name@) is None,
        },
{
    match find_text_key(entries, name) {
        Some(i) => Some(&entries[i].1),
        None => None,
    }
}

fn verify_packed(att: &AttestationObject, cred: &AttestedCredential, client_data_json: &[u8]) -> (res: Result<()>)
    ensures
        agrees(res, packed_check(att.att_stmt, att.auth_data@, cred.public_key@, client_data_json@)),
{
    let entries = match &att.att_stmt {
        CborValue::Mapping(m) => m,
        _ => {
            return Err(Error::AttestationStatement("attStmt is not a map".to_owned()));
        },
    };
    let alg = match get(entries, "alg") {
        Some(v) => v.as_integer(),
        None => None,
    };
    let alg = match alg {
        Some(a) => a,
        None => {
            return Err(Error::AttestationStatement("missing or non-integer alg".to_owned()));
        },
    };
    if alg != -7 {
        return Err(Error::AttestationStatement("packed alg is not ES256 (-7)".to_owned()));
    }
    let sig = match get(entries, "sig") {
        Some(v) => v.as_bytes(),
        None => None,
    };
    let sig = match sig {
        Some(s) => s,
        None => {
            return Err(Error::AttestationStatement("missing sig".to_owned()));
        },
    };
    if get(entries, "x5c").is_some() {
        return Err(Error::UnsupportedAttestation(X5C_UNSUPPORTED.to_owned()));
    }
    // Self attestation: verification data is authData || SHA-256(clientDataJSON),
    // signed by the credential's own key.
    let digest = sha256(client_data_json);
    let signed = concat_bytes(att.auth_data.as_slice(), &digest);
    verify_es256(&cred.public_key, signed.as_slice(), sig.as_slice())
}

/// Only `none` and `packed` self attestation can pass: any other format is
/// refused under its own name, and a `packed` statement that carries an x5c
/// certificate chain is refused as unsupported.
pub proof fn lemma_only_supported_formats_pass(att: AttestationView, key: CoseKeyView, client_data_json: Seq<u8>)
    ensures
        att.fmt != "none"@ && att.fmt != "packed"@ ==> attestation_check(att, key, client_data_json)
            == Err::<(), ErrorKind>(ErrorKind::UnsupportedAttestation(att.fmt)),
        (att.fmt == "packed"@ && (att.att_stmt matches CborValue::Mapping(m) && lookup_text(m@, "x5c"@) is Some))
            ==> attestation_check(att, key, client_data_json) is Err,
{
    reveal_strlit("none");
    reveal_strlit("packed");
    assert("none"@[0] != "packed"@[0]);
}

/// A `packed` statement that is a map with integer `alg` -7, a byte-string
/// `sig` and no `x5c` passes exactly when `sig` is a valid ES256 signature by
/// the credential's key over `authData || SHA-256(clientDataJSON)`: nothing
/// else, such as the flags inside authData, decides it.
pub proof fn lemma_packed_self_attestation_is_the_signature(
    att: AttestationView,
    key: CoseKeyView,
    client_data_json: Seq<u8>,
    sig: Seq<u8>,
)
    requires
        att.fmt == "packed"@,
        att.att_stmt matches CborValue::Mapping(m) && {
            &&& (lookup_text(m@, "alg"@) matches Some(v) && int_value(v) == Some(-7int))
            &&& (lookup_text(m@, "sig"@) matches Some(v) && bytes_value(v) == Some(sig))
            &&& lookup_text(m@, "x5c"@) is None
        },
    ensures
        attestation_check(att, key, client_data_json) is Ok
            <==> es256_signature_valid(sec1_encoding(key), att.auth_data + sha256_digest(client_data_json), sig),
{
    reveal_strlit("none");
    reveal_strlit("packed");
    assert("none"@[0] != "packed"@[0]);
}

/// Attestation `none` passes whatever the statement, the authData and the key.
pub proof fn lemma_none_attestation_passes(att: AttestationView, key: CoseKeyView, client_data_json: Seq<u8>)
    requires
        att.fmt == "none"@,
    ensures
        attestation_check(att, key, client_data_json) == Ok::<(), ErrorKind>(()),
{
}

} // verus!
