//! The ES256 credential public key and its COSE_Key encoding (RFC 8152).
use vstd::prelude::*;
use crate::bytes::array_from;
use crate::cbor::{
    bytes_value, cbor_decoding, decode_cbor, find_int_key, int_value,
    lookup_int, CborValue,
};
use crate::error::{agrees, Error, ErrorKind, Result};

verus! {

/// An ES256 (ECDSA over NIST P-256) public key: the only credential algorithm
/// this relying party supports.
///
/// The `x` and `y` fields are the affine coordinates of the public point. Store
/// them alongside the credential id after registration; you hand this back at
/// assertion time.
#[derive(Clone, Debug, PartialEq, Eq)]
pub struct CoseEs256Key {
    /// The x coordinate of the public point (32 bytes, big-endian).
    pub x: [u8; 32],
    /// The y coordinate of the public point (32 bytes, big-endian).
    pub y: [u8; 32],
}

/// The two coordinates of a key.
pub struct CoseKeyView {
    pub x: Seq<u8>,
    pub y: Seq<u8>,
}

impl View for CoseEs256Key {
    type V = CoseKeyView;

    open spec fn view(&self) -> CoseKeyView {
        CoseKeyView { x: self.x@, y: self.y@ }
    }
}

/// The SEC1 uncompressed encoding of a key: `0x04 || x || y`.
pub open spec fn sec1_encoding(key: CoseKeyView) -> Seq<u8> {
    seq![4u8] + key.x + key.y
}

/// The key parameter `label` must be the integer `expected`. `None` where it is;
/// otherwise the failure: a parameter that is absent or not an integer is a
/// malformed key, another integer is an unsupported key.
pub open spec fn param_failure(entries: Seq<(CborValue, CborValue)>, label: int, expected: int, missing: Seq<char>) -> Option<ErrorKind> {
    match lookup_int(entries, label) {
        Some(v) => match int_value(v) {
            Some(n) => if n == expected {
                None
            } else {
                Some(ErrorKind::UnsupportedKey)
            },
            None => Some(ErrorKind::CoseKey(Some(missing))),
        },
        None => Some(ErrorKind::CoseKey(Some(missing))),
    }
}

/// The byte string under the key parameter `label`, if there is one.
pub open spec fn coordinate(entries: Seq<(CborValue, CborValue)>, label: int) -> Option<Seq<u8>> {
    match lookup_int(entries, label) {
        Some(v) => bytes_value(v),
        None => None,
    }
}

/// What a decoded COSE_Key item gives: an EC2 (kty 2) ES256 (alg -7) P-256
/// (crv 1) key with 32-byte x (-2) and y (-3) coordinates, checked in that order.
pub open spec fn cose_key_from_item(item: CborValue) -> core::result::Result<CoseKeyView, ErrorKind> {
    match item {
        CborValue::Mapping(m) => {
            let e = m@;
            match param_failure(e, 1, 2, "missing kty"@) {
                Some(k) => Err(k),
                None => match param_failure(e, 3, -7, "missing alg"@) {
                    Some(k) => Err(k),
                    None => match param_failure(e, -1, 1, "missing crv"@) {
                        Some(k) => Err(k),
                        None => match (coordinate(e, -2), coordinate(e, -3)) {
                            (Some(x), Some(y)) => if x.len() == 32 && y.len() == 32 {
                                Ok(CoseKeyView { x, y })
                            } else {
                                Err(ErrorKind::CoseKey(Some("EC coordinate is not 32 bytes"@)))
                            },
                            (None, _) => Err(ErrorKind::CoseKey(Some("missing x coordinate"@))),
                            (_, None) => Err(ErrorKind::CoseKey(Some("missing y coordinate"@))),
                        },
                    },
                },
            }
        },
        _ => Err(ErrorKind::CoseKey(Some("credentialPublicKey is not a CBOR map"@))),
    }
}

/// What COSE_Key bytes give: the key of the CBOR item at their head.
pub open spec fn cose_key_from_bytes(bytes: Seq<u8>) -> core::result::Result<CoseKeyView, ErrorKind> {
    match cbor_decoding(bytes) {
        Ok(item) => cose_key_from_item(item),
        Err(text) => Err(ErrorKind::CoseKey(Some(text))),
    }
}

impl CoseEs256Key {
    /// The SEC1 uncompressed encoding: `0x04 || x || y` (65 bytes).
    pub fn to_sec1_uncompressed(&self) -> (out: [u8; 65])
        ensures
            out@ == sec1_encoding(self@),
    {
        let mut out = [0u8; 65];
        out[0] = 0x04;
        let mut i: usize = 0;
        while i < 32
            invariant
                i <= 32,
                out@.len() == 65,
                out@[0] == 4u8,
                forall|j: int| 0 <= j < i ==> out@[1 + j] == self.x@[j] && out@[33 + j] == self.y@[j],
            decreases 32 - i,
        {
            out[1 + i] = self.x[i];
            out[33 + i] = self.y[i];
            i = i + 1;
        }
        assert(out@ =~= sec1_encoding(self@));
        out
    }

    /// Parse a COSE_Key from the raw credentialPublicKey CBOR bytes found in the
    /// attested credential data. Rejects anything that is not an ES256 / P-256 key.
    pub fn from_cose_bytes(bytes: &[u8]) -> (res: Result<Self>)
        ensures
            agrees(res, cose_key_from_bytes(bytes@)),
    {
        match decode_cbor(bytes) {
            Ok(item) => Self::from_cose_value(&item),
            Err(text) => Err(Error::CoseKey(text)),
        }
    }

    /// Read the key out of a decoded COSE_Key item.
    pub fn from_cose_value(item: &CborValue) -> (res: Result<Self>)
        ensures
            agrees(res, cose_key_from_item(*item)),
    {
        let entries = match item {
            CborValue::Mapping(m) => m,
            _ => {
                return Err(Error::CoseKey("credentialPublicKey is not a CBOR map".to_owned()));
            },
        };
        // kty (label 1) must be EC2 (2).
        require_param(entries, 1, 2, "missing kty")?;
        // alg (label 3) must be ES256 (-7).
        require_param(entries, 3, -7, "missing alg")?;
        // crv (label -1) must be P-256 (1).
        require_param(entries, -1, 1, "missing crv")?;
        let x = match get(entries, -2) {
            Some(v) => bytes_of(v),
            None => None,
        };
        let x = match x {
            Some(x) => x,
            None => {
                return Err(Error::CoseKey("missing x coordinate".to_owned()));
            },
        };
        let y = match get(entries, -3) {
            Some(v) => bytes_of(v),
            None => None,
        };
        let y = match y {
            Some(y) => y,
            None => {
                return Err(Error::CoseKey("missing y coordinate".to_owned()));
            },
        };
        let x = to_32(x)?;
        let y = to_32(y)?;
        Ok(CoseEs256Key { x, y })
    }
}

/// The value of the first entry whose key is the integer `label`.
fn get(entries: &Vec<(CborValue, CborValue)>, label: i128) -> (res: Option<&CborValue>)
    ensures
        match res {
            Some(v) => lookup_int(entries@, label as int) == Some(*v),
            None => lookup_int(entries@, label as int) is None,
        },
{
    match find_int_key(entries, label) {
        Some(i) => Some(&entries[i].1),
        None => None,
    }
}

/// Check that the key parameter `label` is the integer `expected`.
fn require_param(entries: &Vec<(CborValue, CborValue)>, label: i128, expected: i128, missing: &str) -> (res: Result<()>)
    ensures
        match param_failure(entries@, label as int, expected as int, missing@) {
            None => res is Ok,
            Some(k) => res matches Err(e) && e.kind() == k,
        },
{
    match get(entries, label) {
        Some(v) => match int_of(v) {
            Some(n) => if n == expected {
                Ok(())
            } else {
                Err(Error::UnsupportedKey)
            },
            None => Err(Error::CoseKey(missing.to_owned())),
        },
        None => Err(Error::CoseKey(missing.to_owned())),
    }
}

/// The integer an item holds, if it is an integer.
fn int_of(v: &CborValue) -> (res: Option<i128>)
    ensures
        match res {
            Some(i) => int_value(*v) == Some(i as int),
            None => int_value(*v) is None,
        },
{
    match v {
        CborValue::Integer(i) => Some(*i),
        _ => None,
    }
}

/// The bytes an item holds, if it is a byte string.
fn bytes_of(v: &CborValue) -> (res: Option<&[u8]>)
    ensures
        match res {
            Some(b) => bytes_value(*v) == Some(b@),
            None => bytes_value(*v) is None,
        },
{
    match v {
        CborValue::Bytes(b) => Some(b.as_slice()),
        _ => None,
    }
}

/// A 32-byte coordinate, or a malformed-key error for any other length.
fn to_32(b: &[u8]) -> (res: Result<[u8; 32]>)
    ensures
        match res {
            Ok(a) => b@.len() == 32 && a@ == b@,
            Err(e) => b@.len() != 32 && e.kind() == ErrorKind::CoseKey(Some("EC coordinate is not 32 bytes"@)),
        },
{
    if b.len() != 32 {
        return Err(Error::CoseKey("EC coordinate is not 32 bytes".to_owned()));
    }
    let a: [u8; 32] = array_from(b, 0);
    assert(b@.subrange(0, 32) =~= b@);
    Ok(a)
}

/// A COSE key that is accepted is an EC2 key for ES256 on P-256: its kty is 2,
/// its alg -7, its crv 1, and its coordinates are the 32-byte x and y it holds.
pub proof fn lemma_accepted_key_is_es256(item: CborValue)
    requires
        cose_key_from_item(item) is Ok,
    ensures
        item matches CborValue::Mapping(m) && {
            let e = m@;
            let key = cose_key_from_item(item)->Ok_0;
            &&& (lookup_int(e, 1) matches Some(v) && int_value(v) == Some(2int))
            &&& (lookup_int(e, 3) matches Some(v) && int_value(v) == Some(-7int))
            &&& (lookup_int(e, -1) matches Some(v) && int_value(v) == Some(1int))
            &&& coordinate(e, -2) == Some(key.x) && key.x.len() == 32
            &&& coordinate(e, -3) == Some(key.y) && key.y.len() == 32
        },
{
}

/// Every COSE_Key map that names an EC2 key (first kty 2) for ES256 (first alg
/// -7) on P-256 (first crv 1), with 32-byte byte strings as its first x (-2) and
/// y (-3), is accepted, and the key is exactly those x and y: no other property
/// of the coordinates' bytes is checked.
pub proof fn lemma_well_formed_key_accepted(m: Vec<(CborValue, CborValue)>, x: Seq<u8>, y: Seq<u8>)
    requires
        lookup_int(m@, 1) matches Some(v) && int_value(v) == Some(2int),
        lookup_int(m@, 3) matches Some(v) && int_value(v) == Some(-7int),
        lookup_int(m@, -1) matches Some(v) && int_value(v) == Some(1int),
        lookup_int(m@, -2) matches Some(v) && bytes_value(v) == Some(x),
        lookup_int(m@, -3) matches Some(v) && bytes_value(v) == Some(y),
        x.len() == 32,
        y.len() == 32,
    ensures
        cose_key_from_item(CborValue::Mapping(m)) == Ok::<CoseKeyView, ErrorKind>(CoseKeyView { x, y }),
{
}

} // verus!
