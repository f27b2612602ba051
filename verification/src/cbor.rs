//! CBOR data items as the ceremony parsers read them, and the decoder that
//! produces them.
use vstd::prelude::*;
use crate::bytes::text_equal;
use ciborium::value::Value as CiboriumValue;

verus! {

/// `ciborium::value::Value`, the decoder's data item, carried opaque.
#[verifier::external_type_specification]
#[verifier::external_body]
pub struct ExCiboriumValue(CiboriumValue);

/// One CBOR data item. Integers are held as `i128`, which covers every CBOR
/// integer; a floating-point item is kept only as the fact that it is one.
pub enum CborValue {
    Integer(i128),
    Bytes(Vec<u8>),
    Float,
    Text(String),
    Bool(bool),
    Null,
    Tag(u64, Box<CborValue>),
    Array(Vec<CborValue>),
    Mapping(Vec<(CborValue, CborValue)>),
    /// An item of a kind the decoder may add in later versions.
    Unknown,
}

/// What ciborium's `from_reader` makes of `bytes` decoding a value: the data
/// item at their head (bytes after that item are not looked at), or, where it
/// refuses them (no well-formed item starts there, or the item nests past its
/// limit), the text its error displays.
pub uninterp spec fn cbor_decoding(bytes: Seq<u8>) -> core::result::Result<CborValue, Seq<char>>;

/// Calls `ciborium::de::from_reader` into a `ciborium::value::Value` and hands
/// the item over as a `CborValue`, or the error as the text it displays.
/// Claimed: the outcome is the one `cbor_decoding` names for the bytes.
#[verifier::external_body]
pub(crate) fn decode_cbor(bytes: &[u8]) -> (res: core::result::Result<CborValue, String>)
    ensures
        match res {
            Ok(item) => cbor_decoding(bytes@) == Ok::<CborValue, Seq<char>>(item),
            Err(text) => cbor_decoding(bytes@) == Err::<CborValue, Seq<char>>(text@),
        },
{
    match ciborium::de::from_reader::<CiboriumValue, _>(bytes) {
        Ok(value) => Ok(cbor_from_ciborium(&value)),
        Err(e) => Err(e.to_string()),
    }
}

/// Moves a `ciborium::value::Value` over into a `CborValue`, variant for
/// variant; nothing is claimed of it beyond what `decode_cbor` states.
#[verifier::external_body]
fn cbor_from_ciborium(value: &CiboriumValue) -> CborValue {
    match value {
        CiboriumValue::Integer(i) => CborValue::Integer(i128::from(*i)),
        CiboriumValue::Bytes(b) => CborValue::Bytes(b.clone()),
        CiboriumValue::Float(_) => CborValue::Float,
        CiboriumValue::Text(t) => CborValue::Text(t.clone()),
        CiboriumValue::Bool(b) => CborValue::Bool(*b),
        CiboriumValue::Null => CborValue::Null,
        CiboriumValue::Tag(t, inner) => CborValue::Tag(*t, Box::new(cbor_from_ciborium(inner))),
        CiboriumValue::Array(items) => CborValue::Array(items.iter().map(cbor_from_ciborium).collect()),
        CiboriumValue::Map(m) => CborValue::Mapping(m.iter().map(|(k, v)| (cbor_from_ciborium(k), cbor_from_ciborium(v))).collect()),
        _ => CborValue::Unknown,
    }
}

/// The integer an item holds, if it is an integer.
pub open spec fn int_value(v: CborValue) -> Option<int> {
    match v {
        CborValue::Integer(i) => Some(i as int),
        _ => None,
    }
}

/// The bytes an item holds, if it is a byte string.
pub open spec fn bytes_value(v: CborValue) -> Option<Seq<u8>> {
    match v {
        CborValue::Bytes(b) => Some(b@),
        _ => None,
    }
}

/// The text an item holds, if it is a text string.
pub open spec fn text_value(v: CborValue) -> Option<Seq<char>> {
    match v {
        CborValue::Text(t) => Some(t@),
        _ => None,
    }
}

/// Index of the first map entry at or after `start` whose key is the integer `label`.
pub open spec fn first_int_key(entries: Seq<(CborValue, CborValue)>, label: int, start: int) -> Option<int>
    decreases entries.len() - start,
{
    if start < 0 || start >= entries.len() {
        None
    } else if int_value(entries[start].0) == Some(label) {
        Some(start)
    } else {
        first_int_key(entries, label, start + 1)
    }
}

/// Index of the first map entry at or after `start` whose key is the text `name`.
pub open spec fn first_text_key(entries: Seq<(CborValue, CborValue)>, name: Seq<char>, start: int) -> Option<int>
    decreases entries.len() - start,
{
    if start < 0 || start >= entries.len() {
        None
    } else if text_value(entries[start].0) == Some(name) {
        Some(start)
    } else {
        first_text_key(entries, name, start + 1)
    }
}

/// Index of the last entry among the first `n` whose key is the text `name`.
pub open spec fn last_text_key(entries: Seq<(CborValue, CborValue)>, name: Seq<char>, n: int) -> Option<int>
    decreases n,
{
    if n <= 0 || n > entries.len() {
        None
    } else if text_value(entries[n - 1].0) == Some(name) {
        Some(n - 1)
    } else {
        last_text_key(entries, name, n - 1)
    }
}

/// The value of the first entry whose key is the integer `label`.
pub open spec fn lookup_int(entries: Seq<(CborValue, CborValue)>, label: int) -> Option<CborValue> {
    match first_int_key(entries, label, 0) {
        Some(i) => Some(entries[i].1),
        None => None,
    }
}

/// The value of the first entry whose key is the text `name`.
pub open spec fn lookup_text(entries: Seq<(CborValue, CborValue)>, name: Seq<char>) -> Option<CborValue> {
    match first_text_key(entries, name, 0) {
        Some(i) => Some(entries[i].1),
        None => None,
    }
}

impl CborValue {
    /// The integer this item holds, if it is an integer.
    pub fn as_integer(&self) -> (res: Option<i128>)
        ensures
            match res {
                Some(i) => int_value(*self) == Some(i as int),
                None => int_value(*self) is None,
            },
    {
        match self {
            CborValue::Integer(i) => Some(*i),
            _ => None,
        }
    }

    /// The bytes this item holds, if it is a byte string.
    pub fn as_bytes(&self) -> (res: Option<&Vec<u8>>)
        ensures
            match res {
                Some(b) => bytes_value(*self) == Some(b@),
                None => bytes_value(*self) is None,
            },
    {
        match self {
            CborValue::Bytes(b) => Some(b),
            _ => None,
        }
    }

    /// The text this item holds, if it is a text string.
    pub fn as_text(&self) -> (res: Option<&String>)
        ensures
            match res {
                Some(t) => text_value(*self) == Some(t@),
                None => text_value(*self) is None,
            },
    {
        match self {
            CborValue::Text(t) => Some(t),
            _ => None,
        }
    }

    /// Whether this item is the text string `name`.
    pub fn is_text(&self, name: &str) -> (res: bool)
        ensures
            res == (text_value(*self) == Some(name@)),
    {
        match self {
            CborValue::Text(t) => text_equal(t.as_str(), name),
            _ => false,
        }
    }
}

/// Finds the first map entry whose key is the integer `label`.
pub fn find_int_key(entries: &Vec<(CborValue, CborValue)>, label: i128) -> (res: Option<usize>)
    ensures
        match res {
            Some(i) => first_int_key(entries@, label as int, 0) == Some(i as int) && i < entries@.len(),
            None => first_int_key(entries@, label as int, 0) is None,
        },
{
    let mut i: usize = 0;
    while i < entries.len()
        invariant
            i <= entries@.len(),
            first_int_key(entries@, label as int, 0) == first_int_key(entries@, label as int, i as int),
        decreases entries@.len() - i,
    {
        if entries[i].0.as_integer() == Some(label) {
            return Some(i);
        }
        i = i + 1;
    }
    None
}

/// Finds the first map entry whose key is the text `name`.
pub fn find_text_key(entries: &Vec<(CborValue, CborValue)>, name: &str) -> (res: Option<usize>)
    ensures
        match res {
            Some(i) => first_text_key(entries@, name@, 0) == Some(i as int) && i < entries@.len(),
            None => first_text_key(entries@, name@, 0) is None,
        },
{
    let mut i: usize = 0;
    while i < entries.len()
        invariant
            i <= entries@.len(),
            first_text_key(entries@, name@, 0) == first_text_key(entries@, name@, i as int),
        decreases entries@.len() - i,
    {
        if entries[i].0.is_text(name) {
            return Some(i);
        }
        i = i + 1;
    }
    None
}

} // verus!
