//! The CollectedClientData (WebAuthn 5.8.1) the browser hands back, JSON-encoded
//! in the response's clientDataJSON.
use vstd::prelude::*;
use vstd::slice::slice_subrange;
use crate::bytes::{bytes_equal, text_equal};
use crate::encoding::{base64url_decoding, decode_base64url};
use crate::error::{agrees, Error, ErrorKind, Result};
use crate::json::{
    check_json, decode_json_string, find_layout, json_shape, json_skipping,
    json_string_value, element_spans, elements_within, member_spans, members_within,
    JsonLayout, JsonShape,
};

verus! {

/// The three fields of the client data that the ceremony checks read. The JSON
/// may carry other members (crossOrigin, tokenBinding, topOrigin, ...); they are
/// skipped unread.
pub struct CollectedClientData {
    pub ceremony_type: String,
    pub challenge: String,
    pub origin: String,
}

/// The client data as text.
pub struct ClientDataView {
    pub ceremony_type: Seq<char>,
    pub challenge: Seq<char>,
    pub origin: Seq<char>,
}

impl View for CollectedClientData {
    type V = ClientDataView;

    open spec fn view(&self) -> ClientDataView {
        ClientDataView {
            ceremony_type: self.ceremony_type@,
            challenge: self.challenge@,
            origin: self.origin@,
        }
    }
}

/// The string that the token at `span` in `b` holds, decoded.
pub open spec fn token_text(b: Seq<u8>, span: (int, int)) -> Option<Seq<char>> {
    json_string_value(b.subrange(span.0, span.1))
}

/// The decoded key of a member.
pub open spec fn member_key(b: Seq<u8>, m: (int, int, int, int)) -> Option<Seq<char>> {
    token_text(b, (m.0, m.1))
}

/// The decoded string value of a member.
pub open spec fn member_text(b: Seq<u8>, m: (int, int, int, int)) -> Option<Seq<char>> {
    token_text(b, (m.2, m.3))
}

/// How often a field occurs among members: not at all, once (at that index), or
/// more than once.
pub enum FieldScan {
    Absent,
    Found(usize),
    Repeated,
}

/// The occurrences of the key `name` among the first `n` members.
pub open spec fn field_scan(b: Seq<u8>, ms: Seq<(int, int, int, int)>, name: Seq<char>, n: int) -> FieldScan
    decreases n,
{
    if n <= 0 {
        FieldScan::Absent
    } else {
        let prev = field_scan(b, ms, name, n - 1);
        if member_key(b, ms[n - 1]) == Some(name) {
            match prev {
                FieldScan::Absent => FieldScan::Found((n - 1) as usize),
                _ => FieldScan::Repeated,
            }
        } else {
            prev
        }
    }
}

/// The value of a field whose occurrences are `scan`: the string it holds where
/// it occurs once, otherwise the message for its absence, its repetition, or a
/// value that is not a string.
pub open spec fn scan_result(
    b: Seq<u8>,
    ms: Seq<(int, int, int, int)>,
    scan: FieldScan,
    missing: Seq<char>,
    repeated: Seq<char>,
) -> core::result::Result<Seq<char>, Seq<char>> {
    match scan {
        FieldScan::Found(j) => match member_text(b, ms[j as int]) {
            Some(s) => Ok(s),
            None => Err("invalid type: expected a string"@),
        },
        FieldScan::Absent => Err(missing),
        FieldScan::Repeated => Err(repeated),
    }
}

/// The value of the field `name` among the members.
pub open spec fn object_field(
    b: Seq<u8>,
    ms: Seq<(int, int, int, int)>,
    name: Seq<char>,
    missing: Seq<char>,
    repeated: Seq<char>,
) -> core::result::Result<Seq<char>, Seq<char>> {
    scan_result(b, ms, field_scan(b, ms, name, ms.len() as int), missing, repeated)
}

/// Every member's key is a string that decodes.
pub open spec fn keys_decode(b: Seq<u8>, ms: Seq<(int, int, int, int)>) -> bool {
    forall|j: int| 0 <= j < ms.len() ==> (#[trigger] member_key(b, ms[j])) is Some
}

/// The client data a JSON object holds: every key decodes, and `type`,
/// `challenge` and `origin` each occur once with a string value; other members
/// are skipped. Otherwise the message of the first check that fails, in that
/// order.
pub open spec fn client_data_from_members(b: Seq<u8>, ms: Seq<(int, int, int, int)>) -> core::result::Result<ClientDataView, Seq<char>> {
    if !keys_decode(b, ms) {
        Err("key must be a string"@)
    } else {
        match object_field(b, ms, "type"@, "missing field `type`"@, "duplicate field `type`"@) {
            Err(m) => Err(m),
            Ok(t) => match object_field(b, ms, "challenge"@, "missing field `challenge`"@, "duplicate field `challenge`"@) {
                Err(m) => Err(m),
                Ok(c) => match object_field(b, ms, "origin"@, "missing field `origin`"@, "duplicate field `origin`"@) {
                    Err(m) => Err(m),
                    Ok(o) => Ok(ClientDataView { ceremony_type: t, challenge: c, origin: o }),
                },
            },
        }
    }
}

/// The client data a JSON array holds: exactly three strings, the type, the
/// challenge and the origin in that order. Otherwise the message of the first
/// check that fails.
pub open spec fn client_data_from_elements(b: Seq<u8>, es: Seq<(int, int)>) -> core::result::Result<ClientDataView, Seq<char>> {
    if es.len() != 3 {
        Err("invalid length, expected 3 elements"@)
    } else {
        match (token_text(b, es[0]), token_text(b, es[1]), token_text(b, es[2])) {
            (Some(t), Some(c), Some(o)) => Ok(ClientDataView { ceremony_type: t, challenge: c, origin: o }),
            _ => Err("invalid type: expected a string"@),
        }
    }
}

/// What clientDataJSON bytes give: where they are one well-formed JSON text, the
/// client data its outermost object or array holds. Every failure is a
/// `ClientDataJson` error: with serde_json's message where it finds the text
/// malformed, otherwise with the message of the check that fails.
pub open spec fn client_data_from_bytes(bytes: Seq<u8>) -> core::result::Result<ClientDataView, ErrorKind> {
    let found = match json_skipping(bytes) {
        Err(m) => Err(m),
        Ok(_) => match json_shape(bytes) {
            JsonShape::Object(ms) => client_data_from_members(bytes, ms),
            JsonShape::Array(es) => client_data_from_elements(bytes, es),
            JsonShape::Other => Err("invalid type: expected an object"@),
        },
    };
    match found {
        Ok(c) => Ok(c),
        Err(m) => Err(ErrorKind::ClientDataJson(Some(m))),
    }
}

/// The challenge and origin checks, given the bytes the challenge field decodes to.
pub open spec fn challenge_and_origin_check(
    client: ClientDataView,
    decoded_challenge: Seq<u8>,
    expected_challenge: Seq<u8>,
    expected_origin: Seq<char>,
) -> core::result::Result<(), ErrorKind> {
    if decoded_challenge != expected_challenge {
        Err(ErrorKind::ChallengeMismatch)
    } else if client.origin != expected_origin {
        Err(ErrorKind::OriginMismatch { expected: expected_origin, got: client.origin })
    } else {
        Ok(())
    }
}

/// The checks that bind client data to a ceremony, in order: the type string,
/// the (base64url) challenge, and the origin.
pub open spec fn client_data_check(
    client: ClientDataView,
    expected_type: Seq<char>,
    expected_challenge: Seq<u8>,
    expected_origin: Seq<char>,
) -> core::result::Result<(), ErrorKind> {
    if client.ceremony_type != expected_type {
        Err(ErrorKind::TypeMismatch { expected: expected_type, got: client.ceremony_type })
    } else {
        match base64url_decoding(client.challenge) {
            Ok(decoded) => challenge_and_origin_check(client, decoded, expected_challenge, expected_origin),
            Err(text) => Err(ErrorKind::Base64(Some(text))),
        }
    }
}

/// Decodes the string token at `start..end` of `b`.
fn decode_span(b: &[u8], start: usize, end: usize) -> (res: Option<String>)
    requires
        start <= end <= b@.len(),
    ensures
        res is Some <==> token_text(b@, (start as int, end as int)) is Some,
        res matches Some(s) ==> token_text(b@, (start as int, end as int)) == Some(s@),
{
    decode_json_string(slice_subrange(b, start, end))
}

/// The occurrences of a field after one more member, which has it or not.
fn scan_step(prev: FieldScan, hit: bool, j: usize) -> (res: FieldScan)
    ensures
        res == (if hit {
            match prev {
                FieldScan::Absent => FieldScan::Found(j),
                _ => FieldScan::Repeated,
            }
        } else {
            prev
        }),
{
    if !hit {
        prev
    } else {
        match prev {
            FieldScan::Absent => FieldScan::Found(j),
            _ => FieldScan::Repeated,
        }
    }
}

/// The string value of the field whose occurrences are `scan`.
fn field_value(b: &[u8], ms: &Vec<(usize, usize, usize, usize)>, scan: FieldScan, absent: &str, repeated: &str) -> (res: Result<String>)
    requires
        members_within(ms@, b@.len() as int),
        scan matches FieldScan::Found(j) ==> j < ms@.len(),
    ensures
        match (res, scan_result(b@, member_spans(ms@), scan, absent@, repeated@)) {
            (Ok(r), Ok(s)) => r@ == s,
            (Err(e), Err(m)) => e.kind() == ErrorKind::ClientDataJson(Some(m)),
            _ => false,
        },
{
    match scan {
        FieldScan::Found(j) => {
            let (_, _, vs, ve) = ms[j];
            match decode_span(b, vs, ve) {
                Some(s) => Ok(s),
                None => Err(Error::ClientDataJson("invalid type: expected a string".to_owned())),
            }
        },
        FieldScan::Absent => Err(Error::ClientDataJson(absent.to_owned())),
        FieldScan::Repeated => Err(Error::ClientDataJson(repeated.to_owned())),
    }
}

/// Reads the client data out of the members of the outermost object.
fn client_data_of_members(b: &[u8], ms: &Vec<(usize, usize, usize, usize)>) -> (res: Result<CollectedClientData>)
    requires
        members_within(ms@, b@.len() as int),
    ensures
        agrees(res, match client_data_from_members(b@, member_spans(ms@)) {
            Ok(c) => Ok(c),
            Err(m) => Err(ErrorKind::ClientDataJson(Some(m))),
        }),
{
    let ghost spans = member_spans(ms@);
    let mut type_scan = FieldScan::Absent;
    let mut challenge_scan = FieldScan::Absent;
    let mut origin_scan = FieldScan::Absent;
    let mut j: usize = 0;
    while j < ms.len()
        invariant
            j <= ms@.len(),
            spans == member_spans(ms@),
            members_within(ms@, b@.len() as int),
            forall|q: int| 0 <= q < j ==> (#[trigger] member_key(b@, spans[q])) is Some,
            type_scan == field_scan(b@, spans, "type"@, j as int),
            challenge_scan == field_scan(b@, spans, "challenge"@, j as int),
            origin_scan == field_scan(b@, spans, "origin"@, j as int),
            type_scan matches FieldScan::Found(i) ==> i < j,
            challenge_scan matches FieldScan::Found(i) ==> i < j,
            origin_scan matches FieldScan::Found(i) ==> i < j,
        decreases ms@.len() - j,
    {
        let (ks, ke, _, _) = ms[j];
        assert(spans[j as int] == (ks as int, ke as int, ms@[j as int].2 as int, ms@[j as int].3 as int));
        let key = match decode_span(b, ks, ke) {
            Some(k) => k,
            None => {
                assert(member_key(b@, spans[j as int]) is None);
                return Err(Error::ClientDataJson("key must be a string".to_owned()));
            },
        };
        type_scan = scan_step(type_scan, text_equal(key.as_str(), "type"), j);
        challenge_scan = scan_step(challenge_scan, text_equal(key.as_str(), "challenge"), j);
        origin_scan = scan_step(origin_scan, text_equal(key.as_str(), "origin"), j);
        j = j + 1;
    }
    let ceremony_type = field_value(b, ms, type_scan, "missing field `type`", "duplicate field `type`")?;
    let challenge = field_value(b, ms, challenge_scan, "missing field `challenge`", "duplicate field `challenge`")?;
    let origin = field_value(b, ms, origin_scan, "missing field `origin`", "duplicate field `origin`")?;
    Ok(CollectedClientData { ceremony_type, challenge, origin })
}

/// Reads the client data out of the elements of the outermost array.
fn client_data_of_elements(b: &[u8], es: &Vec<(usize, usize)>) -> (res: Result<CollectedClientData>)
    requires
        elements_within(es@, b@.len() as int),
    ensures
        agrees(res, match client_data_from_elements(b@, element_spans(es@)) {
            Ok(c) => Ok(c),
            Err(m) => Err(ErrorKind::ClientDataJson(Some(m))),
        }),
{
    if es.len() != 3 {
        return Err(Error::ClientDataJson("invalid length, expected 3 elements".to_owned()));
    }
    let ghost spans = element_spans(es@);
    assert(spans[0] == (es@[0].0 as int, es@[0].1 as int));
    assert(spans[1] == (es@[1].0 as int, es@[1].1 as int));
    assert(spans[2] == (es@[2].0 as int, es@[2].1 as int));
    let ceremony_type = match decode_span(b, es[0].0, es[0].1) {
        Some(s) => s,
        None => {
            return Err(Error::ClientDataJson("invalid type: expected a string".to_owned()));
        },
    };
    let challenge = match decode_span(b, es[1].0, es[1].1) {
        Some(s) => s,
        None => {
            return Err(Error::ClientDataJson("invalid type: expected a string".to_owned()));
        },
    };
    let origin = match decode_span(b, es[2].0, es[2].1) {
        Some(s) => s,
        None => {
            return Err(Error::ClientDataJson("invalid type: expected a string".to_owned()));
        },
    };
    Ok(CollectedClientData { ceremony_type, challenge, origin })
}

impl CollectedClientData {
    /// Parse clientDataJSON: one well-formed JSON text whose outermost value is
    /// an object with string members `type`, `challenge` and `origin` (each once,
    /// other members skipped), or an array of those three strings.
    pub fn parse(bytes: &[u8]) -> (res: Result<Self>)
        ensures
            agrees(res, client_data_from_bytes(bytes@)),
    {
        match check_json(bytes) {
            Ok(()) => {},
            Err(text) => {
                return Err(Error::ClientDataJson(text));
            },
        }
        match find_layout(bytes) {
            JsonLayout::Object(ms) => client_data_of_members(bytes, &ms),
            JsonLayout::Array(es) => client_data_of_elements(bytes, &es),
            JsonLayout::Other => Err(Error::ClientDataJson("invalid type: expected an object".to_owned())),
        }
    }

    /// Check the three fields that bind a response to this ceremony: the type
    /// string, the (base64url) challenge, and the origin.
    pub fn verify(&self, expected_type: &'static str, expected_challenge: &[u8], expected_origin: &str) -> (res: Result<()>)
        ensures
            agrees(res, client_data_check(self@, expected_type@, expected_challenge@, expected_origin@)),
    {
        if !text_equal(self.ceremony_type.as_str(), expected_type) {
            return Err(Error::TypeMismatch { expected: expected_type, got: self.ceremony_type.clone() });
        }
        let got_challenge = match decode_base64url(self.challenge.as_str()) {
            Ok(b) => b,
            Err(text) => {
                return Err(Error::Base64(text));
            },
        };
        self.check_challenge_and_origin(got_challenge.as_slice(), expected_challenge, expected_origin)
    }

    /// The challenge and origin checks, given the bytes the challenge field
    /// decodes to.
    pub fn check_challenge_and_origin(&self, decoded_challenge: &[u8], expected_challenge: &[u8], expected_origin: &str) -> (res: Result<()>)
        ensures
            agrees(res, challenge_and_origin_check(self@, decoded_challenge@, expected_challenge@, expected_origin@)),
    {
        if !bytes_equal(decoded_challenge, expected_challenge) {
            return Err(Error::ChallengeMismatch);
        }
        if !text_equal(self.origin.as_str(), expected_origin) {
            return Err(Error::OriginMismatch { expected: expected_origin.to_owned(), got: self.origin.clone() });
        }
        Ok(())
    }
}

/// A response cannot serve both ceremonies: no client data passes the client
/// checks for `webauthn.create` and for `webauthn.get` alike.
pub proof fn lemma_ceremony_types_exclusive(
    client: ClientDataView,
    expected_challenge: Seq<u8>,
    expected_origin: Seq<char>,
)
    ensures
        !(client_data_check(client, "webauthn.create"@, expected_challenge, expected_origin) is Ok
            && client_data_check(client, "webauthn.get"@, expected_challenge, expected_origin) is Ok),
{
    reveal_strlit("webauthn.create");
    reveal_strlit("webauthn.get");
    assert("webauthn.create"@[9] != "webauthn.get"@[9]);
}

/// Client data that echoes the text an issued challenge was sent as, with the
/// expected type and origin, passes the client checks for that challenge.
pub proof fn lemma_echoed_challenge_accepted(
    client: ClientDataView,
    expected_type: Seq<char>,
    issued: Seq<u8>,
    expected_origin: Seq<char>,
)
    requires
        client.ceremony_type == expected_type,
        base64url_decoding(client.challenge) == Ok::<Seq<u8>, Seq<char>>(issued),
        client.origin == expected_origin,
    ensures
        client_data_check(client, expected_type, issued, expected_origin) == Ok::<(), ErrorKind>(()),
{
}

} // verus!
