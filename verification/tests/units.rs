//! Unit tests of the parsers, the checks and the outside calls behind them, and
//! the laws of the ceremonies on concrete values.

use base64::{engine::general_purpose::URL_SAFE_NO_PAD, Engine};
use ciborium::value::{Integer, Value};
use p256::ecdsa::{signature::Signer, Signature, SigningKey};
use passkeep::assertion::check_sign_count;
use passkeep::attestation::AttestationObject;
use passkeep::auth_data::AuthenticatorData;
use passkeep::cbor::CborValue;
use passkeep::client_data::CollectedClientData;
use passkeep::crypto::verify_es256;
use sha2::{Digest, Sha256};
use passkeep::{
    AssertionVerification, Challenge, CoseEs256Key, Error, RegistrationVerification, RelyingParty,
};

const RP_ID: &str = "example.com";
const ORIGIN: &str = "https://example.com";

fn sha256(data: &[u8]) -> [u8; 32] {
    let mut hasher = Sha256::new();
    hasher.update(data);
    hasher.finalize().into()
}

fn cbor_int(v: i64) -> Value {
    Value::Integer(Integer::from(v))
}

fn to_cbor(v: &Value) -> Vec<u8> {
    let mut out = Vec::new();
    ciborium::ser::into_writer(v, &mut out).unwrap();
    out
}

fn test_key() -> (SigningKey, CoseEs256Key) {
    let signing_key = SigningKey::from_slice(&[0x22u8; 32]).expect("valid scalar");
    let point = signing_key.verifying_key().to_encoded_point(false);
    let x: [u8; 32] = point.x().unwrap().as_slice().try_into().unwrap();
    let y: [u8; 32] = point.y().unwrap().as_slice().try_into().unwrap();
    (signing_key, CoseEs256Key { x, y })
}

fn cose_key_cbor(key: &CoseEs256Key) -> Vec<u8> {
    to_cbor(&Value::Map(vec![
        (cbor_int(1), cbor_int(2)),
        (cbor_int(3), cbor_int(-7)),
        (cbor_int(-1), cbor_int(1)),
        (cbor_int(-2), Value::Bytes(key.x.to_vec())),
        (cbor_int(-3), Value::Bytes(key.y.to_vec())),
    ]))
}

fn client_data(ceremony_type: &str, challenge: &[u8], origin: &str) -> Vec<u8> {
    let b64 = URL_SAFE_NO_PAD.encode(challenge);
    format!(r#"{{"type":"{ceremony_type}","challenge":"{b64}","origin":"{origin}"}}"#).into_bytes()
}

fn header(rp_id: &str, flags: u8, sign_count: u32) -> Vec<u8> {
    let mut ad = Vec::new();
    ad.extend_from_slice(&sha256(rp_id.as_bytes()));
    ad.push(flags);
    ad.extend_from_slice(&sign_count.to_be_bytes());
    ad
}

fn registration_auth_data(cred_id: &[u8], key: &CoseEs256Key, flags: u8, sign_count: u32) -> Vec<u8> {
    let mut ad = header(RP_ID, flags, sign_count);
    ad.extend_from_slice(&[7u8; 16]);
    ad.extend_from_slice(&(cred_id.len() as u16).to_be_bytes());
    ad.extend_from_slice(cred_id);
    ad.extend_from_slice(&cose_key_cbor(key));
    ad
}

fn attestation_object(fmt: &str, att_stmt: Value, auth_data: &[u8]) -> Vec<u8> {
    to_cbor(&Value::Map(vec![
        (Value::Text("fmt".into()), Value::Text(fmt.into())),
        (Value::Text("attStmt".into()), att_stmt),
        (Value::Text("authData".into()), Value::Bytes(auth_data.to_vec())),
    ]))
}

fn sign_der(signing_key: &SigningKey, message: &[u8]) -> Vec<u8> {
    let signature: Signature = signing_key.sign(message);
    signature.to_der().as_bytes().to_vec()
}

fn register(cdj: &[u8], att: &[u8], challenge: &[u8], require_uv: bool) -> Result<passkeep::RegisteredCredential, Error> {
    RelyingParty::new(RP_ID, ORIGIN).verify_registration(&RegistrationVerification {
        client_data_json: cdj,
        attestation_object: att,
        expected_challenge: challenge,
        require_user_verification: require_uv,
    })
}

#[test]
fn rp_id_hash_is_the_sha256_of_the_rp_id() {
    // SHA-256("abc"), written out: an rpIdHash equal to it passes the rp check
    // for the rp_id "abc" (the response then fails later, at the signature).
    let digest_of_abc = [
        0xba, 0x78, 0x16, 0xbf, 0x8f, 0x01, 0xcf, 0xea, 0x41, 0x41, 0x40, 0xde, 0x5d, 0xae, 0x22, 0x23,
        0xb0, 0x03, 0x61, 0xa3, 0x96, 0x17, 0x7a, 0x9c, 0xb4, 0x10, 0xff, 0x61, 0xf2, 0x00, 0x15, 0xad,
    ];
    let (_sk, key) = test_key();
    let cdj = client_data("webauthn.get", b"c", "https://abc");
    let mut ad = digest_of_abc.to_vec();
    ad.extend_from_slice(&[0x01, 0, 0, 0, 1]);
    let run = |rp_id: &str| {
        RelyingParty::new(rp_id, "https://abc").verify_assertion(&AssertionVerification {
            client_data_json: &cdj,
            authenticator_data: &ad,
            signature: &[],
            expected_challenge: b"c",
            credential_public_key: &key,
            previous_sign_count: 0,
            require_user_verification: false,
        })
    };
    assert!(matches!(run("abc"), Err(Error::BadSignature)));
    assert!(matches!(run("abd"), Err(Error::RpIdHashMismatch)));
}

#[test]
fn challenge_text_is_unpadded_base64url() {
    let challenge = Challenge::generate().expect("rng available");
    let text = challenge.to_base64url();
    assert_eq!(text.len(), 43);
    assert!(text.bytes().all(|b| b.is_ascii_alphanumeric() || b == b'-' || b == b'_'));
    assert_eq!(URL_SAFE_NO_PAD.decode(&text).unwrap(), challenge.as_bytes().to_vec());
}

#[test]
fn client_challenge_decoding_is_strict_base64url() {
    let make = |challenge: &str| CollectedClientData {
        ceremony_type: "webauthn.get".into(),
        challenge: challenge.into(),
        origin: ORIGIN.into(),
    };
    assert!(make("-_8").verify("webauthn.get", &[0xfb, 0xff], ORIGIN).is_ok());
    assert!(make("YWJj").verify("webauthn.get", b"abc", ORIGIN).is_ok());
    assert!(matches!(make("YWJj=").verify("webauthn.get", b"abc", ORIGIN), Err(Error::Base64(_))));
    assert!(matches!(make("+/8").verify("webauthn.get", &[0xfb, 0xff], ORIGIN), Err(Error::Base64(_))));
    assert!(matches!(make("YWJk").verify("webauthn.get", b"abc", ORIGIN), Err(Error::ChallengeMismatch)));
}

#[test]
fn attestation_statement_is_handed_over_as_decoded() {
    let stmt = Value::Map(vec![
        (Value::Text("alg".into()), cbor_int(-7)),
        (Value::Text("sig".into()), Value::Bytes(vec![9, 8])),
        (Value::Text("x".into()), Value::Array(vec![Value::Bool(true), Value::Null, Value::Tag(1, Box::new(cbor_int(0)))])),
    ]);
    let att = AttestationObject::parse(&attestation_object("packed", stmt, &[1, 2])).unwrap();
    assert_eq!(att.fmt, "packed");
    assert_eq!(att.auth_data, vec![1, 2]);
    match att.att_stmt {
        CborValue::Mapping(entries) => {
            assert_eq!(entries.len(), 3);
            assert!(matches!(&entries[0].0, CborValue::Text(t) if t == "alg"));
            assert!(matches!(entries[0].1, CborValue::Integer(-7)));
            assert!(matches!(&entries[1].1, CborValue::Bytes(b) if b == &vec![9u8, 8]));
            match &entries[2].1 {
                CborValue::Array(items) => {
                    assert!(matches!(items[0], CborValue::Bool(true)));
                    assert!(matches!(items[1], CborValue::Null));
                    assert!(matches!(&items[2], CborValue::Tag(1, inner) if matches!(**inner, CborValue::Integer(0))));
                }
                _ => panic!("expected an array"),
            }
        }
        _ => panic!("expected a map"),
    }
    // Bytes after the item are not read.
    let mut bytes = attestation_object("none", Value::Map(vec![]), &[3]);
    bytes.push(0xff);
    assert_eq!(AttestationObject::parse(&bytes).unwrap().auth_data, vec![3]);
}

#[test]
fn client_data_parse_reads_fields_and_accepts_the_array_form() {
    let c = CollectedClientData::parse(br#"{"origin":"o","type":"t","challenge":"c","extra":{"x":1}}"#).unwrap();
    assert_eq!(c.ceremony_type, "t");
    assert_eq!(c.challenge, "c");
    assert_eq!(c.origin, "o");
    let c = CollectedClientData::parse(br#"["t","c","o"]"#).unwrap();
    assert_eq!((c.ceremony_type.as_str(), c.challenge.as_str(), c.origin.as_str()), ("t", "c", "o"));
    assert!(matches!(CollectedClientData::parse(br#"["t","c"]"#), Err(Error::ClientDataJson(_))));
    assert!(matches!(CollectedClientData::parse(br#"{"type":"t","challenge":"c"}"#), Err(Error::ClientDataJson(_))));
    assert!(matches!(CollectedClientData::parse(br#"{"type":1,"challenge":"c","origin":"o"}"#), Err(Error::ClientDataJson(_))));
    assert!(matches!(CollectedClientData::parse(b"42"), Err(Error::ClientDataJson(_))));
    assert!(matches!(CollectedClientData::parse(br#"["t","c","o"] x"#), Err(Error::ClientDataJson(_))));
    let c = CollectedClientData::parse(b" {\"type\":\"t\",\"challenge\":\"c\",\"origin\":\"o\"}\n").unwrap();
    assert_eq!(c.origin, "o");
}

#[test]
fn client_data_skips_any_other_member() {
    // Nested far past serde_json's value recursion limit, a number out of the
    // range of any float, strings holding brackets and quotes: all skipped.
    let deep = format!("{}{}", "[".repeat(300), "]".repeat(300));
    let json = format!(
        r#"{{"crossOrigin":false,"deep":{},"big":1e400,"s":"}}]\"[{{","type":"t","topOrigin":{{"a":[1,{{"b":null}}]}},"challenge":"c","origin":"o"}}"#,
        deep
    );
    let c = CollectedClientData::parse(json.as_bytes()).unwrap();
    assert_eq!((c.ceremony_type.as_str(), c.challenge.as_str(), c.origin.as_str()), ("t", "c", "o"));
    // An escaped key names the same field.
    let c = CollectedClientData::parse(br#"{"\u0074ype":"t","challenge":"c\u0041","origin":"o"}"#).unwrap();
    assert_eq!((c.ceremony_type.as_str(), c.challenge.as_str()), ("t", "cA"));
}

#[test]
fn client_data_refuses_repeated_fields_and_malformed_documents() {
    let dup = br#"{"type":"t","challenge":"c","origin":"o","type":"t"}"#;
    assert!(matches!(CollectedClientData::parse(dup), Err(Error::ClientDataJson(m)) if m == "duplicate field `type`"));
    let dup = br#"{"type":"t","challenge":"c","origin":"o","origin":"p"}"#;
    assert!(matches!(CollectedClientData::parse(dup), Err(Error::ClientDataJson(m)) if m == "duplicate field `origin`"));
    let missing = br#"{"type":"t","origin":"o"}"#;
    assert!(matches!(CollectedClientData::parse(missing), Err(Error::ClientDataJson(m)) if m == "missing field `challenge`"));
    let not_text = br#"{"type":"t","challenge":5,"origin":"o"}"#;
    assert!(matches!(CollectedClientData::parse(not_text), Err(Error::ClientDataJson(m)) if m == "invalid type: expected a string"));
    assert!(matches!(CollectedClientData::parse(br#"["t","c"]"#), Err(Error::ClientDataJson(m)) if m == "invalid length, expected 3 elements"));
    assert!(matches!(CollectedClientData::parse(b"\"t\""), Err(Error::ClientDataJson(m)) if m == "invalid type: expected an object"));
    assert!(matches!(CollectedClientData::parse(br#"{"type":"t","challenge":"c","origin":"o",}"#), Err(Error::ClientDataJson(_))));
    assert!(matches!(CollectedClientData::parse(br#"{"type":"t","challenge":"c","origin":"o","x":[1,}"#), Err(Error::ClientDataJson(_))));
    assert!(matches!(CollectedClientData::parse(br#"["t","c","o","x"]"#), Err(Error::ClientDataJson(_))));
    assert!(matches!(CollectedClientData::parse(br#"[]"#), Err(Error::ClientDataJson(_))));
    assert!(matches!(CollectedClientData::parse(br#"{}"#), Err(Error::ClientDataJson(_))));
    assert!(matches!(CollectedClientData::parse(b""), Err(Error::ClientDataJson(_))));
    // A key that is not UTF-8, though the member is otherwise skipped.
    let bad_key = b"{\"\xff\":1,\"type\":\"t\",\"challenge\":\"c\",\"origin\":\"o\"}";
    assert!(matches!(CollectedClientData::parse(bad_key), Err(Error::ClientDataJson(_))));
    // A field value that is not UTF-8.
    let bad_value = b"{\"type\":\"\xff\",\"challenge\":\"c\",\"origin\":\"o\"}";
    assert!(matches!(CollectedClientData::parse(bad_value), Err(Error::ClientDataJson(_))));
    // A skipped member whose string is not UTF-8 is still skipped.
    let skipped = b"{\"x\":\"\xff\",\"type\":\"t\",\"challenge\":\"c\",\"origin\":\"o\"}";
    assert!(CollectedClientData::parse(skipped).is_ok());
}

#[test]
fn client_data_syntax_error_carries_the_parser_message() {
    assert!(matches!(
        CollectedClientData::parse(b"this is not json"),
        Err(Error::ClientDataJson(m)) if m == "expected ident at line 1 column 2"
    ));
}

#[test]
fn client_data_check_order() {
    let c = CollectedClientData {
        ceremony_type: "webauthn.get".into(),
        challenge: URL_SAFE_NO_PAD.encode(b"abc"),
        origin: ORIGIN.into(),
    };
    assert!(c.verify("webauthn.get", b"abc", ORIGIN).is_ok());
    match c.verify("webauthn.create", b"abc", ORIGIN) {
        Err(Error::TypeMismatch { expected, got }) => {
            assert_eq!(expected, "webauthn.create");
            assert_eq!(got, "webauthn.get");
        }
        _ => panic!("expected a type mismatch"),
    }
    match c.verify("webauthn.get", b"abc", "https://other.example") {
        Err(Error::OriginMismatch { expected, got }) => {
            assert_eq!(expected, "https://other.example");
            assert_eq!(got, ORIGIN);
        }
        _ => panic!("expected an origin mismatch"),
    }
    assert!(matches!(c.check_challenge_and_origin(b"abd", b"abc", ORIGIN), Err(Error::ChallengeMismatch)));
}

#[test]
fn auth_data_header_is_parsed_big_endian() {
    let ad = header(RP_ID, 0x1d, 0x0102_0304);
    let auth = AuthenticatorData::parse(&ad).unwrap();
    assert_eq!(auth.rp_id_hash, sha256(RP_ID.as_bytes()));
    assert_eq!(auth.flags, 0x1d);
    assert_eq!(auth.sign_count, 16_909_060);
    assert!(auth.attested_credential.is_none());
    assert!(auth.user_present());
    assert!(auth.user_verified());
    assert!(auth.backup_eligible());
    assert!(auth.backup_state());
    let auth = AuthenticatorData::parse(&header(RP_ID, 0x00, 0)).unwrap();
    assert!(!auth.user_present() && !auth.user_verified() && !auth.backup_eligible() && !auth.backup_state());
    assert!(matches!(AuthenticatorData::parse(&ad[..36]), Err(Error::AuthData(m)) if m == "shorter than the 37-byte header"));
}

#[test]
fn auth_data_attested_credential_is_parsed_and_checked() {
    let (_sk, key) = test_key();
    let ad = registration_auth_data(b"cred-id", &key, 0x41, 5);
    let auth = AuthenticatorData::parse(&ad).unwrap();
    let cred = auth.attested_credential.expect("AT flag set");
    assert_eq!(cred.aaguid, [7u8; 16]);
    assert_eq!(cred.credential_id, b"cred-id".to_vec());
    assert_eq!(cred.public_key, key);

    // Fewer than 18 bytes after the header.
    let mut short = header(RP_ID, 0x41, 0);
    short.extend_from_slice(&[0u8; 17]);
    assert!(matches!(AuthenticatorData::parse(&short), Err(Error::AuthData(m)) if m == "attested credential data is truncated"));

    // A credential id length past the end of the buffer.
    let mut long = header(RP_ID, 0x41, 0);
    long.extend_from_slice(&[0u8; 16]);
    long.extend_from_slice(&[0x01, 0x00]);
    long.extend_from_slice(&[0u8; 255]);
    assert!(matches!(AuthenticatorData::parse(&long), Err(Error::AuthData(m)) if m == "credential id length exceeds the buffer"));

    // A key that is not CBOR at all.
    let mut bad_key = header(RP_ID, 0x41, 0);
    bad_key.extend_from_slice(&[0u8; 16]);
    bad_key.extend_from_slice(&[0x00, 0x00]);
    assert!(matches!(AuthenticatorData::parse(&bad_key), Err(Error::CoseKey(_))));
}

#[test]
fn cose_key_first_entry_wins_and_absent_param_is_malformed() {
    let (_sk, key) = test_key();
    // A repeated kty: the first one (EC2) is read.
    let bytes = to_cbor(&Value::Map(vec![
        (cbor_int(1), cbor_int(2)),
        (cbor_int(1), cbor_int(1)),
        (cbor_int(3), cbor_int(-7)),
        (cbor_int(-1), cbor_int(1)),
        (cbor_int(-2), Value::Bytes(key.x.to_vec())),
        (cbor_int(-3), Value::Bytes(key.y.to_vec())),
    ]));
    assert_eq!(CoseEs256Key::from_cose_bytes(&bytes).unwrap(), key);
    // kty that is not an integer.
    let bytes = to_cbor(&Value::Map(vec![(cbor_int(1), Value::Text("EC2".into()))]));
    assert!(matches!(CoseEs256Key::from_cose_bytes(&bytes), Err(Error::CoseKey(m)) if m == "missing kty"));
    // alg missing.
    let bytes = to_cbor(&Value::Map(vec![(cbor_int(1), cbor_int(2))]));
    assert!(matches!(CoseEs256Key::from_cose_bytes(&bytes), Err(Error::CoseKey(m)) if m == "missing alg"));
    // crv missing, then the coordinates.
    let bytes = to_cbor(&Value::Map(vec![(cbor_int(1), cbor_int(2)), (cbor_int(3), cbor_int(-7))]));
    assert!(matches!(CoseEs256Key::from_cose_bytes(&bytes), Err(Error::CoseKey(m)) if m == "missing crv"));
    let bytes = to_cbor(&Value::Map(vec![
        (cbor_int(1), cbor_int(2)),
        (cbor_int(3), cbor_int(-7)),
        (cbor_int(-1), cbor_int(1)),
        (cbor_int(-3), Value::Bytes(key.y.to_vec())),
    ]));
    assert!(matches!(CoseEs256Key::from_cose_bytes(&bytes), Err(Error::CoseKey(m)) if m == "missing x coordinate"));
    let bytes = to_cbor(&Value::Map(vec![
        (cbor_int(1), cbor_int(2)),
        (cbor_int(3), cbor_int(-7)),
        (cbor_int(-1), cbor_int(1)),
        (cbor_int(-2), Value::Bytes(key.x.to_vec())),
    ]));
    assert!(matches!(CoseEs256Key::from_cose_bytes(&bytes), Err(Error::CoseKey(m)) if m == "missing y coordinate"));
    let bytes = to_cbor(&Value::Map(vec![
        (cbor_int(1), cbor_int(2)),
        (cbor_int(3), cbor_int(-7)),
        (cbor_int(-1), cbor_int(1)),
        (cbor_int(-2), Value::Bytes(key.x[..31].to_vec())),
        (cbor_int(-3), Value::Bytes(key.y.to_vec())),
    ]));
    assert!(matches!(CoseEs256Key::from_cose_bytes(&bytes), Err(Error::CoseKey(m)) if m == "EC coordinate is not 32 bytes"));
    assert!(matches!(CoseEs256Key::from_cose_bytes(&to_cbor(&cbor_int(1))), Err(Error::CoseKey(m)) if m == "credentialPublicKey is not a CBOR map"));
    assert!(matches!(CoseEs256Key::from_cose_bytes(&[0xff]), Err(Error::CoseKey(_))));
}

#[test]
fn attestation_object_last_entry_wins() {
    let bytes = to_cbor(&Value::Map(vec![
        (Value::Text("fmt".into()), Value::Text("packed".into())),
        (Value::Text("authData".into()), Value::Bytes(vec![1, 2, 3])),
        (Value::Text("fmt".into()), Value::Text("none".into())),
    ]));
    let att = AttestationObject::parse(&bytes).unwrap();
    assert_eq!(att.fmt, "none");
    assert_eq!(att.auth_data, vec![1, 2, 3]);
    assert!(matches!(att.att_stmt, CborValue::Null));

    // A later fmt that is not text leaves no fmt.
    let bytes = to_cbor(&Value::Map(vec![
        (Value::Text("fmt".into()), Value::Text("none".into())),
        (Value::Text("fmt".into()), cbor_int(1)),
        (Value::Text("authData".into()), Value::Bytes(vec![])),
    ]));
    assert!(matches!(AttestationObject::parse(&bytes), Err(Error::AttestationCbor(m)) if m == "missing fmt"));
    let bytes = to_cbor(&Value::Map(vec![(Value::Text("fmt".into()), Value::Text("none".into()))]));
    assert!(matches!(AttestationObject::parse(&bytes), Err(Error::AttestationCbor(m)) if m == "missing authData"));
    assert!(matches!(AttestationObject::parse(&to_cbor(&cbor_int(3))), Err(Error::AttestationCbor(m)) if m == "attestationObject is not a map"));
    assert!(matches!(AttestationObject::parse(&[0x5f]), Err(Error::AttestationCbor(_))));
}

#[test]
fn sign_count_rule() {
    assert!(check_sign_count(9, 10).is_ok());
    assert!(check_sign_count(0, 0).is_ok());
    assert!(check_sign_count(0, 1).is_ok());
    assert!(matches!(check_sign_count(10, 10), Err(Error::SignCountRegression { stored: 10, got: 10 })));
    assert!(matches!(check_sign_count(10, 3), Err(Error::SignCountRegression { stored: 10, got: 3 })));
    assert!(matches!(check_sign_count(5, 0), Err(Error::SignCountRegression { stored: 5, got: 0 })));
}

#[test]
fn es256_verification_accepts_only_the_signed_message() {
    let (sk, key) = test_key();
    let sig = sign_der(&sk, b"message");
    assert!(verify_es256(&key, b"message", &sig).is_ok());
    assert!(matches!(verify_es256(&key, b"messagf", &sig), Err(Error::BadSignature)));
    assert!(matches!(verify_es256(&key, b"message", &[0x30, 0x00]), Err(Error::BadSignature)));
}

#[test]
fn challenge_roundtrips_through_base64url() {
    let challenge = Challenge::generate().expect("rng available");
    let text = challenge.to_base64url();
    // The echoed challenge passes the client checks for the issued bytes.
    let cdj = format!(r#"{{"type":"webauthn.create","challenge":"{text}","origin":"{ORIGIN}"}}"#);
    let c = CollectedClientData::parse(cdj.as_bytes()).unwrap();
    assert!(c.verify("webauthn.create", challenge.as_bytes(), ORIGIN).is_ok());
}

#[test]
fn registration_attestation_failures() {
    let (sk, key) = test_key();
    let ad = registration_auth_data(b"cred", &key, 0x45, 0);
    let cdj = client_data("webauthn.create", b"c", ORIGIN);

    // packed with a non-ES256 alg.
    let stmt = Value::Map(vec![(Value::Text("alg".into()), cbor_int(-257)), (Value::Text("sig".into()), Value::Bytes(vec![0]))]);
    assert!(matches!(register(&cdj, &attestation_object("packed", stmt, &ad), b"c", true), Err(Error::AttestationStatement(m)) if m == "packed alg is not ES256 (-7)"));
    // packed without sig.
    let stmt = Value::Map(vec![(Value::Text("alg".into()), cbor_int(-7))]);
    assert!(matches!(register(&cdj, &attestation_object("packed", stmt, &ad), b"c", true), Err(Error::AttestationStatement(m)) if m == "missing sig"));
    // packed without alg.
    let stmt = Value::Map(vec![(Value::Text("sig".into()), Value::Bytes(vec![0]))]);
    assert!(matches!(register(&cdj, &attestation_object("packed", stmt, &ad), b"c", true), Err(Error::AttestationStatement(m)) if m == "missing or non-integer alg"));
    // packed whose statement is not a map.
    assert!(matches!(register(&cdj, &attestation_object("packed", Value::Null, &ad), b"c", true), Err(Error::AttestationStatement(m)) if m == "attStmt is not a map"));
    // Self attestation by another key.
    let other = SigningKey::from_slice(&[0x33u8; 32]).unwrap();
    let mut signed = ad.clone();
    signed.extend_from_slice(&sha256(&cdj));
    let stmt = Value::Map(vec![(Value::Text("alg".into()), cbor_int(-7)), (Value::Text("sig".into()), Value::Bytes(sign_der(&other, &signed)))]);
    assert!(matches!(register(&cdj, &attestation_object("packed", stmt, &ad), b"c", true), Err(Error::BadSignature)));
    // The same statement signed by the credential's key passes.
    let stmt = Value::Map(vec![(Value::Text("alg".into()), cbor_int(-7)), (Value::Text("sig".into()), Value::Bytes(sign_der(&sk, &signed)))]);
    let cred = register(&cdj, &attestation_object("packed", stmt, &ad), b"c", true).unwrap();
    assert_eq!(cred.attestation_format, "packed");
    assert_eq!(cred.aaguid, [7u8; 16]);
}

#[test]
fn registration_other_failures() {
    let (_sk, key) = test_key();
    let cdj = client_data("webauthn.create", b"c", ORIGIN);
    // Not CBOR.
    assert!(matches!(register(&cdj, &[0xff], b"c", false), Err(Error::AttestationCbor(_))));
    // No attested credential data (AT flag clear).
    let att = attestation_object("none", Value::Map(vec![]), &header(RP_ID, 0x01, 0));
    assert!(matches!(register(&cdj, &att, b"c", false), Err(Error::AuthData(m)) if m == "registration authData has no attested credential data"));
    // rpIdHash of another rp.
    let mut ad = header("evil.example", 0x41, 0);
    ad.extend_from_slice(&registration_auth_data(b"id", &key, 0x41, 0)[37..]);
    let att = attestation_object("none", Value::Map(vec![]), &ad);
    assert!(matches!(register(&cdj, &att, b"c", false), Err(Error::RpIdHashMismatch)));
    // A key that is not P-256.
    let mut ad = registration_auth_data(b"", &key, 0x41, 0);
    ad.truncate(37 + 18);
    ad.extend_from_slice(&to_cbor(&Value::Map(vec![(cbor_int(1), cbor_int(2)), (cbor_int(3), cbor_int(-7)), (cbor_int(-1), cbor_int(2))])));
    let att = attestation_object("none", Value::Map(vec![]), &ad);
    assert!(matches!(register(&cdj, &att, b"c", false), Err(Error::UnsupportedKey)));
}

#[test]
fn registration_uv_requirement_only_narrows() {
    let (_sk, key) = test_key();
    let cdj = client_data("webauthn.create", b"c", ORIGIN);
    let att = attestation_object("none", Value::Map(vec![]), &registration_auth_data(b"id", &key, 0x45, 4));
    let strict = register(&cdj, &att, b"c", true).unwrap();
    let relaxed = register(&cdj, &att, b"c", false).unwrap();
    assert_eq!(strict.credential_id, relaxed.credential_id);
    assert_eq!(strict.sign_count, 4);
    assert_eq!(relaxed.sign_count, 4);
    assert!(strict.user_verified && relaxed.user_verified);
    assert!(!strict.backup_eligible && !strict.backup_state);
}

#[test]
fn assertion_is_bound_to_its_ceremony_and_replay_is_rejected() {
    let rp = RelyingParty::new(RP_ID, ORIGIN);
    let (sk, key) = test_key();
    let ad = header(RP_ID, 0x11, 7);
    let challenge = b"get-challenge";
    let sign_over = |cdj: &[u8]| {
        let mut signed = ad.clone();
        signed.extend_from_slice(&sha256(cdj));
        sign_der(&sk, &signed)
    };

    // A create-type client data does not pass an assertion.
    let create = client_data("webauthn.create", challenge, ORIGIN);
    let sig = sign_over(&create);
    let err = rp
        .verify_assertion(&AssertionVerification {
            client_data_json: &create,
            authenticator_data: &ad,
            signature: &sig,
            expected_challenge: challenge,
            credential_public_key: &key,
            previous_sign_count: 0,
            require_user_verification: false,
        })
        .unwrap_err();
    assert!(matches!(err, Error::TypeMismatch { .. }));

    let get = client_data("webauthn.get", challenge, ORIGIN);
    let sig = sign_over(&get);
    let check = |previous: u32| {
        rp.verify_assertion(&AssertionVerification {
            client_data_json: &get,
            authenticator_data: &ad,
            signature: &sig,
            expected_challenge: challenge,
            credential_public_key: &key,
            previous_sign_count: previous,
            require_user_verification: false,
        })
    };
    let outcome = check(6).expect("counter advanced");
    assert_eq!(outcome.new_sign_count, 7);
    assert!(outcome.backup_state);
    assert!(!outcome.user_verified);
    // Replaying it against the persisted counter is rejected.
    assert!(matches!(
        check(outcome.new_sign_count),
        Err(Error::SignCountRegression { stored: 7, got: 7 })
    ));
}

#[test]
fn assertion_header_failures() {
    let rp = RelyingParty::new(RP_ID, ORIGIN);
    let (_sk, key) = test_key();
    let challenge = b"x";
    let get = client_data("webauthn.get", challenge, ORIGIN);
    let run = |ad: &[u8]| {
        rp.verify_assertion(&AssertionVerification {
            client_data_json: &get,
            authenticator_data: ad,
            signature: &[],
            expected_challenge: challenge,
            credential_public_key: &key,
            previous_sign_count: 0,
            require_user_verification: true,
        })
    };
    assert!(matches!(run(&header(RP_ID, 0x05, 1)[..20]), Err(Error::AuthData(_))));
    assert!(matches!(run(&header("other.example", 0x05, 1)), Err(Error::RpIdHashMismatch)));
    assert!(matches!(run(&header(RP_ID, 0x04, 1)), Err(Error::UserNotPresent)));
    assert!(matches!(run(&header(RP_ID, 0x01, 1)), Err(Error::UserNotVerified)));
    assert!(matches!(run(&header(RP_ID, 0x05, 1)), Err(Error::BadSignature)));
}

#[test]
fn relying_party_keeps_its_configuration() {
    let rp = RelyingParty::new("login.example.org", "https://login.example.org:8443");
    assert_eq!(rp.rp_id(), "login.example.org");
    assert_eq!(rp.origin(), "https://login.example.org:8443");
}

#[test]
fn sec1_encoding_layout() {
    let key = CoseEs256Key { x: [0xaa; 32], y: [0x55; 32] };
    let sec1 = key.to_sec1_uncompressed();
    assert_eq!(sec1.len(), 65);
    assert_eq!(sec1[0], 4);
    assert!(sec1[1..33].iter().all(|b| *b == 0xaa));
    assert!(sec1[33..].iter().all(|b| *b == 0x55));
}

#[test]
fn assertion_uv_requirement_only_narrows() {
    let rp = RelyingParty::new(RP_ID, ORIGIN);
    let (sk, key) = test_key();
    let ad = header(RP_ID, 0x05, 3);
    let challenge = b"uv-challenge";
    let cdj = client_data("webauthn.get", challenge, ORIGIN);
    let mut signed = ad.clone();
    signed.extend_from_slice(&sha256(&cdj));
    let sig = sign_der(&sk, &signed);
    let run = |require_uv: bool| {
        rp.verify_assertion(&AssertionVerification {
            client_data_json: &cdj,
            authenticator_data: &ad,
            signature: &sig,
            expected_challenge: challenge,
            credential_public_key: &key,
            previous_sign_count: 2,
            require_user_verification: require_uv,
        })
        .expect("assertion verifies")
    };
    let strict = run(true);
    let relaxed = run(false);
    assert_eq!((strict.new_sign_count, strict.user_verified, strict.backup_state), (3, true, false));
    assert_eq!((relaxed.new_sign_count, relaxed.user_verified, relaxed.backup_state), (3, true, false));
}

#[test]
fn decoder_failures_carry_the_decoder_message() {
    // base64: the challenge field holds a character outside the alphabet.
    let c = CollectedClientData {
        ceremony_type: "webauthn.get".to_owned(),
        challenge: "a+b".to_owned(),
        origin: ORIGIN.to_owned(),
    };
    let expected = URL_SAFE_NO_PAD.decode("a+b").unwrap_err().to_string();
    assert!(matches!(c.verify("webauthn.get", b"x", ORIGIN), Err(Error::Base64(m)) if m == expected));

    // CBOR: bytes that end inside an item.
    let truncated = [0x62u8, b'a'];
    let expected = ciborium::de::from_reader::<Value, _>(&truncated[..]).unwrap_err().to_string();
    assert!(matches!(CoseEs256Key::from_cose_bytes(&truncated), Err(Error::CoseKey(m)) if m == expected));
    assert!(matches!(AttestationObject::parse(&truncated), Err(Error::AttestationCbor(m)) if m == expected));

    // The key's error comes back unchanged through authenticatorData.
    let mut ad = header(RP_ID, 0x41, 0);
    ad.extend_from_slice(&[0u8; 16]);
    ad.extend_from_slice(&[0x00, 0x02, 0xaa, 0xbb]);
    ad.extend_from_slice(&truncated);
    let direct = match CoseEs256Key::from_cose_bytes(&truncated) {
        Err(Error::CoseKey(m)) => m,
        _ => panic!("the truncated key parses"),
    };
    assert!(matches!(AuthenticatorData::parse(&ad), Err(Error::CoseKey(m)) if m == direct));
}
