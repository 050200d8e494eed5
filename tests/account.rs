use near_account::account::{validate_account_id, AccountId, ValidAccountId};
use near_account::binary::BinaryFormatError;
use near_account::syntax::is_valid_account_id;
use near_account::text::{JsonFormatError, TextDecodeError};
use std::convert::TryFrom;

#[test]
fn test_deser() {
    let key = ValidAccountId::from_json("\"alice.near\"").unwrap();
    assert_eq!(key.as_account_id(), &"alice.near".to_string());

    let key = ValidAccountId::from_json("Alice.near");
    assert!(key.is_err());
}

#[test]
fn test_ser() {
    let key: ValidAccountId = "alice.near".parse().unwrap();
    let actual: String = key.to_json();
    assert_eq!(actual, "\"alice.near\"");
}

#[test]
fn test_from_str() {
    let key = ValidAccountId::try_from("alice.near").unwrap();
    assert_eq!(key.as_ref(), &"alice.near".to_string());
}

#[test]
fn parse_rejects_uppercase() {
    assert!(ValidAccountId::parse("Alice.near").is_err());
    assert!("Alice.near".parse::<ValidAccountId>().is_err());
    assert!(validate_account_id("Alice.near").is_err());
}

#[test]
fn parse_accepts_valid_forms() {
    for s in ["ab", "alice.near", "a-b_c.d", "0.1", "app_1.alice-2.near"] {
        let v = ValidAccountId::parse(s).unwrap();
        assert_eq!(v.to_string(), s);
        assert!(validate_account_id(s).is_ok());
    }
}

#[test]
fn parse_rejects_invalid_forms() {
    for s in ["", "a", ".alice", "alice.", "a..b", "a-_b", "alice near", "al!ce", "ali\u{e9}"] {
        assert!(ValidAccountId::parse(s).is_err(), "{}", s);
        assert!(validate_account_id(s).is_err(), "{}", s);
    }
}

#[test]
fn parse_length_bounds() {
    let longest = "a".repeat(64);
    assert!(ValidAccountId::parse(&longest).is_ok());
    let too_long = "a".repeat(65);
    assert!(ValidAccountId::parse(&too_long).is_err());
}

#[test]
fn checker_on_bytes() {
    assert!(is_valid_account_id(b"bob.near"));
    assert!(!is_valid_account_id(b"bob..near"));
    assert!(!is_valid_account_id(b"-bob"));
    assert!(!is_valid_account_id(b"Bob"));
    assert!(!is_valid_account_id(&[0x61, 0xff]));
}

#[test]
fn try_from_owned_string() {
    let raw: AccountId = "carol.near".to_string();
    let v = ValidAccountId::try_from(raw).unwrap();
    assert_eq!(v.as_ref(), "carol.near");
    let bad: AccountId = "Carol.near".to_string();
    assert!(ValidAccountId::try_from(bad).is_err());
}

#[test]
fn error_message() {
    let e = ValidAccountId::parse("Alice.near").unwrap_err();
    assert_eq!(e.message(), "the account ID is invalid");
}

#[test]
fn raw_value_preserved() {
    let v = ValidAccountId::parse("dave.near").unwrap();
    let raw: AccountId = v.clone().into_account_id();
    assert_eq!(raw, "dave.near");
    let raw2: AccountId = AccountId::from(v);
    assert_eq!(raw2, "dave.near");
}

#[test]
fn reparse_gives_equal_instance() {
    let v = ValidAccountId::parse("erin.testnet").unwrap();
    let w = ValidAccountId::parse(&v.to_string()).unwrap();
    assert!(v == w);
}

#[test]
fn equality_and_order_follow_text() {
    let a = ValidAccountId::parse("alice.near").unwrap();
    let a2 = ValidAccountId::parse("alice.near").unwrap();
    let b = ValidAccountId::parse("bob.near").unwrap();
    assert!(a == a2);
    assert!(a != b);
    assert!(a < b);
}

#[test]
fn binary_encoding_exact() {
    let v = ValidAccountId::parse("alice.near").unwrap();
    let bytes = v.try_to_vec().unwrap();
    let mut expected = vec![10u8, 0, 0, 0];
    expected.extend_from_slice(b"alice.near");
    assert_eq!(bytes, expected);
    assert_eq!(bytes, borsh::to_vec(&"alice.near".to_string()).unwrap());
}

#[test]
fn binary_round_trip() {
    let v = ValidAccountId::parse("frank.near").unwrap();
    let bytes = v.try_to_vec().unwrap();
    let w = ValidAccountId::try_from_slice(&bytes).unwrap();
    assert!(v == w);
}

#[test]
fn binary_decode_errors() {
    assert_eq!(ValidAccountId::try_from_slice(&[1, 0, 0]), Err(BinaryFormatError));
    assert_eq!(ValidAccountId::try_from_slice(&[3, 0, 0, 0, 0x61, 0x62]), Err(BinaryFormatError));
    assert_eq!(ValidAccountId::try_from_slice(&[1, 0, 0, 0, 0x61, 0x62]), Err(BinaryFormatError));
    assert_eq!(ValidAccountId::try_from_slice(&[2, 0, 0, 0, 0x61, 0xff]), Err(BinaryFormatError));
}

#[test]
fn binary_decode_does_not_validate() {
    let bytes = borsh::to_vec(&"Alice.near".to_string()).unwrap();
    let v = ValidAccountId::try_from_slice(&bytes).unwrap();
    assert_eq!(v.to_string(), "Alice.near");
}

#[test]
fn text_round_trip() {
    let v = ValidAccountId::parse("grace_1.near").unwrap();
    let w = ValidAccountId::from_json(&v.to_json()).unwrap();
    assert!(v == w);
}

#[test]
fn text_decode_failures() {
    assert_eq!(
        ValidAccountId::from_json("\"Alice.near\"").map(|_| ()),
        Err(TextDecodeError::Invalid(ValidAccountId::parse("Alice.near").unwrap_err()))
    );
    assert_eq!(
        ValidAccountId::from_json("Alice.near").map(|_| ()),
        Err(TextDecodeError::Decode(JsonFormatError))
    );
    assert_eq!(ValidAccountId::from_json("42").map(|_| ()), Err(TextDecodeError::Decode(JsonFormatError)));
}

#[test]
fn text_decode_with_escape() {
    let v = ValidAccountId::from_json("\"alice\\u002enear\"").unwrap();
    assert_eq!(v.to_string(), "alice.near");
}

#[test]
fn text_encoding_escapes() {
    let bytes = borsh::to_vec(&"a\"b\\c\nd\u{1}".to_string()).unwrap();
    let v = ValidAccountId::try_from_slice(&bytes).unwrap();
    assert_eq!(v.to_json(), "\"a\\\"b\\\\c\\nd\\u0001\"");
}

#[test]
fn decoded_text_passes_decoder_error_on() {
    let r = ValidAccountId::from_decoded_text::<u8>(Err(7));
    assert_eq!(r.map(|_| ()), Err(TextDecodeError::Decode(7)));
    let r = ValidAccountId::from_decoded_text::<u8>(Ok("heidi.near".to_string()));
    assert_eq!(r.unwrap().to_string(), "heidi.near");
    let r = ValidAccountId::from_decoded_text::<u8>(Ok("Heidi".to_string()));
    assert!(matches!(r, Err(TextDecodeError::Invalid(_))));
}
