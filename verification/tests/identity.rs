use consumer_rs::identity::accept_keystore;
use consumer_rs::identity::check_keystore;
use consumer_rs::identity::check_load;
use consumer_rs::identity::extract_address;
use consumer_rs::identity::keystore_address_bytes;
use consumer_rs::identity::keystore_location;
use consumer_rs::identity::Address;
use consumer_rs::identity::Identity;
use consumer_rs::identity::IdentityError;
use consumer_rs::json::JsonValue;

fn keystore(address: JsonValue) -> JsonValue {
    JsonValue::Object(vec![("address".to_string(), address)])
}

fn text(value: &str) -> JsonValue {
    JsonValue::Text(value.to_string())
}

const TWENTY: [u8; 20] = [
    0x00, 0x01, 0x0a, 0x0f, 0x10, 0x7f, 0x80, 0xab, 0xcd, 0xef, 0xff, 0x12, 0x34, 0x56, 0x78, 0x9a,
    0xbc, 0xde, 0xf0, 0x42,
];

#[test]
fn address_is_written_in_lower_case_hex() {
    let identity = Identity::new(Address::from_slice(&TWENTY), "/tmp/default.json".to_string());
    assert_eq!(identity.address_hex(), "0x00010a0f107f80abcdefff123456789abcdef042");
    assert_eq!(identity.path(), "/tmp/default.json");
}

#[test]
fn address_keeps_its_bytes() {
    let address = Address::from_slice(&TWENTY);
    assert_eq!(address.as_bytes(), &TWENTY);
}

#[test]
fn keystore_is_kept_under_the_store() {
    assert_eq!(
        keystore_location("default"),
        vec![".myst".to_string(), "identities".to_string(), "default.json".to_string()]
    );
    assert_eq!(keystore_location("")[2], ".json");
}

#[test]
fn keystore_has_to_be_a_json_object() {
    let parsed = check_keystore(r#"{"address":"0xabc","version":3}"#).unwrap();
    assert_eq!(parsed.get("address"), Some(&text("0xabc")));
    assert_eq!(parsed.get("version"), Some(&JsonValue::Number(Some(3))));
    assert_eq!(check_keystore("{}"), Ok(JsonValue::Object(vec![])));

    assert_eq!(check_keystore("not json"), Err(IdentityError::InvalidJson));
    assert_eq!(check_keystore(""), Err(IdentityError::InvalidJson));
    assert_eq!(check_keystore("{} trailing"), Err(IdentityError::InvalidJson));
    assert_eq!(check_keystore("[1,2]"), Err(IdentityError::NotAnObject));
    assert_eq!(check_keystore("\"text\""), Err(IdentityError::NotAnObject));
    assert_eq!(check_keystore("null"), Err(IdentityError::NotAnObject));
}

#[test]
fn parsed_documents_keep_every_kind() {
    let parsed = check_keystore(
        r#"{"n":null,"t":true,"i":-12,"f":1.5,"big":18446744073709551615,"s":"x","a":[1,"two"],"o":{"k":false}}"#,
    )
    .unwrap();
    assert_eq!(parsed.get("n"), Some(&JsonValue::Null));
    assert_eq!(parsed.get("t"), Some(&JsonValue::Bool(true)));
    assert_eq!(parsed.get("i"), Some(&JsonValue::Number(Some(-12))));
    assert_eq!(parsed.get("f"), Some(&JsonValue::Number(None)));
    assert_eq!(parsed.get("big"), Some(&JsonValue::Number(None)));
    assert_eq!(parsed.get("s"), Some(&text("x")));
    assert_eq!(
        parsed.get("a"),
        Some(&JsonValue::Array(vec![JsonValue::Number(Some(1)), text("two")]))
    );
    assert_eq!(
        parsed.get("o"),
        Some(&JsonValue::Object(vec![("k".to_string(), JsonValue::Bool(false))]))
    );
    assert_eq!(parsed.get("missing"), None);
}

#[test]
fn accepted_keystore_is_the_parsed_object() {
    assert_eq!(accept_keystore(Ok(JsonValue::Object(vec![]))), Ok(JsonValue::Object(vec![])));
    assert_eq!(accept_keystore(Ok(JsonValue::Null)), Err(IdentityError::NotAnObject));
    assert_eq!(
        accept_keystore(Err("expected value".to_string())),
        Err(IdentityError::InvalidJson)
    );
}

#[test]
fn keystore_address_is_decoded_from_hex() {
    let with_prefix = keystore(text("0x00010a0f107f80abcdefff123456789abcdef042"));
    assert_eq!(keystore_address_bytes(&with_prefix), Ok(TWENTY.to_vec()));
    let without_prefix = keystore(text("00010A0F107F80ABCDEFFF123456789ABCDEF042"));
    assert_eq!(keystore_address_bytes(&without_prefix), Ok(TWENTY.to_vec()));
    assert_eq!(keystore_address_bytes(&keystore(text("0xabcd"))), Ok(vec![0xab, 0xcd]));
    assert_eq!(keystore_address_bytes(&keystore(text("0x"))), Ok(vec![]));
    assert_eq!(keystore_address_bytes(&keystore(text(""))), Ok(vec![]));
}

#[test]
fn only_one_prefix_is_taken_off() {
    assert_eq!(
        keystore_address_bytes(&keystore(text("0x0xab"))),
        Err(IdentityError::AddressNotHex)
    );
    assert_eq!(keystore_address_bytes(&keystore(text("0Xab"))), Err(IdentityError::AddressNotHex));
    assert_eq!(keystore_address_bytes(&keystore(text("0"))), Err(IdentityError::AddressNotHex));
}

#[test]
fn bad_hex_is_refused() {
    for bad in ["0xabc", "0xzz", "abcg", "ab cd", "0x\u{e9}\u{e9}", "g0"] {
        assert_eq!(
            keystore_address_bytes(&keystore(text(bad))),
            Err(IdentityError::AddressNotHex)
        );
    }
    assert_eq!(IdentityError::AddressNotHex.to_string(), "decode keystore address");
}

#[test]
fn missing_address_is_said() {
    assert_eq!(
        keystore_address_bytes(&JsonValue::Object(vec![])),
        Err(IdentityError::MissingAddress)
    );
    assert_eq!(
        keystore_address_bytes(&keystore(JsonValue::Number(Some(5)))),
        Err(IdentityError::MissingAddress)
    );
    assert_eq!(keystore_address_bytes(&JsonValue::Null), Err(IdentityError::MissingAddress));
    assert_eq!(
        IdentityError::MissingAddress.to_string(),
        "keystore is missing `address` field; supply a password so it can be derived"
    );
}

#[test]
fn wallet_address_comes_first() {
    let parsed = keystore(text("0x00010a0f107f80abcdefff123456789abcdef042"));
    let other = [7u8; 20];
    let from_wallet = extract_address(&parsed, Some(Address::from_slice(&other))).unwrap();
    assert_eq!(from_wallet.as_bytes(), &other);
    let from_keystore = extract_address(&parsed, None).unwrap();
    assert_eq!(from_keystore.as_bytes(), &TWENTY);
    let ignored = extract_address(&JsonValue::Null, Some(Address::from_slice(&other))).unwrap();
    assert_eq!(ignored.as_bytes(), &other);
}

#[test]
fn address_errors_pass_through() {
    assert_eq!(
        extract_address(&JsonValue::Object(vec![]), None).err(),
        Some(IdentityError::MissingAddress)
    );
    assert_eq!(
        extract_address(&keystore(text("0xnothex")), None).err(),
        Some(IdentityError::AddressNotHex)
    );
}

#[test]
fn load_needs_keystore_and_password() {
    assert_eq!(
        check_load("default", false, Some("pw")),
        Err(IdentityError::MissingIdentity("default".to_string()))
    );
    assert_eq!(
        check_load("default", false, None),
        Err(IdentityError::MissingIdentity("default".to_string()))
    );
    assert_eq!(check_load("default", true, None), Err(IdentityError::PasswordMissing));
    assert_eq!(check_load("default", true, Some("pw")), Ok("pw"));
    assert_eq!(check_load("default", true, Some("")), Ok(""));
}

#[test]
fn identity_errors_have_their_messages() {
    assert_eq!(IdentityError::InvalidJson.to_string(), "keystore is not valid JSON");
    assert_eq!(IdentityError::NotAnObject.to_string(), "keystore should be a JSON object");
    assert_eq!(IdentityError::PasswordMissing.to_string(), "keystore password missing");
    assert_eq!(
        IdentityError::MissingIdentity("main".to_string()).to_string(),
        "identity `main` is missing; import it with `myst-consumer-rs identities import`"
    );
}
