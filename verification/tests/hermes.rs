use consumer_rs::hermes::chain_entry;
use consumer_rs::hermes::chain_key;
use consumer_rs::hermes::check_status;
use consumer_rs::hermes::consumer_path;
use consumer_rs::hermes::provider_path;
use consumer_rs::hermes::HermesError;
use consumer_rs::hermes::HermesUserInfo;
use consumer_rs::hermes::PromiseInfo;
use consumer_rs::json::JsonValue;

fn record(balance: &str) -> JsonValue {
    JsonValue::Object(vec![("balance".to_string(), JsonValue::Text(balance.to_string()))])
}

#[test]
fn promise_is_described_by_amount_and_fee() {
    let promise = PromiseInfo { amount: "12".to_string(), fee: "3".to_string() };
    assert_eq!(promise.to_string(), "amount=12 fee=3");
    let empty = PromiseInfo { amount: String::new(), fee: String::new() };
    assert_eq!(empty.to_string(), "amount= fee=");
}

#[test]
fn record_is_described_with_and_without_a_promise() {
    let plain = HermesUserInfo { balance: "100".to_string(), latest_promise: None };
    assert_eq!(plain.to_string(), "balance=100");
    assert_eq!(plain.latest_promise_text(), "none");

    let promised = HermesUserInfo {
        balance: "100".to_string(),
        latest_promise: Some(PromiseInfo { amount: "12".to_string(), fee: "3".to_string() }),
    };
    assert_eq!(promised.to_string(), "balance=100 amount=12 fee=3");
    assert_eq!(promised.latest_promise_text(), "amount=12 fee=3");
}

#[test]
fn record_paths_name_the_party() {
    assert_eq!(consumer_path("0xabc"), "data/consumer/0xabc");
    assert_eq!(provider_path("0xdef"), "data/provider/0xdef");
    assert_eq!(consumer_path(""), "data/consumer/");
}

#[test]
fn only_status_404_says_not_found() {
    assert_eq!(check_status(404), Err(HermesError::NotFound));
    for status in [0, 200, 204, 403, 405, 500, u16::MAX] {
        assert_eq!(check_status(status), Ok(()));
    }
    assert_eq!(HermesError::NotFound.to_string(), "record not found on Hermes");
}

#[test]
fn chain_record_is_found_under_the_decimal_id() {
    let payload = JsonValue::Object(vec![
        ("1".to_string(), record("one")),
        ("137".to_string(), record("polygon")),
        ("-5".to_string(), record("negative")),
    ]);
    assert_eq!(chain_entry(&payload, 137), Ok(&record("polygon")));
    assert_eq!(chain_entry(&payload, 1), Ok(&record("one")));
    assert_eq!(chain_entry(&payload, -5), Ok(&record("negative")));
    assert_eq!(chain_entry(&payload, 2), Err(HermesError::MissingChain(2)));
    assert_eq!(chain_entry(&payload, 13), Err(HermesError::MissingChain(13)));
    assert_eq!(
        HermesError::MissingChain(2).to_string(),
        "Hermes did not return data for chain 2"
    );
}

#[test]
fn payload_has_to_be_an_object() {
    for payload in [
        JsonValue::Null,
        JsonValue::Bool(true),
        JsonValue::Number(Some(1)),
        JsonValue::Text("1".to_string()),
        JsonValue::Array(vec![record("x")]),
    ] {
        assert_eq!(chain_entry(&payload, 1), Err(HermesError::UnexpectedPayload));
    }
    assert_eq!(HermesError::UnexpectedPayload.to_string(), "unexpected Hermes payload");
}

#[test]
fn chain_key_is_the_id_in_decimal() {
    assert_eq!(chain_key(0), "0");
    assert_eq!(chain_key(9), "9");
    assert_eq!(chain_key(10), "10");
    assert_eq!(chain_key(137), "137");
    assert_eq!(chain_key(-1), "-1");
    assert_eq!(chain_key(i64::MAX), "9223372036854775807");
    assert_eq!(chain_key(i64::MIN), "-9223372036854775808");
}
