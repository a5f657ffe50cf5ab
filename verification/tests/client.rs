use consumer_rs::client::connection_create_request;
use consumer_rs::client::connection_query;
use consumer_rs::client::endpoint;
use consumer_rs::client::identity_current_request;
use consumer_rs::client::identity_endpoint;
use consumer_rs::client::identity_import_request;
use consumer_rs::client::terms_request;
use consumer_rs::client::ConnectionStatus;
use consumer_rs::client::IdentityResponse;

#[test]
fn connection_status_idle_helper() {
    let idle = ConnectionStatus {
        status: "NotConnected".to_string(),
    };
    let connected = ConnectionStatus {
        status: "Connected".to_string(),
    };

    assert!(idle.is_idle());
    assert!(!connected.is_idle());
}

#[test]
fn idle_status_is_matched_exactly() {
    for status in ["", "notconnected", "NotConnected ", "NotConnecte", "Connecting"] {
        let answer = ConnectionStatus { status: status.to_string() };
        assert!(!answer.is_idle());
    }
}

#[test]
fn identity_response_holds_the_status() {
    let answer = IdentityResponse { registration_status: "Registered".to_string() };
    assert_eq!(answer.registration_status, "Registered");
}

#[test]
fn import_request_carries_the_keystore_as_base64() {
    let body = identity_import_request("secret", r#"{"address":"0xabc"}"#);
    assert_eq!(body.data, "eyJhZGRyZXNzIjoiMHhhYmMifQ==");
    assert_eq!(body.current_passphrase, "secret");
    assert!(body.set_default);
}

#[test]
fn base64_pads_short_groups() {
    assert_eq!(identity_import_request("", "").data, "");
    assert_eq!(identity_import_request("", "M").data, "TQ==");
    assert_eq!(identity_import_request("", "Ma").data, "TWE=");
    assert_eq!(identity_import_request("", "Man").data, "TWFu");
    assert_eq!(identity_import_request("", "not json").data, "bm90IGpzb24=");
    assert_eq!(identity_import_request("", "\u{fb}").data, "w7s=");
}

#[test]
fn terms_request_states_every_field() {
    let body = terms_request(true, false, "1.2.3");
    assert_eq!(body.agreed_consumer, Some(true));
    assert_eq!(body.agreed_provider, Some(false));
    assert_eq!(body.agreed_version, "1.2.3");
}

#[test]
fn current_identity_request_names_nobody() {
    let body = identity_current_request();
    assert_eq!(body.id.as_deref(), Some(""));
    assert_eq!(body.passphrase.as_deref(), Some(""));
}

#[test]
fn connection_request_leaves_the_choice_to_the_filter() {
    let body = connection_create_request(
        "0xconsumer",
        "0xhermes",
        "wireguard",
        vec!["0xprovider".to_string()],
        10000,
    );
    assert_eq!(body.consumer_id, "0xconsumer");
    assert_eq!(body.provider_id, None);
    assert_eq!(body.hermes_id, "0xhermes");
    assert_eq!(body.service_type, "wireguard");
    assert_eq!(body.filter.providers, vec!["0xprovider".to_string()]);
    assert!(!body.connect_options.kill_switch);
    assert_eq!(body.connect_options.dns, "auto");
    assert_eq!(body.connect_options.proxy_port, 10000);
}

#[test]
fn endpoints_follow_the_base_address() {
    assert_eq!(endpoint("http://127.0.0.1:4050", "/terms"), "http://127.0.0.1:4050/terms");
    assert_eq!(endpoint("", "/config"), "/config");
    assert_eq!(
        identity_endpoint("http://node", "0xabc"),
        "http://node/identities/0xabc"
    );
}

#[test]
fn connection_query_names_the_port_in_decimal() {
    assert_eq!(connection_query(10000), ("id".to_string(), "10000".to_string()));
    assert_eq!(connection_query(0), ("id".to_string(), "0".to_string()));
    assert_eq!(connection_query(-7), ("id".to_string(), "-7".to_string()));
    assert_eq!(
        connection_query(i32::MIN),
        ("id".to_string(), "-2147483648".to_string())
    );
}
