use base64::engine::general_purpose;
use base64::Engine;
use consumer_rs::client::connection_create_request;
use consumer_rs::client::identity_import_request;
use consumer_rs::client::ConnectionStatus;
use consumer_rs::config_view::RemoteConfigView;
use consumer_rs::json::JsonValue;
use consumer_rs::server::get_config;
use consumer_rs::server::import_identity;
use consumer_rs::server::IdentityImportPayload;
use consumer_rs::state::SharedState;

fn object(members: Vec<(&str, JsonValue)>) -> Vec<(String, JsonValue)> {
    members.into_iter().map(|(k, v)| (k.to_string(), v)).collect()
}

#[test]
fn import_identity_encodes_payload() {
    let keystore = r#"{"address":"0xabc"}"#;
    let expected_base64 = general_purpose::STANDARD.encode(keystore.as_bytes());

    let body = identity_import_request("secret", keystore);
    assert_eq!(body.data, expected_base64);
    assert_eq!(body.current_passphrase, "secret");
    assert!(body.set_default);

    let mut state = SharedState::new("1.0.0".to_string());
    let answer = import_identity(
        &mut state,
        IdentityImportPayload {
            data: body.data,
            current_passphrase: Some(body.current_passphrase),
            set_default: Some(body.set_default),
        },
    );
    let id = answer.ok().unwrap().id;

    assert_eq!(id, "0xabc");
    assert_eq!(state.current_identity(None).as_deref(), Some("0xabc"));
}

#[test]
fn fetch_config_returns_remote_view() {
    let view = RemoteConfigView::new(object(vec![
        ("chain-id", JsonValue::Number(Some(1))),
        (
            "chains",
            JsonValue::Object(object(vec![
                (
                    "1",
                    JsonValue::Object(object(vec![
                        ("chainid", JsonValue::Number(Some(1))),
                        ("hermes", JsonValue::Text("0xhermes".to_string())),
                    ])),
                ),
                (
                    "2",
                    JsonValue::Object(object(vec![
                        ("chainid", JsonValue::Number(Some(137))),
                        ("hermes", JsonValue::Text("0xother".to_string())),
                    ])),
                ),
            ])),
        ),
    ]));

    assert_eq!(view.get_i64("chain-id"), Some(1));
    assert_eq!(view.hermes_id().unwrap(), "0xhermes");
}

#[test]
fn smart_connection_create_sends_expected_payload() {
    let body = connection_create_request(
        "0xconsumer",
        "0xhermes",
        "wireguard",
        vec!["0xprovider".to_string()],
        10000,
    );
    assert_eq!(body.consumer_id, "0xconsumer");
    assert_eq!(body.provider_id, None);
    assert_eq!(body.hermes_id, "0xhermes");
    assert_eq!(body.service_type, "wireguard");
    assert_eq!(body.filter.providers, vec!["0xprovider".to_string()]);
    assert!(!body.connect_options.kill_switch);
    assert_eq!(body.connect_options.dns, "auto");
    assert_eq!(body.connect_options.proxy_port, 10000);

    let status = ConnectionStatus { status: "NotConnected".to_string() };
    assert!(status.is_idle());
}

#[test]
fn served_config_reads_back_through_the_view() {
    let state = SharedState::new("1.0.0".to_string());
    let answer = get_config(&state);
    let chains = answer
        .data
        .chains
        .into_iter()
        .map(|(key, chain)| {
            (
                key,
                JsonValue::Object(object(vec![
                    ("chainid", JsonValue::Number(Some(chain.chain_id))),
                    ("hermes", JsonValue::Text(chain.hermes)),
                ])),
            )
        })
        .collect();
    let view = RemoteConfigView::new(object(vec![
        ("chain-id", JsonValue::Number(Some(answer.data.chain_id))),
        (
            "terms",
            JsonValue::Object(object(vec![
                ("consumer-agreed", JsonValue::Bool(answer.data.terms.consumer_agreed)),
                ("provider-agreed", JsonValue::Bool(answer.data.terms.provider_agreed)),
                ("version", JsonValue::Text(answer.data.terms.version)),
            ])),
        ),
        ("chains", JsonValue::Object(chains)),
    ]));

    assert_eq!(view.get_i64("chain-id"), Some(137));
    assert!(!view.get_bool("terms.consumer-agreed"));
    assert_eq!(view.get_string("terms.version").as_deref(), Some("1.0.0"));
    assert_eq!(view.hermes_id().unwrap(), "0x80ed28d84792d8b153bf2f25f0c4b7a1381de4ab");
}
