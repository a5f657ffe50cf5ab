use consumer_rs::config_view::ConfigError;
use consumer_rs::config_view::RemoteConfigView;
use consumer_rs::json::JsonValue;

fn object(members: Vec<(&str, JsonValue)>) -> JsonValue {
    JsonValue::Object(members.into_iter().map(|(k, v)| (k.to_string(), v)).collect())
}

fn number(n: i64) -> JsonValue {
    JsonValue::Number(Some(n))
}

fn string(s: &str) -> JsonValue {
    JsonValue::Text(s.to_string())
}

fn view_from_json(value: JsonValue) -> RemoteConfigView {
    match value {
        JsonValue::Object(members) => RemoteConfigView::new(members),
        other => panic!("expected object, got {other:?}"),
    }
}

fn chains(active: JsonValue) -> JsonValue {
    object(vec![
        ("chain-id", active),
        (
            "chains",
            object(vec![
                ("1", object(vec![("chainid", number(1)), ("hermes", string("0xhermes1"))])),
                ("2", object(vec![("chainid", number(137)), ("hermes", string("0xhermes2"))])),
            ]),
        ),
    ])
}

#[test]
fn get_helpers_extract_values() {
    let view = view_from_json(object(vec![
        ("terms", object(vec![("consumer-agreed", JsonValue::Bool(true))])),
        (
            "chains",
            object(vec![("1", object(vec![("chainid", number(1)), ("hermes", string("0xabc"))]))]),
        ),
    ]));

    assert!(view.get_bool("terms.consumer-agreed"));
    assert_eq!(view.get_i64("chains.1.chainid"), Some(1));
    assert_eq!(view.get_string("chains.1.hermes").as_deref(), Some("0xabc"));
}

#[test]
fn hermes_id_prefers_matching_chain() {
    let view = view_from_json(chains(number(1)));

    assert_eq!(view.hermes_id().unwrap(), "0xhermes1");
}

#[test]
fn hermes_id_errors_when_chain_is_unknown() {
    let view = view_from_json(chains(number(999)));

    let err = view.hermes_id().unwrap_err();
    assert!(err
        .to_string()
        .contains("no hermes specified for chain 999"));
}

#[test]
fn hermes_id_takes_the_second_chain() {
    let view = view_from_json(chains(number(137)));
    assert_eq!(view.hermes_id().unwrap(), "0xhermes2");
}

#[test]
fn hermes_id_names_what_is_missing() {
    let empty = view_from_json(object(vec![]));
    assert_eq!(empty.hermes_id(), Err(ConfigError::MissingChainId));
    assert_eq!(ConfigError::MissingChainId.to_string(), "missing chain id");

    let no_chains = view_from_json(object(vec![("chain-id", number(1))]));
    assert_eq!(no_chains.hermes_id(), Err(ConfigError::MissingChain1Id));
    assert_eq!(ConfigError::MissingChain1Id.to_string(), "missing chain 1 id");

    let no_hermes = view_from_json(object(vec![
        ("chain-id", number(1)),
        ("chains", object(vec![("1", object(vec![("chainid", number(1))]))])),
    ]));
    assert_eq!(no_hermes.hermes_id(), Err(ConfigError::MissingChain1Hermes));
    assert_eq!(ConfigError::MissingChain1Hermes.to_string(), "missing chain 1 hermes id");

    let no_second = view_from_json(object(vec![
        ("chain-id", number(5)),
        ("chains", object(vec![("1", object(vec![("chainid", number(1))]))])),
    ]));
    assert_eq!(no_second.hermes_id(), Err(ConfigError::MissingChain2Id));
    assert_eq!(ConfigError::MissingChain2Id.to_string(), "missing chain 2 id");

    let no_second_hermes = view_from_json(object(vec![
        ("chain-id", number(5)),
        (
            "chains",
            object(vec![
                ("1", object(vec![("chainid", number(1))])),
                ("2", object(vec![("chainid", number(5)), ("hermes", number(3))])),
            ]),
        ),
    ]));
    assert_eq!(no_second_hermes.hermes_id(), Err(ConfigError::MissingChain2Hermes));
    assert_eq!(ConfigError::MissingChain2Hermes.to_string(), "missing chain 2 hermes id");
}

#[test]
fn unknown_chain_is_named_in_the_error() {
    let view = view_from_json(chains(number(-42)));
    assert_eq!(view.hermes_id(), Err(ConfigError::UnknownChain(-42)));
    assert_eq!(
        ConfigError::UnknownChain(-42).to_string(),
        "no hermes specified for chain -42"
    );
    assert_eq!(
        ConfigError::UnknownChain(i64::MIN).to_string(),
        "no hermes specified for chain -9223372036854775808"
    );
    assert_eq!(
        ConfigError::UnknownChain(0).to_string(),
        "no hermes specified for chain 0"
    );
}

#[test]
fn first_chain_wins_when_both_match() {
    let view = view_from_json(object(vec![
        ("chain-id", number(7)),
        (
            "chains",
            object(vec![
                ("1", object(vec![("chainid", number(7)), ("hermes", string("0xone"))])),
                ("2", object(vec![("chainid", number(7)), ("hermes", string("0xtwo"))])),
            ]),
        ),
    ]));
    assert_eq!(view.hermes_id().unwrap(), "0xone");
}

#[test]
fn chain_id_has_to_be_an_integer() {
    let view = view_from_json(chains(string("1")));
    assert_eq!(view.hermes_id(), Err(ConfigError::MissingChainId));
    let view = view_from_json(chains(JsonValue::Number(None)));
    assert_eq!(view.hermes_id(), Err(ConfigError::MissingChainId));
}

#[test]
fn keys_are_lower_cased_before_the_lookup() {
    let view = view_from_json(chains(number(1)));
    assert_eq!(view.get_string("Chains.1.HERMES").as_deref(), Some("0xhermes1"));
    assert_eq!(view.get_i64("CHAIN-ID"), Some(1));
    assert!(view.get_exact("Chains.1.HERMES").is_none());
    assert_eq!(
        view.get_exact("chains.1.hermes"),
        Some(&JsonValue::Text("0xhermes1".to_string()))
    );
}

#[test]
fn upper_case_members_are_out_of_reach() {
    let view = view_from_json(object(vec![("Terms", JsonValue::Bool(true))]));
    assert!(!view.get_bool("Terms"));
    assert!(!view.get_bool("terms"));
    assert_eq!(view.get_exact("Terms"), Some(&JsonValue::Bool(true)));
}

#[test]
fn paths_stop_at_what_is_no_object() {
    let view = view_from_json(object(vec![
        ("a", object(vec![("b", number(3))])),
        ("", object(vec![("", string("empty"))])),
        ("list", JsonValue::Array(vec![number(1)])),
    ]));
    assert_eq!(view.get_i64("a.b"), Some(3));
    assert_eq!(view.get_i64("a.b.c"), None);
    assert_eq!(view.get_i64("a.c"), None);
    assert_eq!(view.get_i64("a"), None);
    assert_eq!(view.get_i64("list.0"), None);
    assert!(view.get("a").is_some());
    assert_eq!(view.get_string(".").as_deref(), Some("empty"));
    assert!(view.get("").is_some());
    assert!(view.get("a.").is_none());
    assert!(view.get(".a").is_none());
}

#[test]
fn helpers_fall_back_on_other_kinds() {
    let view = view_from_json(object(vec![
        ("flag", JsonValue::Bool(false)),
        ("text", string("yes")),
        ("count", number(9)),
        ("nothing", JsonValue::Null),
    ]));
    assert!(!view.get_bool("flag"));
    assert!(!view.get_bool("text"));
    assert!(!view.get_bool("missing"));
    assert_eq!(view.get_string("count"), None);
    assert_eq!(view.get_string("nothing"), None);
    assert_eq!(view.get_i64("text"), None);
    assert_eq!(view.get_i64("count"), Some(9));
}

#[test]
fn first_member_with_a_key_is_taken() {
    let view = view_from_json(object(vec![("k", number(1)), ("k", number(2))]));
    assert_eq!(view.get_i64("k"), Some(1));
}
