use consumer_rs::contact::resolve_contact;
use consumer_rs::contact::ContactError;

#[test]
fn explicit_contact_is_taken_as_it_is() {
    assert_eq!(resolve_contact("0xprovider", Some("10.0.0.1:9"), 4050).unwrap(), "10.0.0.1:9");
    assert_eq!(resolve_contact("", Some(""), 4050).unwrap(), "");
    assert_eq!(resolve_contact("host:1", Some("other"), 4050).unwrap(), "other");
}

#[test]
fn provider_with_a_colon_is_an_endpoint() {
    assert_eq!(resolve_contact("example.org:1234", None, 4050).unwrap(), "example.org:1234");
    assert_eq!(resolve_contact(":", None, 4050).unwrap(), ":");
}

#[test]
fn remote_port_follows_a_bare_host() {
    assert_eq!(resolve_contact("example.org", None, 4050).unwrap(), "example.org:4050");
    assert_eq!(resolve_contact("h", None, 0).unwrap(), "h:0");
    assert_eq!(resolve_contact("h", None, 65535).unwrap(), "h:65535");
    assert_eq!(resolve_contact("h", None, 10).unwrap(), "h:10");
}

#[test]
fn empty_provider_names_nothing() {
    assert_eq!(resolve_contact("", None, 4050), Err(ContactError::EmptyProvider));
    assert_eq!(
        ContactError::EmptyProvider.to_string(),
        "provider id is empty; specify --contact or host:port"
    );
}
