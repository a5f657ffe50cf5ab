//! The requests that a consumer sends to the node's control API, and what
//! it reads from the answers.

use vstd::prelude::*;
use vstd::string::StringSliceAdditionalSpecFns;
use crate::codec::base64_encode;
use crate::codec::base64_text;
use crate::text::decimal;
use crate::text::glue;
use crate::text::i64_text;
use crate::text::texts;

verus! {

/// The status text of a port without a connection.
pub open spec fn status_not_connected() -> Seq<char> {
    "NotConnected"@
}

/// The state of a connection as the node reports it.
pub struct ConnectionStatus {
    pub status: String,
}

impl ConnectionStatus {
    /// Whether the node reports no connection.
    pub fn is_idle(&self) -> (idle: bool)
        ensures
            idle == (self.status@ == status_not_connected()),
    {
        let idle_status = String::from_str("NotConnected");
        self.status == idle_status
    }
}

/// What the node says of an identity.
pub struct IdentityResponse {
    pub registration_status: String,
}

/// The body of a terms update.
pub struct TermsRequest {
    pub agreed_consumer: Option<bool>,
    pub agreed_provider: Option<bool>,
    pub agreed_version: String,
}

/// The body of an identity import.
pub struct IdentityImportRequest {
    pub data: String,
    pub current_passphrase: String,
    pub set_default: bool,
}

/// The body of a request for the current identity.
pub struct IdentityCurrentRequest {
    pub id: Option<String>,
    pub passphrase: Option<String>,
}

/// The providers that a connection may go to.
pub struct ConnectionCreateFilter {
    pub providers: Vec<String>,
}

/// The options of a connection.
pub struct ConnectOptions {
    pub kill_switch: bool,
    pub dns: String,
    pub proxy_port: i32,
}

/// The body of a request for a connection.
pub struct ConnectionCreateRequest {
    pub consumer_id: String,
    pub provider_id: Option<String>,
    pub hermes_id: String,
    pub service_type: String,
    pub filter: ConnectionCreateFilter,
    pub connect_options: ConnectOptions,
}

/// The address of an endpoint: the base address of the node, then the path.
pub fn endpoint(base_url: &str, path: &str) -> (url: String)
    ensures
        url@ == base_url@ + path@,
{
    glue(base_url, path)
}

/// The address under which the node answers for one identity.
pub fn identity_endpoint(base_url: &str, address: &str) -> (url: String)
    ensures
        url@ == base_url@ + "/identities/"@ + address@,
{
    glue(base_url, "/identities/").concat(address)
}

/// The query of a connection status request: the name `id` and the proxy
/// port in decimal.
pub fn connection_query(proxy_port: i32) -> (query: (String, String))
    ensures
        query.0@ == "id"@,
        query.1@ == decimal(proxy_port as int),
{
    (String::from_str("id"), i64_text(proxy_port as i64))
}

/// A terms update that states both agreements and the version.
pub fn terms_request(consumer: bool, provider: bool, version: &str) -> (body: TermsRequest)
    ensures
        body.agreed_consumer == Some(consumer),
        body.agreed_provider == Some(provider),
        body.agreed_version@ == version@,
{
    TermsRequest {
        agreed_consumer: Some(consumer),
        agreed_provider: Some(provider),
        agreed_version: version.to_owned(),
    }
}

/// An import of the keystore `key`: the keystore travels as the base64 of
/// its UTF-8 bytes, and the imported identity is to become the default.
pub fn identity_import_request(passphrase: &str, key: &str) -> (body: IdentityImportRequest)
    ensures
        body.data@ == base64_text(key.spec_bytes()),
        body.current_passphrase@ == passphrase@,
        body.set_default,
{
    IdentityImportRequest {
        data: base64_encode(key.as_bytes()),
        current_passphrase: passphrase.to_owned(),
        set_default: true,
    }
}

/// A request for the current identity that names none: the id and the
/// passphrase are present and empty.
pub fn identity_current_request() -> (body: IdentityCurrentRequest)
    ensures
        body.id is Some && body.id->0@.len() == 0,
        body.passphrase is Some && body.passphrase->0@.len() == 0,
{
    IdentityCurrentRequest { id: Some(String::new()), passphrase: Some(String::new()) }
}

/// A request for a connection to one of `providers`: no provider is named
/// outright, the kill switch is off and the DNS choice is left to the node.
pub fn connection_create_request(
    consumer_id: &str,
    hermes_id: &str,
    service_type: &str,
    providers: Vec<String>,
    proxy_port: i32,
) -> (body: ConnectionCreateRequest)
    ensures
        body.consumer_id@ == consumer_id@,
        body.provider_id is None,
        body.hermes_id@ == hermes_id@,
        body.service_type@ == service_type@,
        texts(body.filter.providers@) == texts(providers@),
        !body.connect_options.kill_switch,
        body.connect_options.dns@ == "auto"@,
        body.connect_options.proxy_port == proxy_port,
{
    ConnectionCreateRequest {
        consumer_id: consumer_id.to_owned(),
        provider_id: None,
        hermes_id: hermes_id.to_owned(),
        service_type: service_type.to_owned(),
        filter: ConnectionCreateFilter { providers },
        connect_options: ConnectOptions {
            kill_switch: false,
            dns: String::from_str("auto"),
            proxy_port,
        },
    }
}

} // verus!
