//! The control API of the node, request by request.
//!
//! Each function takes what a request carries, works on the state, and
//! gives what the answer carries. The wire format and the transport are
//! somebody else's business.

use vstd::prelude::*;
use crate::codec::base64_decode;
use crate::codec::base64_decoded;
use crate::json::json_parsed;
use crate::json::parse_json;
use crate::json::JsonValue;
use crate::state::connected;
use crate::state::lemma_registered_identity_exists;
use crate::state::is_session_id;
use crate::state::peers;
use crate::state::ConfigSnapshot;
use crate::state::ConnectionSnapshot;
use crate::state::ConnectionStatus;
use crate::state::SharedState;
use crate::state::StateModel;
use crate::text::opt_text;
use crate::text::texts;

verus! {

/// Why a request was turned down.
pub enum Rejection {
    /// The request is malformed. The text says why; it is empty where
    /// nothing is said.
    BadRequest(String),
    /// The request is well formed and asks for something that is not
    /// there.
    NotFound,
}

/// A rejection as plain values.
pub enum RejectionModel {
    BadRequest(Seq<char>),
    NotFound,
}

impl View for Rejection {
    type V = RejectionModel;

    open spec fn view(&self) -> RejectionModel {
        match self {
            Rejection::BadRequest(message) => RejectionModel::BadRequest(message@),
            Rejection::NotFound => RejectionModel::NotFound,
        }
    }
}

impl Rejection {
    /// The HTTP status of the rejection.
    pub fn status(&self) -> (code: u16)
        ensures
            code == (if self@ is NotFound {
                404u16
            } else {
                400u16
            }),
    {
        match self {
            Rejection::BadRequest(_) => 400,
            Rejection::NotFound => 404,
        }
    }
}

/// Where the running program was built from.
pub struct BuildInfo {
    pub commit: String,
    pub branch: String,
    pub build_number: String,
}

/// The answer to a health check.
pub struct HealthcheckResponse {
    pub uptime: String,
    pub process: i32,
    pub version: String,
    pub build_info: BuildInfo,
}

/// The terms of a configuration answer.
pub struct TermsData {
    pub consumer_agreed: bool,
    pub provider_agreed: bool,
    pub version: String,
}

/// One chain of a configuration answer.
pub struct ChainData {
    pub chain_id: i64,
    pub hermes: String,
}

/// The body of a configuration answer. `chains` lists each chain under its
/// key, and no key twice.
pub struct ConfigData {
    pub chain_id: i64,
    pub terms: TermsData,
    pub chains: Vec<(String, ChainData)>,
}

/// A configuration answer.
pub struct ConfigResponse {
    pub data: ConfigData,
}

/// The body of a terms update.
pub struct TermsPayload {
    pub agreed_consumer: Option<bool>,
    pub agreed_provider: Option<bool>,
    pub agreed_version: Option<String>,
}

/// The body of an identity import.
pub struct IdentityImportPayload {
    pub data: String,
    pub current_passphrase: Option<String>,
    pub set_default: Option<bool>,
}

/// An answer that names an identity.
pub struct IdentityRefResponse {
    pub id: String,
}

/// The body of a request for the current identity.
pub struct IdentityCurrentPayload {
    pub id: Option<String>,
    pub passphrase: Option<String>,
}

/// What is said of one identity.
pub struct IdentityInfoResponse {
    pub id: String,
    pub registration_status: String,
}

/// The query of a connection status request.
pub struct ConnectionStatusQuery {
    pub id: Option<i32>,
}

/// The providers that a connection may go to.
pub struct ConnectionCreateFilter {
    pub providers: Vec<String>,
}

/// The options of a connection.
pub struct ConnectOptionsPayload {
    pub proxy_port: i32,
}

/// The body of a request for a connection.
pub struct ConnectionCreatePayload {
    pub consumer_id: String,
    pub provider_id: Option<String>,
    pub hermes_id: String,
    pub service_type: String,
    pub filter: ConnectionCreateFilter,
    pub connect_options: Option<ConnectOptionsPayload>,
}

/// What is said of a connection.
pub struct ConnectionInfoResponse {
    pub status: String,
    pub consumer_id: Option<String>,
    pub provider_id: Option<String>,
    pub hermes_id: Option<String>,
    pub session_id: Option<String>,
}

/// The name of a connection status.
pub open spec fn status_text(status: ConnectionStatus) -> Seq<char> {
    match status {
        ConnectionStatus::NotConnected => "NotConnected"@,
        ConnectionStatus::Connected => "Connected"@,
    }
}

impl ConnectionInfoResponse {
    /// Whether the answer says what `snapshot` holds: the status by its
    /// name, and each peer that the snapshot names.
    pub open spec fn tells(self, snapshot: crate::state::SnapshotModel) -> bool {
        &&& self.status@ == status_text(snapshot.status)
        &&& opt_text(self.consumer_id) == snapshot.consumer_id
        &&& opt_text(self.provider_id) == snapshot.provider_id
        &&& opt_text(self.hermes_id) == snapshot.hermes_id
        &&& opt_text(self.session_id) == snapshot.session_id
    }

    /// The answer that tells a snapshot.
    pub fn from(snapshot: ConnectionSnapshot) -> (response: ConnectionInfoResponse)
        ensures
            response.tells(snapshot@),
    {
        let status = match snapshot.status {
            ConnectionStatus::NotConnected => String::from_str("NotConnected"),
            ConnectionStatus::Connected => String::from_str("Connected"),
        };
        ConnectionInfoResponse {
            status,
            consumer_id: snapshot.consumer_id,
            provider_id: snapshot.provider_id,
            hermes_id: snapshot.hermes_id,
            session_id: snapshot.session_id,
        }
    }
}

impl ConfigResponse {
    /// Whether the answer says what `config` holds: the active chain, the
    /// terms, and the two chains under the keys `1` and `2`.
    pub open spec fn tells(self, config: crate::state::ConfigModel) -> bool {
        &&& self.data.chain_id == config.chain_id
        &&& self.data.terms.consumer_agreed == config.terms_consumer_agreed
        &&& self.data.terms.provider_agreed == config.terms_provider_agreed
        &&& self.data.terms.version@ == config.terms_version
        &&& self.data.chains@.len() == 2
        &&& self.data.chains@[0].0@ == "1"@
        &&& self.data.chains@[0].1.chain_id == config.chain1_chain_id
        &&& self.data.chains@[0].1.hermes@ == config.chain1_hermes
        &&& self.data.chains@[1].0@ == "2"@
        &&& self.data.chains@[1].1.chain_id == config.chain2_chain_id
        &&& self.data.chains@[1].1.hermes@ == config.chain2_hermes
    }

    /// The answer that tells a configuration snapshot.
    pub fn from(snapshot: ConfigSnapshot) -> (response: ConfigResponse)
        ensures
            response.tells(snapshot@),
    {
        let mut chains: Vec<(String, ChainData)> = Vec::new();
        chains.push(
            (
                String::from_str("1"),
                ChainData { chain_id: snapshot.chain1_chain_id, hermes: snapshot.chain1_hermes },
            ),
        );
        chains.push(
            (
                String::from_str("2"),
                ChainData { chain_id: snapshot.chain2_chain_id, hermes: snapshot.chain2_hermes },
            ),
        );
        let terms = TermsData {
            consumer_agreed: snapshot.terms_consumer_agreed,
            provider_agreed: snapshot.terms_provider_agreed,
            version: snapshot.terms_version,
        };
        ConfigResponse { data: ConfigData { chain_id: snapshot.chain_id, terms, chains } }
    }
}

/// What `humantime::format_duration` displays for a time span of `secs`
/// seconds and `nanos` nanoseconds.
pub uninterp spec fn uptime_text(secs: u64, nanos: u32) -> Seq<char>;

/// Writes a time span in words. This is `humantime::format_duration` on
/// `Duration::new(secs, nanos)`, displayed: the span in years, months, days
/// and smaller units, as far as they are not zero.
#[verifier::external_body]
fn format_uptime(secs: u64, nanos: u32) -> (text: String)
    requires
        nanos < 1_000_000_000,
    ensures
        text@ == uptime_text(secs, nanos),
{
    humantime::format_duration(std::time::Duration::new(secs, nanos)).to_string()
}

/// Answers a health check for a process with the given id that has been up
/// for `uptime_secs` seconds and `uptime_nanos` nanoseconds.
pub fn healthcheck(uptime_secs: u64, uptime_nanos: u32, process: i32) -> (response:
    HealthcheckResponse)
    requires
        uptime_nanos < 1_000_000_000,
    ensures
        response.uptime@ == uptime_text(uptime_secs, uptime_nanos),
        response.process == process,
        response.version@ == "0.0.1"@,
        response.build_info.commit@ == "<unknown>"@,
        response.build_info.branch@ == "<unknown>"@,
        response.build_info.build_number@ == "dev-build"@,
{
    HealthcheckResponse {
        uptime: format_uptime(uptime_secs, uptime_nanos),
        process,
        version: String::from_str("0.0.1"),
        build_info: BuildInfo {
            commit: String::from_str("<unknown>"),
            branch: String::from_str("<unknown>"),
            build_number: String::from_str("dev-build"),
        },
    }
}

/// Answers a request for the configuration.
pub fn get_config(state: &SharedState) -> (response: ConfigResponse)
    ensures
        response.tells(state@.config()),
{
    ConfigResponse::from(state.config_snapshot())
}

/// Carries out a terms update: the fields that the body holds are stored.
pub fn update_terms(state: &mut SharedState, payload: TermsPayload)
    ensures
        final(state)@ == old(state)@.with_terms(
            payload.agreed_consumer,
            payload.agreed_provider,
            opt_text(payload.agreed_version),
        ),
{
    state.update_terms(payload.agreed_consumer, payload.agreed_provider, payload.agreed_version);
}

/// The address that a keystore document names: the text of its member
/// `address`.
pub open spec fn named_address(document: JsonValue) -> Option<Seq<char>> {
    match document.member("address"@) {
        Some(value) => value.text(),
        None => None,
    }
}

/// The words with which a keystore without an address is turned down.
pub open spec fn no_address_text() -> Seq<char> {
    "identity keystore does not contain address"@
}

/// The state after the identity `address` was imported: it is known, and
/// where the import asks for it, it was also selected.
pub open spec fn after_import(
    state: StateModel,
    address: Seq<char>,
    set_default: Option<bool>,
) -> StateModel {
    if set_default == Some(true) {
        state.with_identity(address).after_selection(Some(address))
    } else {
        state.with_identity(address)
    }
}

/// An identity that was imported is known afterwards, and one that was
/// imported as the default under a non-empty address is the current one.
pub proof fn lemma_imported_identity_is_known(
    state: StateModel,
    address: Seq<char>,
    set_default: Option<bool>,
)
    ensures
        after_import(state, address, set_default).has_identity(address),
        set_default == Some(true) && address.len() > 0 ==> after_import(
            state,
            address,
            set_default,
        ).current == Some(address),
        set_default != Some(true) ==> after_import(state, address, set_default).current
            == state.current,
{
    lemma_registered_identity_exists(state, address, address);
}

/// Imports the identity of a decoded keystore.
///
/// A document that names an address registers it, and selects it where
/// `set_default` says so. A document that names none is turned down as a
/// bad request and changes nothing.
pub fn register_keystore(
    state: &mut SharedState,
    document: &JsonValue,
    set_default: Option<bool>,
) -> (response: Result<IdentityRefResponse, Rejection>)
    ensures
        match named_address(*document) {
            Some(address) => {
                &&& response is Ok
                &&& response->Ok_0.id@ == address
                &&& final(state)@ == after_import(old(state)@, address, set_default)
            },
            None => {
                &&& response is Err
                &&& response->Err_0@ == RejectionModel::BadRequest(no_address_text())
                &&& final(state)@ == old(state)@
            },
        },
{
    let address = match document.get("address") {
        Some(value) => match value.as_str() {
            Some(text) => text.to_owned(),
            None => {
                return Err(
                    Rejection::BadRequest(
                        String::from_str("identity keystore does not contain address"),
                    ),
                );
            },
        },
        None => {
            return Err(
                Rejection::BadRequest(
                    String::from_str("identity keystore does not contain address"),
                ),
            );
        },
    };
    state.import_identity(address.clone(), String::new());
    if let Some(true) = set_default {
        let _ = state.current_identity(Some(address.clone()));
    }
    Ok(IdentityRefResponse { id: address })
}

/// What an import request comes to: the address that is imported, or the
/// words with which the request is turned down.
///
/// The data of the request is base64; what it decodes to is the JSON text
/// of a keystore; the keystore names the address.
pub open spec fn import_outcome(data: Seq<char>) -> Result<Seq<char>, Seq<char>> {
    match base64_decoded(data) {
        Err(message) => Err(message),
        Ok(bytes) => match json_parsed(bytes) {
            Err(message) => Err(message),
            Ok(document) => match named_address(document) {
                Some(address) => Ok(address),
                None => Err(no_address_text()),
            },
        },
    }
}

/// Carries out an identity import.
///
/// A request that comes to an address registers it, selects it where the
/// request says so, and is answered with the address. Every other request
/// is turned down as a bad request with the reason, and changes nothing.
pub fn import_identity(state: &mut SharedState, payload: IdentityImportPayload) -> (response:
    Result<IdentityRefResponse, Rejection>)
    ensures
        match import_outcome(payload.data@) {
            Ok(address) => {
                &&& response is Ok
                &&& response->Ok_0.id@ == address
                &&& final(state)@ == after_import(old(state)@, address, payload.set_default)
            },
            Err(message) => {
                &&& response is Err
                &&& response->Err_0@ == RejectionModel::BadRequest(message)
                &&& final(state)@ == old(state)@
            },
        },
{
    let decoded = match base64_decode(payload.data.as_str()) {
        Ok(bytes) => bytes,
        Err(message) => {
            return Err(Rejection::BadRequest(message));
        },
    };
    let document = match parse_json(decoded.as_slice()) {
        Ok(document) => document,
        Err(message) => {
            return Err(Rejection::BadRequest(message));
        },
    };
    register_keystore(state, &document, payload.set_default)
}

/// Carries out a request for the current identity: the identity that the
/// selection resolves to is the answer, and a selection that resolves to
/// none is answered with not found.
pub fn set_current_identity(state: &mut SharedState, payload: IdentityCurrentPayload) -> (response:
    Result<IdentityRefResponse, Rejection>)
    ensures
        final(state)@ == old(state)@.after_selection(opt_text(payload.id)),
        match old(state)@.selection(opt_text(payload.id)) {
            Some(address) => response is Ok && response->Ok_0.id@ == address,
            None => response is Err && response->Err_0@ == RejectionModel::NotFound,
        },
{
    match state.current_identity(payload.id) {
        Some(identity) => Ok(IdentityRefResponse { id: identity }),
        None => Err(Rejection::NotFound),
    }
}

/// The registration status that is said of every known identity.
pub open spec fn registered_text() -> Seq<char> {
    "Registered"@
}

/// Answers a request for one identity: a known one is said to be
/// registered, an unknown one is not found.
pub fn get_identity(state: &SharedState, id: String) -> (response: Result<
    IdentityInfoResponse,
    Rejection,
>)
    ensures
        state@.has_identity(id@) ==> response is Ok && response->Ok_0.id@ == id@
            && response->Ok_0.registration_status@ == registered_text(),
        !state@.has_identity(id@) ==> response is Err && response->Err_0@
            == RejectionModel::NotFound,
{
    if !state.identity_exists(id.as_str()) {
        return Err(Rejection::NotFound);
    }
    Ok(IdentityInfoResponse { id, registration_status: String::from_str("Registered") })
}

/// The port that a status query asks about: port 0 where it names none.
pub open spec fn queried_port(query: ConnectionStatusQuery) -> i32 {
    match query.id {
        Some(port) => port,
        None => 0,
    }
}

/// Answers a request for the status of a connection.
pub fn get_connection_status(state: &SharedState, query: ConnectionStatusQuery) -> (response:
    ConnectionInfoResponse)
    ensures
        response.tells(state@.status(queried_port(query))),
{
    let port = match query.id {
        Some(port) => port,
        None => 0,
    };
    ConnectionInfoResponse::from(state.connection_status(port))
}

/// The provider that a connection request names.
///
/// The provider id of the request is taken where it is given and not
/// empty. Otherwise the first provider of the filter is taken, where there
/// is one and it is not empty. Otherwise the request names no provider.
pub open spec fn provider_choice(provider_id: Option<Seq<char>>, providers: Seq<Seq<char>>) -> Option<
    Seq<char>,
> {
    if provider_id is Some && provider_id->0.len() > 0 {
        provider_id
    } else if providers.len() > 0 && providers[0].len() > 0 {
        Some(providers[0])
    } else {
        None
    }
}

/// Picks the provider that a connection request names.
pub fn resolve_provider(provider_id: Option<String>, providers: &Vec<String>) -> (provider: Option<
    String,
>)
    ensures
        opt_text(provider) == provider_choice(opt_text(provider_id), texts(providers@)),
{
    if let Some(id) = provider_id {
        if !id.as_str().is_empty() {
            return Some(id);
        }
    }
    if providers.len() > 0 {
        if !providers[0].as_str().is_empty() {
            return Some(providers[0].clone());
        }
    }
    None
}

/// The port that a connection request asks for: port 0 where it has no
/// options.
pub open spec fn requested_port(options: Option<ConnectOptionsPayload>) -> i32 {
    match options {
        Some(given) => given.proxy_port,
        None => 0,
    }
}

/// Carries out a request for a connection.
///
/// A request that names a provider opens a connection on the requested
/// port under a fresh session id, and the answer tells it. A request that
/// names none is turned down as a bad request and changes nothing.
pub fn create_connection(state: &mut SharedState, payload: ConnectionCreatePayload) -> (response:
    Result<ConnectionInfoResponse, Rejection>)
    ensures
        match provider_choice(opt_text(payload.provider_id), texts(payload.filter.providers@)) {
            Some(provider) => {
                &&& response is Ok
                &&& response->Ok_0.session_id is Some
                &&& is_session_id(response->Ok_0.session_id->0@)
                &&& response->Ok_0.tells(
                    connected(
                        peers(
                            payload.consumer_id@,
                            provider,
                            payload.hermes_id@,
                            response->Ok_0.session_id->0@,
                        ),
                    ),
                )
                &&& final(state)@ == old(state)@.with_connection(
                    requested_port(payload.connect_options),
                    peers(
                        payload.consumer_id@,
                        provider,
                        payload.hermes_id@,
                        response->Ok_0.session_id->0@,
                    ),
                )
            },
            None => {
                &&& response is Err
                &&& response->Err_0@ == RejectionModel::BadRequest(Seq::empty())
                &&& final(state)@ == old(state)@
            },
        },
{
    let proxy_port = match payload.connect_options {
        Some(options) => options.proxy_port,
        None => 0,
    };
    let provider_id = match resolve_provider(payload.provider_id, &payload.filter.providers) {
        Some(provider) => provider,
        None => {
            return Err(Rejection::BadRequest(String::new()));
        },
    };
    let snapshot = state.create_connection(
        proxy_port,
        payload.consumer_id,
        provider_id,
        payload.hermes_id,
        payload.service_type,
    );
    Ok(ConnectionInfoResponse::from(snapshot))
}

} // verus!
