//! The in-memory state of the broker: terms, identities and connections.
//!
//! `SharedState` owns every piece of mutable control-plane data. Its
//! mathematical picture is `StateModel`; each operation of the engine is
//! stated as a function on that model, and the laws at the end of this file
//! relate those functions to one another.

use std::collections::HashMap;
use std::time::Duration;
use std::time::Instant;
use vstd::prelude::*;
use crate::text::opt_text;
use crate::text::texts;

verus! {

broadcast use vstd::std_specs::hash::group_hash_axioms;

/// Whether a local proxy port carries a connection.
#[derive(Clone, Copy, PartialEq, Eq, Structural, Debug)]
pub enum ConnectionStatus {
    NotConnected,
    Connected,
}

/// The peers of one connection, as characters.
pub struct RecordModel {
    pub consumer_id: Seq<char>,
    pub provider_id: Seq<char>,
    pub hermes_id: Seq<char>,
    pub session_id: Seq<char>,
}

/// What a caller is told about a port, as characters.
pub struct SnapshotModel {
    pub status: ConnectionStatus,
    pub consumer_id: Option<Seq<char>>,
    pub provider_id: Option<Seq<char>>,
    pub hermes_id: Option<Seq<char>>,
    pub session_id: Option<Seq<char>>,
}

/// The terms and chain bindings, as characters.
pub struct ConfigModel {
    pub terms_consumer_agreed: bool,
    pub terms_provider_agreed: bool,
    pub terms_version: Seq<char>,
    pub chain_id: i64,
    pub chain1_chain_id: i64,
    pub chain1_hermes: Seq<char>,
    pub chain2_chain_id: i64,
    pub chain2_hermes: Seq<char>,
}

/// The engine as a mathematical value.
///
/// `identities` lists the known addresses in the order in which they were
/// first registered; `connections` maps a proxy port to its peers.
pub struct StateModel {
    pub consumer_agreed: bool,
    pub provider_agreed: bool,
    pub version: Seq<char>,
    pub identities: Seq<Seq<char>>,
    pub current: Option<Seq<char>>,
    pub connections: Map<i32, RecordModel>,
}

/// The chain that is active unless a caller says otherwise.
pub const CHAIN_ID_DEFAULT: i64 = 137;

/// The id of the first known chain.
pub const CHAIN1_ID: i64 = 1;

/// The id of the second known chain.
pub const CHAIN2_ID: i64 = 137;

/// The Hermes contract of the first known chain.
pub open spec fn chain1_hermes_text() -> Seq<char> {
    "0xa62a2a75949d25e17c6f08a7818e7be97c18a8d2"@
}

/// The Hermes contract of the second known chain.
pub open spec fn chain2_hermes_text() -> Seq<char> {
    "0x80ed28d84792d8b153bf2f25f0c4b7a1381de4ab"@
}

/// The snapshot of a port without a connection: no peer is named.
pub open spec fn not_connected() -> SnapshotModel {
    SnapshotModel {
        status: ConnectionStatus::NotConnected,
        consumer_id: None,
        provider_id: None,
        hermes_id: None,
        session_id: None,
    }
}

/// The snapshot of a port that carries `record`.
pub open spec fn connected(record: RecordModel) -> SnapshotModel {
    SnapshotModel {
        status: ConnectionStatus::Connected,
        consumer_id: Some(record.consumer_id),
        provider_id: Some(record.provider_id),
        hermes_id: Some(record.hermes_id),
        session_id: Some(record.session_id),
    }
}

impl StateModel {
    /// The engine right after start: nothing agreed, nobody known, no
    /// connection.
    pub open spec fn initial(version: Seq<char>) -> StateModel {
        StateModel {
            consumer_agreed: false,
            provider_agreed: false,
            version,
            identities: Seq::empty(),
            current: None,
            connections: Map::empty(),
        }
    }

    /// No address is listed twice, and the current identity, if any, is a
    /// listed one.
    pub open spec fn well_formed(self) -> bool {
        &&& self.identities.no_duplicates()
        &&& self.current matches Some(id) ==> self.identities.contains(id)
    }

    /// The terms and the fixed chain bindings.
    pub open spec fn config(self) -> ConfigModel {
        ConfigModel {
            terms_consumer_agreed: self.consumer_agreed,
            terms_provider_agreed: self.provider_agreed,
            terms_version: self.version,
            chain_id: CHAIN_ID_DEFAULT,
            chain1_chain_id: CHAIN1_ID,
            chain1_hermes: chain1_hermes_text(),
            chain2_chain_id: CHAIN2_ID,
            chain2_hermes: chain2_hermes_text(),
        }
    }

    /// The terms after a partial update: a field that is given replaces the
    /// stored one, a field that is absent leaves it alone.
    pub open spec fn with_terms(
        self,
        consumer: Option<bool>,
        provider: Option<bool>,
        version: Option<Seq<char>>,
    ) -> StateModel {
        StateModel {
            consumer_agreed: match consumer {
                Some(value) => value,
                None => self.consumer_agreed,
            },
            provider_agreed: match provider {
                Some(value) => value,
                None => self.provider_agreed,
            },
            version: match version {
                Some(value) => value,
                None => self.version,
            },
            ..self
        }
    }

    /// Whether `address` is a known identity.
    pub open spec fn has_identity(self, address: Seq<char>) -> bool {
        self.identities.contains(address)
    }

    /// The engine after `address` was registered: a new address joins the
    /// end of the list, a known one changes nothing.
    pub open spec fn with_identity(self, address: Seq<char>) -> StateModel {
        if self.has_identity(address) {
            self
        } else {
            StateModel { identities: self.identities.push(address), ..self }
        }
    }

    /// The identity that a selection with `requested` resolves to.
    ///
    /// A requested address that is non-empty and known wins. Otherwise the
    /// current identity stays. Otherwise the identity that was registered
    /// first is taken. With nobody registered there is none.
    pub open spec fn selection(self, requested: Option<Seq<char>>) -> Option<Seq<char>> {
        if requested is Some && requested->0.len() > 0 && self.has_identity(requested->0) {
            requested
        } else if self.current is Some {
            self.current
        } else if self.identities.len() > 0 {
            Some(self.identities[0])
        } else {
            None
        }
    }

    /// The engine after a selection with `requested`: what the selection
    /// resolved to is the current identity.
    pub open spec fn after_selection(self, requested: Option<Seq<char>>) -> StateModel {
        StateModel { current: self.selection(requested), ..self }
    }

    /// What a caller is told about `port`.
    pub open spec fn status(self, port: i32) -> SnapshotModel {
        if self.connections.contains_key(port) {
            connected(self.connections[port])
        } else {
            not_connected()
        }
    }

    /// The engine after `record` was stored for `port`, in place of whatever
    /// the port held.
    pub open spec fn with_connection(self, port: i32, record: RecordModel) -> StateModel {
        StateModel { connections: self.connections.insert(port, record), ..self }
    }
}

/// The peers of a connection, put together.
pub open spec fn peers(
    consumer_id: Seq<char>,
    provider_id: Seq<char>,
    hermes_id: Seq<char>,
    session_id: Seq<char>,
) -> RecordModel {
    RecordModel { consumer_id, provider_id, hermes_id, session_id }
}

/// A digit of lower-case hexadecimal.
pub open spec fn is_lower_hex(c: char) -> bool {
    ('0' <= c && c <= '9') || ('a' <= c && c <= 'f')
}

/// The shape of a session id: a random (version 4) UUID in its hyphenated
/// lower-case form, 36 characters long.
pub open spec fn is_session_id(id: Seq<char>) -> bool {
    &&& id.len() == 36
    &&& forall|i: int|
        0 <= i < 36 ==> if i == 8 || i == 13 || i == 18 || i == 23 {
            #[trigger] id[i] == '-'
        } else {
            is_lower_hex(id[i])
        }
    &&& id[14] == '4'
    &&& (id[19] == '8' || id[19] == '9' || id[19] == 'a' || id[19] == 'b')
}

/// Draws a session id. This is `uuid::Uuid::new_v4` followed by the UUID's
/// `to_string`: sixteen random bytes with the version and variant bits set,
/// written as hyphenated lower-case hexadecimal. Two calls may give the same
/// id; nothing here rules that out.
#[verifier::external_body]
fn fresh_session_id() -> (id: String)
    ensures
        is_session_id(id@),
{
    uuid::Uuid::new_v4().to_string()
}

/// The peers of the connection on one port.
pub struct ConnectionRecord {
    consumer_id: String,
    provider_id: String,
    hermes_id: String,
    session_id: String,
}

impl View for ConnectionRecord {
    type V = RecordModel;

    closed spec fn view(&self) -> RecordModel {
        RecordModel {
            consumer_id: self.consumer_id@,
            provider_id: self.provider_id@,
            hermes_id: self.hermes_id@,
            session_id: self.session_id@,
        }
    }
}

/// The terms and chain bindings at one moment.
#[derive(Clone, Debug)]
pub struct ConfigSnapshot {
    pub terms_consumer_agreed: bool,
    pub terms_provider_agreed: bool,
    pub terms_version: String,
    pub chain_id: i64,
    pub chain1_chain_id: i64,
    pub chain1_hermes: String,
    pub chain2_chain_id: i64,
    pub chain2_hermes: String,
}

impl View for ConfigSnapshot {
    type V = ConfigModel;

    open spec fn view(&self) -> ConfigModel {
        ConfigModel {
            terms_consumer_agreed: self.terms_consumer_agreed,
            terms_provider_agreed: self.terms_provider_agreed,
            terms_version: self.terms_version@,
            chain_id: self.chain_id,
            chain1_chain_id: self.chain1_chain_id,
            chain1_hermes: self.chain1_hermes@,
            chain2_chain_id: self.chain2_chain_id,
            chain2_hermes: self.chain2_hermes@,
        }
    }
}

/// What a caller is told about one port.
#[derive(Clone, Debug)]
pub struct ConnectionSnapshot {
    pub status: ConnectionStatus,
    pub consumer_id: Option<String>,
    pub provider_id: Option<String>,
    pub hermes_id: Option<String>,
    pub session_id: Option<String>,
}

impl View for ConnectionSnapshot {
    type V = SnapshotModel;

    open spec fn view(&self) -> SnapshotModel {
        SnapshotModel {
            status: self.status,
            consumer_id: opt_text(self.consumer_id),
            provider_id: opt_text(self.provider_id),
            hermes_id: opt_text(self.hermes_id),
            session_id: opt_text(self.session_id),
        }
    }
}

/// `std::time::Instant`, a point on the monotonic clock. Nothing is said of
/// what it holds.
#[verifier::external_type_specification]
#[verifier::external_body]
pub struct ExInstant(Instant);

/// `Instant::now` reads the clock; every call may give another value.
pub assume_specification[ Instant::now ]() -> Instant;

/// `Instant::elapsed` reads the clock again and gives the time since `start`.
pub assume_specification[ Instant::elapsed ](start: &Instant) -> Duration;

/// The single owner of the control-plane data.
///
/// A writer holds the engine by `&mut`, so two writers never overlap and a
/// reader never sees half of an update.
pub struct SharedState {
    terms_consumer_agreed: bool,
    terms_provider_agreed: bool,
    terms_version: String,
    identities: Vec<String>,
    current_identity: Option<String>,
    connections: HashMap<i32, ConnectionRecord>,
    start: Instant,
}

impl View for SharedState {
    type V = StateModel;

    closed spec fn view(&self) -> StateModel {
        StateModel {
            consumer_agreed: self.terms_consumer_agreed,
            provider_agreed: self.terms_provider_agreed,
            version: self.terms_version@,
            identities: texts(self.identities@),
            current: opt_text(self.current_identity),
            connections: self.connections@.map_values(|r: ConnectionRecord| r@),
        }
    }
}

/// Whether `wanted` is one of `items`.
fn has_text(items: &Vec<String>, wanted: &String) -> (found: bool)
    ensures
        found == texts(items@).contains(wanted@),
{
    let mut i: usize = 0;
    while i < items.len()
        invariant
            i <= items.len(),
            forall|j: int| 0 <= j < i ==> texts(items@)[j] != wanted@,
        decreases items.len() - i,
    {
        if items[i] == *wanted {
            assert(texts(items@)[i as int] == wanted@);
            return true;
        }
        i += 1;
    }
    false
}

impl SharedState {
    /// Starts an engine with the given terms version.
    pub fn new(terms_version: String) -> (state: SharedState)
        ensures
            state@ == StateModel::initial(terms_version@),
            state@.well_formed(),
    {
        let state = SharedState {
            terms_consumer_agreed: false,
            terms_provider_agreed: false,
            terms_version,
            identities: Vec::new(),
            current_identity: None,
            connections: HashMap::new(),
            start: Instant::now(),
        };
        assert(state@.identities =~= Seq::empty());
        assert(state@.connections =~= Map::empty());
        state
    }

    /// The time since the engine was started.
    pub fn uptime(&self) -> Duration {
        self.start.elapsed()
    }

    /// The terms and the chain bindings.
    pub fn config_snapshot(&self) -> (snapshot: ConfigSnapshot)
        ensures
            snapshot@ == self@.config(),
    {
        ConfigSnapshot {
            terms_consumer_agreed: self.terms_consumer_agreed,
            terms_provider_agreed: self.terms_provider_agreed,
            terms_version: self.terms_version.clone(),
            chain_id: CHAIN_ID_DEFAULT,
            chain1_chain_id: CHAIN1_ID,
            chain1_hermes: String::from_str("0xa62a2a75949d25e17c6f08a7818e7be97c18a8d2"),
            chain2_chain_id: CHAIN2_ID,
            chain2_hermes: String::from_str("0x80ed28d84792d8b153bf2f25f0c4b7a1381de4ab"),
        }
    }

    /// Overwrites the terms that are given and keeps the others.
    pub fn update_terms(
        &mut self,
        consumer: Option<bool>,
        provider: Option<bool>,
        version: Option<String>,
    )
        ensures
            final(self)@ == old(self)@.with_terms(consumer, provider, opt_text(version)),
            old(self)@.well_formed() ==> final(self)@.well_formed(),
    {
        if let Some(value) = consumer {
            self.terms_consumer_agreed = value;
        }
        if let Some(value) = provider {
            self.terms_provider_agreed = value;
        }
        if let Some(value) = version {
            self.terms_version = value;
        }
    }

    /// Registers `address` as a known identity. Registering a known address
    /// changes nothing. The keystore text is taken and not kept.
    pub fn import_identity(&mut self, address: String, keystore: String)
        ensures
            final(self)@ == old(self)@.with_identity(address@),
            old(self)@.well_formed() ==> final(self)@.well_formed(),
    {
        if !has_text(&self.identities, &address) {
            let ghost before = self.identities@;
            self.identities.push(address);
            assert(texts(self.identities@) =~= texts(before).push(address@));
        }
        proof {
            if old(self)@.well_formed() {
                lemma_with_identity_well_formed(old(self)@, address@);
            }
        }
    }

    /// Resolves the current identity and remembers it.
    ///
    /// A requested address that is non-empty and known becomes current.
    /// Otherwise the current identity stays. Otherwise the identity that
    /// was registered first becomes current. With nobody registered the
    /// answer is `None` and nothing becomes current.
    pub fn current_identity(&mut self, requested: Option<String>) -> (chosen: Option<String>)
        ensures
            opt_text(chosen) == old(self)@.selection(opt_text(requested)),
            final(self)@ == old(self)@.after_selection(opt_text(requested)),
            old(self)@.well_formed() ==> final(self)@.well_formed(),
    {
        if let Some(id) = requested {
            if !id.as_str().is_empty() && has_text(&self.identities, &id) {
                self.current_identity = Some(id.clone());
                return Some(id);
            }
        }
        if let Some(id) = &self.current_identity {
            return Some(id.clone());
        }
        if self.identities.len() > 0 {
            let first = self.identities[0].clone();
            self.current_identity = Some(first.clone());
            return Some(first);
        }
        None
    }

    /// Whether `address` is a known identity.
    pub fn identity_exists(&self, address: &str) -> (known: bool)
        ensures
            known == self@.has_identity(address@),
    {
        let wanted = address.to_owned();
        has_text(&self.identities, &wanted)
    }

    /// What is known about `port`: the stored peers, or `NotConnected` with
    /// no peer named.
    pub fn connection_status(&self, port: i32) -> (snapshot: ConnectionSnapshot)
        ensures
            snapshot@ == self@.status(port),
    {
        match self.connections.get(&port) {
            Some(record) => ConnectionSnapshot {
                status: ConnectionStatus::Connected,
                consumer_id: Some(record.consumer_id.clone()),
                provider_id: Some(record.provider_id.clone()),
                hermes_id: Some(record.hermes_id.clone()),
                session_id: Some(record.session_id.clone()),
            },
            None => ConnectionSnapshot {
                status: ConnectionStatus::NotConnected,
                consumer_id: None,
                provider_id: None,
                hermes_id: None,
                session_id: None,
            },
        }
    }

    /// Stores a connection with the given session id for `port`, in place of
    /// whatever the port held, and reports it.
    pub fn record_connection(
        &mut self,
        port: i32,
        consumer_id: String,
        provider_id: String,
        hermes_id: String,
        session_id: String,
    ) -> (snapshot: ConnectionSnapshot)
        ensures
            snapshot@ == connected(peers(consumer_id@, provider_id@, hermes_id@, session_id@)),
            final(self)@ == old(self)@.with_connection(
                port,
                peers(consumer_id@, provider_id@, hermes_id@, session_id@),
            ),
            old(self)@.well_formed() ==> final(self)@.well_formed(),
    {
        let record = ConnectionRecord {
            consumer_id: consumer_id.clone(),
            provider_id: provider_id.clone(),
            hermes_id: hermes_id.clone(),
            session_id: session_id.clone(),
        };
        let ghost before = self.connections@;
        self.connections.insert(port, record);
        assert(self.connections@.map_values(|r: ConnectionRecord| r@) =~= before.map_values(
            |r: ConnectionRecord| r@,
        ).insert(port, record@));
        ConnectionSnapshot {
            status: ConnectionStatus::Connected,
            consumer_id: Some(consumer_id),
            provider_id: Some(provider_id),
            hermes_id: Some(hermes_id),
            session_id: Some(session_id),
        }
    }

    /// Opens a connection on `port` under a fresh random session id. A
    /// connection that the port already held is replaced. The service type
    /// is taken and not kept.
    pub fn create_connection(
        &mut self,
        port: i32,
        consumer_id: String,
        provider_id: String,
        hermes_id: String,
        service_type: String,
    ) -> (snapshot: ConnectionSnapshot)
        ensures
            snapshot@.session_id is Some,
            is_session_id(snapshot@.session_id->0),
            snapshot@ == connected(
                peers(consumer_id@, provider_id@, hermes_id@, snapshot@.session_id->0),
            ),
            final(self)@ == old(self)@.with_connection(
                port,
                peers(consumer_id@, provider_id@, hermes_id@, snapshot@.session_id->0),
            ),
            old(self)@.well_formed() ==> final(self)@.well_formed(),
    {
        let session_id = fresh_session_id();
        self.record_connection(port, consumer_id, provider_id, hermes_id, session_id)
    }
}

/// One call on the engine, with its arguments as characters.
pub enum Operation {
    UpdateTerms { consumer: Option<bool>, provider: Option<bool>, version: Option<Seq<char>> },
    ImportIdentity { address: Seq<char> },
    CurrentIdentity { requested: Option<Seq<char>> },
    CreateConnection { port: i32, record: RecordModel },
}

impl StateModel {
    /// The engine after one call.
    pub open spec fn apply(self, op: Operation) -> StateModel {
        match op {
            Operation::UpdateTerms { consumer, provider, version } => self.with_terms(
                consumer,
                provider,
                version,
            ),
            Operation::ImportIdentity { address } => self.with_identity(address),
            Operation::CurrentIdentity { requested } => self.after_selection(requested),
            Operation::CreateConnection { port, record } => self.with_connection(port, record),
        }
    }

    /// The engine after a run of calls, the first of `ops` first.
    pub open spec fn run(self, ops: Seq<Operation>) -> StateModel
        decreases ops.len(),
    {
        if ops.len() == 0 {
            self
        } else {
            self.run(ops.drop_last()).apply(ops.last())
        }
    }
}

/// Registering keeps an engine well formed: no address comes to be listed
/// twice and the current identity stays a listed one.
pub proof fn lemma_with_identity_well_formed(state: StateModel, address: Seq<char>)
    requires
        state.well_formed(),
    ensures
        state.with_identity(address).well_formed(),
{
    if !state.has_identity(address) {
        let longer = state.identities.push(address);
        if state.current is Some {
            let id = state.current->0;
            let i = choose|i: int| 0 <= i < state.identities.len() && state.identities[i] == id;
            assert(longer[i] == id);
        }
    }
}

/// Every call keeps a well-formed engine well formed.
pub proof fn lemma_apply_well_formed(state: StateModel, op: Operation)
    requires
        state.well_formed(),
    ensures
        state.apply(op).well_formed(),
{
    match op {
        Operation::ImportIdentity { address } => {
            lemma_with_identity_well_formed(state, address);
        },
        _ => {},
    }
}

/// Whatever is done to an engine after its start, no address is listed
/// twice and the current identity is unset or a known one.
pub proof fn lemma_reachable_well_formed(version: Seq<char>, ops: Seq<Operation>)
    ensures
        StateModel::initial(version).run(ops).well_formed(),
    decreases ops.len(),
{
    if ops.len() > 0 {
        lemma_reachable_well_formed(version, ops.drop_last());
        lemma_apply_well_formed(StateModel::initial(version).run(ops.drop_last()), ops.last());
    }
}

/// The identity set only grows: an address that is known stays known
/// through any run of calls.
pub proof fn lemma_identities_only_grow(
    state: StateModel,
    ops: Seq<Operation>,
    address: Seq<char>,
)
    requires
        state.has_identity(address),
    ensures
        state.run(ops).has_identity(address),
    decreases ops.len(),
{
    if ops.len() > 0 {
        lemma_identities_only_grow(state, ops.drop_last(), address);
        let before = state.run(ops.drop_last());
        if let Operation::ImportIdentity { address: added } = ops.last() {
            if !before.has_identity(added) {
                let i = choose|i: int|
                    0 <= i < before.identities.len() && before.identities[i] == address;
                assert(before.identities.push(added)[i] == address);
            }
        }
    }
}

/// A port that no call of a run opened a connection on is reported as not
/// connected, with no peer named.
pub proof fn lemma_untouched_port_not_connected(
    version: Seq<char>,
    ops: Seq<Operation>,
    port: i32,
)
    requires
        forall|i: int|
            0 <= i < ops.len() ==> (#[trigger] ops[i] matches Operation::CreateConnection {
                port: opened,
                ..
            } ==> opened != port),
    ensures
        StateModel::initial(version).run(ops).status(port) == not_connected(),
        !StateModel::initial(version).run(ops).connections.contains_key(port),
    decreases ops.len(),
{
    if ops.len() > 0 {
        lemma_untouched_port_not_connected(version, ops.drop_last(), port);
    }
}

/// After a connection was stored for a port, the port is reported as
/// connected with exactly the stored peers and session id, and every other
/// port is reported as before.
pub proof fn lemma_status_after_connection(
    state: StateModel,
    port: i32,
    record: RecordModel,
    other: i32,
)
    ensures
        state.with_connection(port, record).status(port) == connected(record),
        other != port ==> state.with_connection(port, record).status(other) == state.status(other),
{
}

/// Two connections stored for one port in a row: the second one is what the
/// port then reports, and nothing of the first is left.
pub proof fn lemma_last_connection_wins(
    state: StateModel,
    port: i32,
    first: RecordModel,
    second: RecordModel,
)
    ensures
        state.with_connection(port, first).with_connection(port, second).status(port)
            == connected(second),
        state.with_connection(port, first).with_connection(port, second) == state.with_connection(
            port,
            second,
        ),
{
    assert(state.connections.insert(port, first).insert(port, second) =~= state.connections.insert(
        port,
        second,
    ));
}

/// An address is known once it was registered, and registering it makes no
/// other address known or unknown.
pub proof fn lemma_registered_identity_exists(
    state: StateModel,
    address: Seq<char>,
    other: Seq<char>,
)
    ensures
        state.with_identity(address).has_identity(address),
        other != address ==> state.with_identity(address).has_identity(other)
            == state.has_identity(other),
{
    if !state.has_identity(address) {
        let longer = state.identities.push(address);
        assert(longer[state.identities.len() as int] == address);
        if state.has_identity(other) {
            let i = choose|i: int| 0 <= i < state.identities.len() && state.identities[i] == other;
            assert(longer[i] == other);
        }
    }
}

/// Registering an address a second time changes nothing.
pub proof fn lemma_registering_twice_is_once(state: StateModel, address: Seq<char>)
    ensures
        state.with_identity(address).with_identity(address) == state.with_identity(address),
{
    lemma_registered_identity_exists(state, address, address);
}

/// An address that no call of a run registered is unknown after the run.
pub proof fn lemma_unregistered_identity_unknown(
    version: Seq<char>,
    ops: Seq<Operation>,
    address: Seq<char>,
)
    requires
        forall|i: int|
            0 <= i < ops.len() ==> (#[trigger] ops[i] matches Operation::ImportIdentity {
                address: added,
            } ==> added != address),
    ensures
        !StateModel::initial(version).run(ops).has_identity(address),
    decreases ops.len(),
{
    if ops.len() > 0 {
        let earlier = ops.drop_last();
        lemma_unregistered_identity_unknown(version, earlier, address);
        let before = StateModel::initial(version).run(earlier);
        if let Operation::ImportIdentity { address: added } = ops.last() {
            lemma_registered_identity_exists(before, added, address);
        }
    }
}

/// Whether selecting `address` right after registering it resolves to it.
///
/// It does for every non-empty address. An empty request counts as no
/// request, so the empty address is resolved to only where it is current
/// already, or where nothing is current and it was registered first.
pub open spec fn selectable(state: StateModel, address: Seq<char>) -> bool {
    ||| address.len() > 0
    ||| state.current == Some(address)
    ||| (state.current is None && state.with_identity(address).identities[0] == address)
}

/// Selecting an address that was just registered resolves to it, and a
/// later selection without a request resolves to it again.
pub proof fn lemma_selection_sticks(state: StateModel, address: Seq<char>)
    requires
        selectable(state, address),
    ensures
        state.with_identity(address).selection(Some(address)) == Some(address),
        state.with_identity(address).after_selection(Some(address)).selection(None) == Some(
            address,
        ),
{
    lemma_registered_identity_exists(state, address, address);
}

/// Where selecting a just-registered address does not resolve to it, the
/// address is empty: `selectable` leaves out no other case.
pub proof fn lemma_selection_misses_only_empty(state: StateModel, address: Seq<char>)
    requires
        state.with_identity(address).selection(Some(address)) != Some(address),
    ensures
        !selectable(state, address),
        address.len() == 0,
{
    lemma_registered_identity_exists(state, address, address);
}

/// A terms update without any field changes nothing, and a field that is
/// absent keeps its stored value whatever the other fields are.
pub proof fn lemma_absent_terms_kept(
    state: StateModel,
    consumer: Option<bool>,
    provider: Option<bool>,
    version: Option<Seq<char>>,
)
    ensures
        state.with_terms(None, None, None) == state,
        consumer is None ==> state.with_terms(consumer, provider, version).consumer_agreed
            == state.consumer_agreed,
        provider is None ==> state.with_terms(consumer, provider, version).provider_agreed
            == state.provider_agreed,
        version is None ==> state.with_terms(consumer, provider, version).version
            == state.version,
        state.with_terms(consumer, provider, version).identities == state.identities,
        state.with_terms(consumer, provider, version).current == state.current,
        state.with_terms(consumer, provider, version).connections == state.connections,
{
}

} // verus!
