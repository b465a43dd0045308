//! Data model: addresses, entries, query keys and payloads, actions,
//! validation records and the error taxonomy.

use vstd::prelude::*;

verus! {

/// Opaque content-derived identifier; the universal key for entries
/// and queries.
#[derive(Debug, PartialEq, Eq)]
pub struct Address(pub String);

impl View for Address {
    type V = Seq<char>;

    open spec fn view(&self) -> Seq<char> {
        self.0@
    }
}

impl DeepView for Address {
    type V = Seq<char>;

    open spec fn deep_view(&self) -> Seq<char> {
        self.0@
    }
}

impl Clone for Address {
    fn clone(&self) -> (r: Self)
        ensures
            r == *self,
    {
        Address(self.0.clone())
    }
}

/// True exactly when the two addresses carry the same identifier.
pub fn addr_eq(a: &Address, b: &Address) -> (r: bool)
    ensures
        r == (a@ == b@),
{
    a.0 == b.0
}

/// Wall-clock budget, in milliseconds, before a query is timed out.
#[derive(Clone, Copy, Debug, PartialEq, Eq, Structural)]
pub struct Timeout {
    pub ms: u64,
}

/// Live/Deleted classification used to filter link query results.
#[derive(Clone, Copy, Debug, PartialEq, Eq, Structural)]
pub enum CrudStatus {
    Live,
    Deleted,
}

/// The caller's status-request option on a link query.
#[derive(Clone, Copy, Debug, PartialEq, Eq, Structural)]
pub enum LinksStatusRequestKind {
    All,
    Deleted,
    Live,
}

/// Link-query mode: only the count of matching links, or the list.
#[derive(Clone, Copy, Debug, PartialEq, Eq, Structural)]
pub enum GetLinksNetworkQuery {
    Count,
    Links,
}

#[derive(Clone, Copy, Debug, PartialEq, Eq, Structural)]
pub struct GetLinksOptions {
    pub status_request: LinksStatusRequestKind,
    pub timeout: Timeout,
}

/// Parameters of a link query.
#[derive(Debug, PartialEq, Eq)]
pub struct GetLinksArgs {
    pub entry_address: Address,
    pub link_type: String,
    pub tag: String,
    pub options: GetLinksOptions,
}

/// The kind of an immutable, content-addressed entry.
#[derive(Debug, PartialEq, Eq)]
pub enum EntryKind {
    App,
    AgentId,
    Dna,
    /// A deletion marker naming the entry it deletes.
    Deletion { deleted_entry_address: Address },
}

impl Clone for EntryKind {
    fn clone(&self) -> (r: Self)
        ensures
            r == *self,
    {
        match self {
            EntryKind::App => EntryKind::App,
            EntryKind::AgentId => EntryKind::AgentId,
            EntryKind::Dna => EntryKind::Dna,
            EntryKind::Deletion { deleted_entry_address } => EntryKind::Deletion {
                deleted_entry_address: deleted_entry_address.clone(),
            },
        }
    }
}

/// Immutable unit of domain data, referenced by its address.
#[derive(Debug, PartialEq, Eq)]
pub struct Entry {
    pub address: Address,
    pub kind: EntryKind,
}

impl Clone for Entry {
    fn clone(&self) -> (r: Self)
        ensures
            r == *self,
    {
        Entry { address: self.address.clone(), kind: self.kind.clone() }
    }
}

/// Header metadata that accompanied an entry when it was authored.
#[derive(Debug, PartialEq, Eq)]
pub struct ChainHeader {
    pub entry_address: Address,
}

impl Clone for ChainHeader {
    fn clone(&self) -> (r: Self)
        ensures
            r == *self,
    {
        ChainHeader { entry_address: self.entry_address.clone() }
    }
}

/// An entry together with its originating header.
#[derive(Debug, PartialEq, Eq)]
pub struct EntryWithHeader {
    pub entry: Entry,
    pub header: ChainHeader,
}

impl Clone for EntryWithHeader {
    fn clone(&self) -> (r: Self)
        ensures
            r == *self,
    {
        EntryWithHeader { entry: self.entry.clone(), header: self.header.clone() }
    }
}

/// Key of an entry query: target address plus a per-call request id.
#[derive(Debug, PartialEq, Eq)]
pub struct GetEntryKey {
    pub address: Address,
    pub id: String,
}

/// Key of a link query: base address, link type, tag, request id.
#[derive(Debug, PartialEq, Eq)]
pub struct GetLinksKey {
    pub base_address: Address,
    pub link_type: String,
    pub tag: String,
    pub id: String,
}

/// Tagged key under which a query's outcome is recorded.
#[derive(Debug, PartialEq, Eq)]
pub enum QueryKey {
    Entry(GetEntryKey),
    Links(GetLinksKey),
}

/// Mathematical form of a query key.
pub enum KeyV {
    Entry { address: Seq<char>, id: Seq<char> },
    Links { base_address: Seq<char>, link_type: Seq<char>, tag: Seq<char>, id: Seq<char> },
}

impl View for QueryKey {
    type V = KeyV;

    open spec fn view(&self) -> KeyV {
        match self {
            QueryKey::Entry(k) => KeyV::Entry { address: k.address@, id: k.id@ },
            QueryKey::Links(k) => KeyV::Links {
                base_address: k.base_address@,
                link_type: k.link_type@,
                tag: k.tag@,
                id: k.id@,
            },
        }
    }
}

impl Clone for QueryKey {
    fn clone(&self) -> (r: Self)
        ensures
            r == *self,
    {
        match self {
            QueryKey::Entry(k) => QueryKey::Entry(GetEntryKey {
                address: k.address.clone(),
                id: k.id.clone(),
            }),
            QueryKey::Links(k) => QueryKey::Links(GetLinksKey {
                base_address: k.base_address.clone(),
                link_type: k.link_type.clone(),
                tag: k.tag.clone(),
                id: k.id.clone(),
            }),
        }
    }
}

/// True exactly when the two keys agree on every field.
pub fn key_eq(a: &QueryKey, b: &QueryKey) -> (r: bool)
    ensures
        r == (a@ == b@),
{
    match (a, b) {
        (QueryKey::Entry(x), QueryKey::Entry(y)) => x.address.0 == y.address.0 && x.id == y.id,
        (QueryKey::Links(x), QueryKey::Links(y)) => x.base_address.0 == y.base_address.0
            && x.link_type == y.link_type && x.tag == y.tag && x.id == y.id,
        _ => false,
    }
}

/// Parameters accompanying a query: nothing for entry queries; a CRUD
/// filter and the query mode for link queries.
#[derive(Clone, Copy, Debug, PartialEq, Eq, Structural)]
pub enum QueryPayload {
    Entry,
    Links(Option<CrudStatus>, GetLinksNetworkQuery),
}

/// What a link query resolved to.
#[derive(Debug, PartialEq, Eq)]
pub enum GetLinksNetworkResult {
    Count(u64),
    Links(Vec<Address>),
}

/// What a query resolved to over the network.
#[derive(Debug, PartialEq, Eq)]
pub enum NetworkQueryResult {
    Entry(Option<Entry>),
    Links(GetLinksNetworkResult, String, String),
}

/// Error taxonomy of the core.
#[derive(Debug, PartialEq, Eq)]
pub enum CoreError {
    /// The dispatch channel is broken; every waiter must see this.
    Infrastructure,
    /// The network subsystem has not finished initializing.
    NotInitialized,
    /// Retryable control signal: validation is deferred, not failed.
    ValidationPending,
    /// Terminal: the entry was rejected by validation.
    ValidationFailed(String),
    /// The query never resolved within its budget.
    Timeout,
    /// No DNA was supplied to initialization.
    DnaMissing,
    /// Any other failure, with its description.
    Generic(String),
}

impl Clone for CoreError {
    fn clone(&self) -> (r: Self)
        ensures
            r == *self,
    {
        match self {
            CoreError::Infrastructure => CoreError::Infrastructure,
            CoreError::NotInitialized => CoreError::NotInitialized,
            CoreError::ValidationPending => CoreError::ValidationPending,
            CoreError::ValidationFailed(s) => CoreError::ValidationFailed(s.clone()),
            CoreError::Timeout => CoreError::Timeout,
            CoreError::DnaMissing => CoreError::DnaMissing,
            CoreError::Generic(s) => CoreError::Generic(s.clone()),
        }
    }
}

/// Terminal outcome recorded for a query.
pub type QueryResolution = Result<NetworkQueryResult, CoreError>;

/// Tri-state of a query key in the result map; absence from the map is
/// the third state.
#[derive(Debug, PartialEq, Eq)]
pub enum QueryCell {
    Pending,
    Resolved(QueryResolution),
}

/// Which validation workflow a deferred entry belongs to.
#[derive(Clone, Copy, Debug, PartialEq, Eq, Structural)]
pub enum ValidatingWorkflow {
    HoldEntry,
    RemoveEntry,
}

/// Provenance bundle needed to validate an entry against its author's
/// history.
#[derive(Debug, PartialEq, Eq)]
pub struct ValidationPackage {
    pub chain_header: ChainHeader,
}

impl Clone for ValidationPackage {
    fn clone(&self) -> (r: Self)
        ensures
            r == *self,
    {
        ValidationPackage { chain_header: self.chain_header.clone() }
    }
}

/// Which lifecycle an entry is being validated under.
#[derive(Clone, Copy, Debug, PartialEq, Eq, Structural)]
pub enum EntryLifecycle {
    Chain,
    Dht,
    Meta,
}

/// Everything the validator is handed.
#[derive(Debug, PartialEq, Eq)]
pub struct ValidationData {
    pub package: ValidationPackage,
    pub lifecycle: EntryLifecycle,
}

/// Verdict of entry validation.
#[derive(Debug, PartialEq, Eq)]
pub enum ValidationError {
    /// The entry cannot be judged yet: these dependencies are missing.
    UnresolvedDependencies(Vec<Address>),
    /// The entry is invalid for the stated reason.
    Fail(String),
}

/// An entry whose validation is deferred until its missing
/// dependencies become resolvable.
#[derive(Debug, PartialEq, Eq)]
pub struct PendingValidation {
    pub entry_with_header: EntryWithHeader,
    pub dependencies: Vec<Address>,
    pub workflow: ValidatingWorkflow,
    /// How many retries this entry has already consumed.
    pub attempts: u64,
}

/// Closed set of mutation intents accepted by the reducer.
#[derive(Debug, PartialEq, Eq)]
pub enum Action {
    /// Record a fresh query as pending.
    Query(QueryKey, QueryPayload),
    /// A network response arrived for the key.
    QueryResponse(QueryKey, QueryResolution),
    /// The watchdog fired for the key.
    QueryTimeout(QueryKey),
    /// Persist a validated entry in the local shard.
    HoldEntry(Entry),
    /// Record a validated removal: (deleted address, deletion address).
    RemoveEntry(Address, Address),
    /// Hand an entry's address to the network for publication.
    Publish(Address),
    /// Defer a blocked validation.
    AddPendingValidation(PendingValidation),
    /// Drop a deferred validation, keyed by its entry address.
    RemovePendingValidation(Address),
    /// Mark the network subsystem ready.
    NetworkReady,
}

/// Mathematical form of an action: keys by value, payloads as carried.
pub enum ActionV {
    Query(KeyV, QueryPayload),
    QueryResponse(KeyV, QueryResolution),
    QueryTimeout(KeyV),
    HoldEntry(Entry),
    RemoveEntry(Seq<char>, Seq<char>),
    Publish(Seq<char>),
    AddPendingValidation(PendingValidation),
    RemovePendingValidation(Seq<char>),
    NetworkReady,
}

impl View for Action {
    type V = ActionV;

    open spec fn view(&self) -> ActionV {
        match self {
            Action::Query(k, p) => ActionV::Query(k@, *p),
            Action::QueryResponse(k, r) => ActionV::QueryResponse(k@, *r),
            Action::QueryTimeout(k) => ActionV::QueryTimeout(k@),
            Action::HoldEntry(e) => ActionV::HoldEntry(*e),
            Action::RemoveEntry(d, a) => ActionV::RemoveEntry(d@, a@),
            Action::Publish(a) => ActionV::Publish(a@),
            Action::AddPendingValidation(pv) => ActionV::AddPendingValidation(*pv),
            Action::RemovePendingValidation(a) => ActionV::RemovePendingValidation(a@),
            Action::NetworkReady => ActionV::NetworkReady,
        }
    }
}

/// An action with the unique id it was dispatched under.
#[derive(Debug, PartialEq, Eq)]
pub struct ActionWrapper {
    pub action: Action,
    pub id: String,
}

/// Response value of the network action creators.
#[derive(Debug, PartialEq, Eq)]
pub enum ActionResponse {
    Publish(Result<Address, CoreError>),
    PublishHeaderEntry(Result<Address, CoreError>),
    Respond(Result<(), CoreError>),
}

/// Count form of a link query result.
#[derive(Clone, Copy, Debug, PartialEq, Eq, Structural)]
pub struct GetLinksResultCount {
    pub count: u64,
}

/// Reply of the runtime's meta dispatch.
#[derive(Debug, PartialEq, Eq)]
pub enum MetaResult {
    Version(String),
    Hash(String),
}

/// How a query names its target: one entry, or the links of a base.
#[derive(Debug, PartialEq, Eq)]
pub enum QueryMethod {
    Entry(Address),
    Link(GetLinksArgs, GetLinksNetworkQuery),
}

/// The application bundle an instance is initialized from.
#[derive(Debug, PartialEq, Eq)]
pub struct Dna {
    pub address: Address,
    pub zome_names: Vec<String>,
}

/// What a zome's init callback reported.
#[derive(Debug, PartialEq, Eq)]
pub enum CallbackResult {
    Pass,
    Fail(String),
    NotImplemented,
}

} // verus!
