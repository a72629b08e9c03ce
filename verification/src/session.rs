//! Sessions: the broker's record of one producer's lifetime.
//!
//! A session holds the producer's identity and dashboard schema, bounded
//! history of what it sent, and, while the producer is attached, the outbox
//! that leads back to it.

use crate::protocol::{
    DeviceInfo, LogEntry, LogPayload, RegisterPayload, ServiceToAppMessage,
    ServiceToDashboardMessage, SessionInfo, SessionInfoView,
};
use crate::ring_buffer::{ring_limit, ring_push, RingBuffer};
use crate::time::Timestamp;
use serde_json::Value;
use tokio::sync::mpsc::Sender;
use vstd::prelude::*;

verus! {

/// How many network requests a session keeps.
pub const NETWORK_REQUEST_CAPACITY: usize = 500;

/// One buffered DATA sample.
#[derive(Debug)]
pub struct DataMessage {
    pub timestamp: Timestamp,
    pub payload: Value,
}

/// One buffered LOG record.
#[derive(Debug)]
pub struct LogMessage {
    pub timestamp: Timestamp,
    pub payload: LogPayload,
}

impl Clone for DataMessage {
    fn clone(&self) -> (copy: Self)
        ensures
            copy == *self,
    {
        DataMessage { timestamp: self.timestamp, payload: self.payload.clone() }
    }
}

impl Clone for LogMessage {
    fn clone(&self) -> (copy: Self)
        ensures
            copy == *self,
    {
        LogMessage { timestamp: self.timestamp, payload: self.payload.clone() }
    }
}

/// The log entry consumers are shown for a buffered record.
pub open spec fn log_entry_of(record: LogMessage) -> LogEntry {
    LogEntry {
        timestamp: record.timestamp,
        level: record.payload.level,
        tag: record.payload.tag,
        message: record.payload.message,
        throwable: record.payload.throwable,
    }
}

impl From<&LogMessage> for LogEntry {
    fn from(msg: &LogMessage) -> (entry: LogEntry) {
        LogEntry {
            timestamp: msg.timestamp,
            level: msg.payload.level,
            tag: msg.payload.tag.clone(),
            message: msg.payload.message.clone(),
            throwable: msg.payload.throwable.clone(),
        }
    }
}

impl vstd::std_specs::convert::FromSpecImpl<&LogMessage> for LogEntry {
    open spec fn obeys_from_spec() -> bool {
        true
    }

    open spec fn from_spec(msg: &LogMessage) -> LogEntry {
        log_entry_of(*msg)
    }
}

/// How many characters a minted session id has: those of a UUID in its
/// hyphenated form.
pub const SESSION_ID_LENGTH: usize = 36;

/// `uuid::Uuid::new_v4` rendered by its `Display` impl: a freshly drawn random
/// identifier as text. uuid renders in the hyphenated form, which is 36
/// characters in every case. Nothing else is claimed of the value: whether it
/// differs from every identifier drawn before is a matter of chance. uuid
/// panics if the operating system's random source fails.
#[verifier::external_body]
fn mint_session_id() -> (id: String)
    ensures
        id@.len() == SESSION_ID_LENGTH,
{
    uuid::Uuid::new_v4().to_string()
}

/// A newly minted session id.
pub fn new_session_id() -> (id: String)
    ensures
        id@.len() == SESSION_ID_LENGTH,
{
    mint_session_id()
}

/// One producer's session.
#[derive(Debug)]
pub struct Session {
    pub id: String,
    pub app_name: String,
    pub package_name: String,
    pub version_name: String,
    pub device: DeviceInfo,
    pub dashboard_schema: Value,
    pub started_at: Timestamp,
    pub ended_at: Option<Timestamp>,
    data_buffer: RingBuffer<DataMessage>,
    log_buffer: RingBuffer<LogMessage>,
    network_requests: RingBuffer<Value>,
    pub app_sender: Option<Sender<ServiceToAppMessage>>,
}

/// A session as the contracts see it: every field, with the histories as
/// sequences, oldest first.
pub struct SessionView {
    pub id: String,
    pub app_name: String,
    pub package_name: String,
    pub version_name: String,
    pub device: DeviceInfo,
    pub dashboard_schema: Value,
    pub started_at: Timestamp,
    pub ended_at: Option<Timestamp>,
    pub data_history: Seq<DataMessage>,
    pub data_capacity: nat,
    pub log_history: Seq<LogMessage>,
    pub log_capacity: nat,
    pub network_requests: Seq<Value>,
    pub app_sender: Option<Sender<ServiceToAppMessage>>,
}

/// The session that a registration opens.
pub open spec fn fresh_session(
    id: String,
    started_at: Timestamp,
    register: RegisterPayload,
    data_capacity: nat,
    log_capacity: nat,
    app_sender: Sender<ServiceToAppMessage>,
) -> SessionView {
    SessionView {
        id,
        app_name: register.app_name,
        package_name: register.package_name,
        version_name: register.version_name,
        device: register.device,
        dashboard_schema: register.dashboard,
        started_at,
        ended_at: None,
        data_history: Seq::empty(),
        data_capacity,
        log_history: Seq::empty(),
        log_capacity,
        network_requests: Seq::empty(),
        app_sender: Some(app_sender),
    }
}

impl SessionView {
    /// The session's invariant: it has an end time exactly when it has no
    /// outbox, and no history is longer than its buffer allows.
    pub open spec fn wf(self) -> bool {
        &&& self.ended_at is Some <==> self.app_sender is None
        &&& self.data_history.len() <= ring_limit(self.data_capacity)
        &&& self.log_history.len() <= ring_limit(self.log_capacity)
        &&& self.network_requests.len() <= ring_limit(NETWORK_REQUEST_CAPACITY as nat)
    }

    /// Whether the producer is attached.
    pub open spec fn is_active(self) -> bool {
        self.ended_at is None
    }

    /// Whether a producer that names this device and package may take the session over.
    pub open spec fn resumable_by(self, device_id: Seq<char>, package_name: Seq<char>) -> bool {
        &&& self.ended_at is Some
        &&& self.device.device_id@ == device_id
        &&& self.package_name@ == package_name
    }

    /// The session once a sample has been buffered.
    pub open spec fn with_data(self, timestamp: Timestamp, payload: Value) -> SessionView {
        SessionView {
            data_history: ring_push(
                self.data_history,
                self.data_capacity,
                DataMessage { timestamp, payload },
            ),
            ..self
        }
    }

    /// The session once a log record has been buffered.
    pub open spec fn with_log(self, timestamp: Timestamp, payload: LogPayload) -> SessionView {
        SessionView {
            log_history: ring_push(
                self.log_history,
                self.log_capacity,
                LogMessage { timestamp, payload },
            ),
            ..self
        }
    }

    /// The session with its record of network requests emptied.
    pub open spec fn without_network_requests(self) -> SessionView {
        SessionView { network_requests: Seq::empty(), ..self }
    }

    /// The session once its producer has detached at `now`.
    pub open spec fn ended(self, now: Timestamp) -> SessionView {
        SessionView { ended_at: Some(now), app_sender: None, ..self }
    }

    /// The session once a producer has attached again through `app_sender`.
    pub open spec fn resumed(self, app_sender: Sender<ServiceToAppMessage>) -> SessionView {
        SessionView { ended_at: None, app_sender: Some(app_sender), ..self }
    }

    /// The payload of the most recent sample.
    pub open spec fn latest_data(self) -> Option<Value> {
        if self.data_history.len() == 0 {
            None
        } else {
            Some(self.data_history.last().payload)
        }
    }

    /// The buffered log records as entries, oldest first.
    pub open spec fn recent_logs(self) -> Seq<LogEntry> {
        Seq::new(self.log_history.len(), |i: int| log_entry_of(self.log_history[i]))
    }

    /// What consumers are shown of the session.
    pub open spec fn snapshot(self) -> SessionInfoView {
        SessionInfoView {
            session_id: self.id,
            app_name: self.app_name,
            package_name: self.package_name,
            version_name: self.version_name,
            device: self.device,
            dashboard: self.dashboard_schema,
            started_at: self.started_at,
            latest_data: self.latest_data(),
            recent_logs: self.recent_logs(),
        }
    }
}

impl View for Session {
    type V = SessionView;

    closed spec fn view(&self) -> SessionView {
        SessionView {
            id: self.id,
            app_name: self.app_name,
            package_name: self.package_name,
            version_name: self.version_name,
            device: self.device,
            dashboard_schema: self.dashboard_schema,
            started_at: self.started_at,
            ended_at: self.ended_at,
            data_history: self.data_buffer@,
            data_capacity: self.data_buffer.capacity(),
            log_history: self.log_buffer@,
            log_capacity: self.log_buffer.capacity(),
            network_requests: self.network_requests@,
            app_sender: self.app_sender,
        }
    }
}

impl Session {
    /// Opens a session under `id`, started at `started_at`.
    pub fn with_identity(
        id: String,
        started_at: Timestamp,
        register: RegisterPayload,
        data_buffer_size: usize,
        log_buffer_size: usize,
        app_sender: Sender<ServiceToAppMessage>,
    ) -> (session: Session)
        ensures
            session@ == fresh_session(
                id,
                started_at,
                register,
                data_buffer_size as nat,
                log_buffer_size as nat,
                app_sender,
            ),
    {
        Session {
            id,
            app_name: register.app_name,
            package_name: register.package_name,
            version_name: register.version_name,
            device: register.device,
            dashboard_schema: register.dashboard,
            started_at,
            ended_at: None,
            data_buffer: RingBuffer::new(data_buffer_size),
            log_buffer: RingBuffer::new(log_buffer_size),
            network_requests: RingBuffer::new(NETWORK_REQUEST_CAPACITY),
            app_sender: Some(app_sender),
        }
    }

    /// Opens a session under a newly minted id, started now.
    pub fn new(
        register: RegisterPayload,
        data_buffer_size: usize,
        log_buffer_size: usize,
        app_sender: Sender<ServiceToAppMessage>,
    ) -> (session: Session)
        ensures
            exists|id: String, started_at: Timestamp|
                id@.len() == SESSION_ID_LENGTH && session@ == fresh_session(
                    id,
                    started_at,
                    register,
                    data_buffer_size as nat,
                    log_buffer_size as nat,
                    app_sender,
                ),
    {
        let id = mint_session_id();
        let started_at = Timestamp::now();
        Session::with_identity(id, started_at, register, data_buffer_size, log_buffer_size, app_sender)
    }

    /// Buffers a sample, dropping the oldest if the buffer is full.
    pub fn add_data(&mut self, timestamp: Timestamp, payload: Value)
        ensures
            final(self)@ == old(self)@.with_data(timestamp, payload),
    {
        self.data_buffer.push(DataMessage { timestamp, payload });
    }

    /// Empties the record of network requests.
    pub fn clear_network_requests(&mut self)
        ensures
            final(self)@ == old(self)@.without_network_requests(),
    {
        self.network_requests.clear();
    }

    /// Buffers a log record, dropping the oldest if the buffer is full.
    pub fn add_log(&mut self, timestamp: Timestamp, payload: LogPayload)
        ensures
            final(self)@ == old(self)@.with_log(timestamp, payload),
    {
        self.log_buffer.push(LogMessage { timestamp, payload });
    }

    /// A copy of the most recent sample's payload.
    pub fn get_latest_data(&self) -> (latest: Option<Value>)
        ensures
            latest == self@.latest_data(),
    {
        let len = self.data_buffer.len();
        if len == 0 {
            None
        } else {
            match self.data_buffer.get(len - 1) {
                Some(sample) => Some(sample.payload.clone()),
                None => None,
            }
        }
    }

    /// The buffered log records as entries, oldest first.
    pub fn get_recent_logs(&self) -> (logs: Vec<LogEntry>)
        ensures
            logs@ == self@.recent_logs(),
    {
        let len = self.log_buffer.len();
        let mut logs: Vec<LogEntry> = Vec::new();
        let mut index: usize = 0;
        while index < len
            invariant
                index <= len,
                len == self.log_buffer@.len(),
                logs@ == Seq::new(index as nat, |i: int| log_entry_of(self.log_buffer@[i])),
            decreases len - index,
        {
            if let Some(record) = self.log_buffer.get(index) {
                logs.push(LogEntry::from(record));
            }
            index = index + 1;
            assert(logs@ =~= Seq::new(index as nat, |i: int| log_entry_of(self.log_buffer@[i])));
        }
        logs
    }

    /// The outbox toward the producer, while one is attached.
    pub fn app_outbox(&self) -> (outbox: Option<Sender<ServiceToAppMessage>>)
        ensures
            outbox == self@.app_sender,
    {
        match &self.app_sender {
            Some(sender) => Some(sender.clone()),
            None => None,
        }
    }

    /// Whether the producer is attached.
    pub fn is_active(&self) -> (active: bool)
        ensures
            active == self@.is_active(),
    {
        self.ended_at.is_none()
    }

    /// Marks the session ended at `now` and drops its outbox.
    pub fn end_at(&mut self, now: Timestamp)
        ensures
            final(self)@ == old(self)@.ended(now),
    {
        self.ended_at = Some(now);
        self.app_sender = None;
    }

    /// Marks the session ended now and drops its outbox.
    pub fn end(&mut self)
        ensures
            exists|now: Timestamp| final(self)@ == old(self)@.ended(now),
    {
        let now = Timestamp::now();
        self.end_at(now);
    }

    /// Attaches a producer again: history, identity and schema stay.
    pub fn resume(&mut self, app_sender: Sender<ServiceToAppMessage>)
        ensures
            final(self)@ == old(self)@.resumed(app_sender),
    {
        self.ended_at = None;
        self.app_sender = Some(app_sender);
    }

    /// What consumers are shown of the session.
    pub fn to_session_info(&self) -> (info: SessionInfo)
        ensures
            info@ == self@.snapshot(),
    {
        SessionInfo {
            session_id: self.id.clone(),
            app_name: self.app_name.clone(),
            package_name: self.package_name.clone(),
            version_name: self.version_name.clone(),
            device: self.device.clone(),
            dashboard: self.dashboard_schema.clone(),
            started_at: self.started_at,
            latest_data: self.get_latest_data(),
            recent_logs: self.get_recent_logs(),
        }
    }
}

// === The registry ===

/// The registry as the contracts see it.
pub struct RegistryView {
    /// Every session on record, in the order they were created.
    pub sessions: Seq<SessionView>,
    /// The outboxes of the attached consumers, in the order they attached.
    pub consumers: Seq<Sender<ServiceToDashboardMessage>>,
    pub data_buffer_size: nat,
    pub log_buffer_size: nat,
    pub ttl_seconds: nat,
}

impl SessionView {
    /// Whether the session ended more than `ttl_seconds` before `now`.
    pub open spec fn expired(self, now: Timestamp, ttl_seconds: nat) -> bool {
        self.ended_at matches Some(ended_at) && now.millis_since(ended_at) > ttl_seconds * 1000
    }
}

impl RegistryView {
    /// The registry's invariant: no two sessions share an id, and every
    /// session is well formed and sized as the registry is configured.
    pub open spec fn wf(self) -> bool {
        &&& forall|i: int, j: int|
            0 <= i < self.sessions.len() && 0 <= j < self.sessions.len() && i != j
                ==> (#[trigger] self.sessions[i]).id@ != (#[trigger] self.sessions[j]).id@
        &&& forall|i: int|
            0 <= i < self.sessions.len() ==> {
                &&& (#[trigger] self.sessions[i]).wf()
                &&& self.sessions[i].data_capacity == self.data_buffer_size
                &&& self.sessions[i].log_capacity == self.log_buffer_size
            }
    }

    /// Whether every session on record goes under an id as long as a minted
    /// one.
    pub open spec fn ids_minted(self) -> bool {
        forall|i: int|
            0 <= i < self.sessions.len() ==> (#[trigger] self.sessions[i]).id@.len()
                == SESSION_ID_LENGTH
    }

    /// Whether a session is on record under `id`.
    pub open spec fn has_session(self, id: Seq<char>) -> bool {
        exists|i: int| 0 <= i < self.sessions.len() && (#[trigger] self.sessions[i]).id@ == id
    }

    /// Whether `index` is where the earliest session with `id` stands. In a
    /// well-formed registry no other session has that id.
    pub open spec fn stands_first(self, id: Seq<char>, index: int) -> bool {
        &&& 0 <= index < self.sessions.len()
        &&& self.sessions[index].id@ == id
        &&& forall|j: int| 0 <= j < index ==> (#[trigger] self.sessions[j]).id@ != id
    }

    /// Where the session with `id` stands, if one is on record.
    pub open spec fn index_of(self, id: Seq<char>) -> int {
        choose|i: int| self.stands_first(id, i)
    }

    /// The session on record under `id`.
    pub open spec fn session(self, id: Seq<char>) -> Option<SessionView> {
        if self.has_session(id) {
            Some(self.sessions[self.index_of(id)])
        } else {
            None
        }
    }

    /// The registry with the session under `id` replaced by `session`.
    pub open spec fn with_session(self, id: Seq<char>, session: SessionView) -> RegistryView {
        if self.has_session(id) {
            RegistryView { sessions: self.sessions.update(self.index_of(id), session), ..self }
        } else {
            self
        }
    }

    /// The registry after `session` is put on record: it takes the place of a
    /// session with the same id, or else comes last.
    pub open spec fn with_session_inserted(self, session: SessionView) -> RegistryView {
        if self.has_session(session.id@) {
            self.with_session(session.id@, session)
        } else {
            RegistryView { sessions: self.sessions.push(session), ..self }
        }
    }

    /// The registry once a sample has been buffered in the session under
    /// `id`; the same registry if there is none.
    pub open spec fn with_data(self, id: Seq<char>, timestamp: Timestamp, payload: Value) -> RegistryView {
        match self.session(id) {
            Some(session) => self.with_session(id, session.with_data(timestamp, payload)),
            None => self,
        }
    }

    /// The registry once a log record has been buffered in the session under
    /// `id`; the same registry if there is none.
    pub open spec fn with_log(self, id: Seq<char>, timestamp: Timestamp, payload: LogPayload) -> RegistryView {
        match self.session(id) {
            Some(session) => self.with_session(id, session.with_log(timestamp, payload)),
            None => self,
        }
    }

    /// The registry once the session under `id` has had its record of
    /// network requests emptied; the same registry if there is none.
    pub open spec fn with_network_cleared(self, id: Seq<char>) -> RegistryView {
        match self.session(id) {
            Some(session) => self.with_session(id, session.without_network_requests()),
            None => self,
        }
    }

    /// The registry once the session under `id` has ended at `now`.
    pub open spec fn with_session_ended(self, id: Seq<char>, now: Timestamp) -> RegistryView {
        match self.session(id) {
            Some(session) => self.with_session(id, session.ended(now)),
            None => self,
        }
    }
}

/// Tells the sessions whose producer is attached.
pub open spec fn active_pred() -> spec_fn(SessionView) -> bool {
    |session: SessionView| session.is_active()
}

/// Tells the sessions that a sweep at `now` keeps.
pub open spec fn kept_pred(now: Timestamp, ttl_seconds: nat) -> spec_fn(SessionView) -> bool {
    |session: SessionView| !session.expired(now, ttl_seconds)
}

/// Tells the outboxes other than `outbox`.
pub open spec fn other_than(outbox: Sender<ServiceToDashboardMessage>) -> spec_fn(
    Sender<ServiceToDashboardMessage>,
) -> bool {
    |consumer: Sender<ServiceToDashboardMessage>| consumer != outbox
}

impl RegistryView {
    /// Whether `index` is where the earliest session stands that a producer
    /// naming this device and package may take over.
    pub open spec fn is_first_resumable(self, device_id: Seq<char>, package_name: Seq<char>, index: int) -> bool {
        &&& 0 <= index < self.sessions.len()
        &&& self.sessions[index].resumable_by(device_id, package_name)
        &&& forall|j: int|
            0 <= j < index ==> !(#[trigger] self.sessions[j]).resumable_by(device_id, package_name)
    }

    /// Where the earliest resumable session for this device and package stands.
    pub open spec fn first_resumable(self, device_id: Seq<char>, package_name: Seq<char>) -> Option<int> {
        if exists|i: int| self.is_first_resumable(device_id, package_name, i) {
            Some(choose|i: int| self.is_first_resumable(device_id, package_name, i))
        } else {
            None
        }
    }

    /// The registry after a producer registers through `app_sender`: the
    /// earliest resumable session for its device and package is resumed; if
    /// there is none, a session is opened under `fresh_id`, started at `now`.
    pub open spec fn registered(
        self,
        register: RegisterPayload,
        app_sender: Sender<ServiceToAppMessage>,
        fresh_id: String,
        now: Timestamp,
    ) -> RegistryView {
        match self.first_resumable(register.device.device_id@, register.package_name@) {
            Some(index) => RegistryView {
                sessions: self.sessions.update(index, self.sessions[index].resumed(app_sender)),
                ..self
            },
            None => self.with_session_inserted(
                fresh_session(
                    fresh_id,
                    now,
                    register,
                    self.data_buffer_size,
                    self.log_buffer_size,
                    app_sender,
                ),
            ),
        }
    }

    /// The session that a registration leaves attached to the producer.
    pub open spec fn registered_session(
        self,
        register: RegisterPayload,
        app_sender: Sender<ServiceToAppMessage>,
        fresh_id: String,
        now: Timestamp,
    ) -> SessionView {
        match self.first_resumable(register.device.device_id@, register.package_name@) {
            Some(index) => self.sessions[index].resumed(app_sender),
            None => fresh_session(
                fresh_id,
                now,
                register,
                self.data_buffer_size,
                self.log_buffer_size,
                app_sender,
            ),
        }
    }

    /// The id under which a registration is answered.
    pub open spec fn registration_id(self, register: RegisterPayload, fresh_id: String) -> String {
        match self.first_resumable(register.device.device_id@, register.package_name@) {
            Some(index) => self.sessions[index].id,
            None => fresh_id,
        }
    }

    /// Whether a registration resumes a session rather than opening one.
    pub open spec fn resumes(self, register: RegisterPayload) -> bool {
        self.first_resumable(register.device.device_id@, register.package_name@) is Some
    }

    /// The registry without the session under `id`.
    pub open spec fn without_session(self, id: Seq<char>) -> RegistryView {
        if self.has_session(id) {
            RegistryView { sessions: self.sessions.remove(self.index_of(id)), ..self }
        } else {
            self
        }
    }

    /// The sessions whose producer is attached, in registry order.
    pub open spec fn active_sessions(self) -> Seq<SessionView> {
        self.sessions.filter(active_pred())
    }

    /// The registry once a consumer has attached through `outbox`.
    pub open spec fn with_consumer(self, outbox: Sender<ServiceToDashboardMessage>) -> RegistryView {
        RegistryView { consumers: self.consumers.push(outbox), ..self }
    }

    /// The registry once the consumer behind `outbox` has detached: every
    /// entry for that outbox is gone.
    pub open spec fn without_consumer(self, outbox: Sender<ServiceToDashboardMessage>) -> RegistryView {
        RegistryView { consumers: self.consumers.filter(other_than(outbox)), ..self }
    }

    /// The registry after a sweep at `now`: the sessions that ended more than
    /// the TTL ago are gone.
    pub open spec fn swept(self, now: Timestamp) -> RegistryView {
        RegistryView { sessions: self.sessions.filter(kept_pred(now, self.ttl_seconds)), ..self }
    }
}

/// The views of the sessions that `sessions` refers to, in order.
pub open spec fn session_ref_views(sessions: Seq<&Session>) -> Seq<SessionView> {
    Seq::new(sessions.len(), |i: int| sessions[i]@)
}

/// If a session with `id` stands at `index`, the earliest one with that id
/// stands at or before it; in a well-formed registry, right there.
pub proof fn lemma_index_of(registry: RegistryView, id: Seq<char>, index: int)
    requires
        0 <= index < registry.sessions.len(),
        registry.sessions[index].id@ == id,
    ensures
        registry.has_session(id),
        registry.stands_first(id, registry.index_of(id)),
        registry.index_of(id) <= index,
        registry.wf() ==> registry.index_of(id) == index,
    decreases index,
{
    if exists|j: int| 0 <= j < index && (#[trigger] registry.sessions[j]).id@ == id {
        let j = choose|j: int| 0 <= j < index && (#[trigger] registry.sessions[j]).id@ == id;
        lemma_index_of(registry, id, j);
    } else {
        assert(registry.stands_first(id, index));
        let chosen = registry.index_of(id);
        assert(registry.stands_first(id, chosen));
    }
}

/// Where a session is on record under `id`, the earliest one stands at
/// `index_of(id)`.
pub proof fn lemma_has_session(registry: RegistryView, id: Seq<char>)
    requires
        registry.has_session(id),
    ensures
        registry.stands_first(id, registry.index_of(id)),
{
    let some = choose|i: int|
        0 <= i < registry.sessions.len() && (#[trigger] registry.sessions[i]).id@ == id;
    lemma_index_of(registry, id, some);
}

/// The process-wide record of sessions and attached consumers.
pub struct SessionManager {
    sessions: Vec<Session>,
    dashboard_senders: Vec<Sender<ServiceToDashboardMessage>>,
    data_buffer_size: usize,
    log_buffer_size: usize,
    ended_session_ttl_seconds: u64,
}

/// The views of `sessions`, in order.
pub closed spec fn session_views(sessions: Seq<Session>) -> Seq<SessionView> {
    Seq::new(sessions.len(), |i: int| sessions[i]@)
}

impl View for SessionManager {
    type V = RegistryView;

    closed spec fn view(&self) -> RegistryView {
        RegistryView {
            sessions: session_views(self.sessions@),
            consumers: self.dashboard_senders@,
            data_buffer_size: self.data_buffer_size as nat,
            log_buffer_size: self.log_buffer_size as nat,
            ttl_seconds: self.ended_session_ttl_seconds as nat,
        }
    }
}

impl SessionManager {
    /// An empty registry whose sessions will keep so many samples and log
    /// records, and linger so many seconds once ended.
    pub fn new(data_buffer_size: usize, log_buffer_size: usize, ended_session_ttl_seconds: u64) -> (manager: Self)
        ensures
            manager@ == (RegistryView {
                sessions: Seq::empty(),
                consumers: Seq::empty(),
                data_buffer_size: data_buffer_size as nat,
                log_buffer_size: log_buffer_size as nat,
                ttl_seconds: ended_session_ttl_seconds as nat,
            }),
            manager@.wf(),
    {
        let manager = SessionManager {
            sessions: Vec::new(),
            dashboard_senders: Vec::new(),
            data_buffer_size,
            log_buffer_size,
            ended_session_ttl_seconds,
        };
        assert(manager@.sessions =~= Seq::empty());
        manager
    }

    /// Where the session with `session_id` stands.
    fn find(&self, session_id: &str) -> (found: Option<usize>)
        ensures
            found is Some == self@.has_session(session_id@),
            found matches Some(index) ==> index == self@.index_of(session_id@)
                && self@.stands_first(session_id@, index as int),
    {
        let wanted = session_id.to_owned();
        let mut index: usize = 0;
        while index < self.sessions.len()
            invariant
                wanted@ == session_id@,
                index <= self.sessions@.len(),
                forall|i: int| 0 <= i < index ==> (#[trigger] self@.sessions[i]).id@ != session_id@,
            decreases self.sessions@.len() - index,
        {
            if self.sessions[index].id == wanted {
                proof {
                    assert(self@.stands_first(session_id@, index as int));
                    let chosen = self@.index_of(session_id@);
                    assert(self@.stands_first(session_id@, chosen));
                }
                return Some(index);
            }
            index = index + 1;
        }
        None
    }

    /// The session on record under `session_id`.
    pub fn get_session(&self, session_id: &str) -> (session: Option<&Session>)
        ensures
            match session {
                Some(session) => self@.session(session_id@) == Some(session@),
                None => self@.session(session_id@) is None,
            },
    {
        match self.find(session_id) {
            Some(index) => Some(&self.sessions[index]),
            None => None,
        }
    }

    /// Buffers a sample in the session under `session_id`; tells whether
    /// there is such a session.
    pub fn add_data(&mut self, session_id: &str, timestamp: Timestamp, data: Value) -> (known: bool)
        ensures
            known == old(self)@.has_session(session_id@),
            final(self)@ == old(self)@.with_data(session_id@, timestamp, data),
            old(self)@.wf() ==> final(self)@.wf(),
    {
        match self.find(session_id) {
            Some(index) => {
                self.sessions[index].add_data(timestamp, data);
                assert(self@.sessions =~= old(self)@.sessions.update(
                    index as int,
                    old(self)@.sessions[index as int].with_data(timestamp, data),
                ));
                true
            },
            None => false,
        }
    }

    /// Buffers a log record in the session under `session_id`; tells
    /// whether there is such a session.
    pub fn add_log(&mut self, session_id: &str, timestamp: Timestamp, log: LogPayload) -> (known: bool)
        ensures
            known == old(self)@.has_session(session_id@),
            final(self)@ == old(self)@.with_log(session_id@, timestamp, log),
            old(self)@.wf() ==> final(self)@.wf(),
    {
        match self.find(session_id) {
            Some(index) => {
                self.sessions[index].add_log(timestamp, log);
                assert(self@.sessions =~= old(self)@.sessions.update(
                    index as int,
                    old(self)@.sessions[index as int].with_log(timestamp, log),
                ));
                true
            },
            None => false,
        }
    }

    /// Marks the session under `session_id` ended at `now`; the record stays
    /// until a sweep removes it. An unknown id changes nothing.
    pub fn end_session_at(&mut self, session_id: &str, now: Timestamp)
        ensures
            final(self)@ == old(self)@.with_session_ended(session_id@, now),
            old(self)@.wf() ==> final(self)@.wf(),
    {
        match self.find(session_id) {
            Some(index) => {
                self.sessions[index].end_at(now);
                assert(self@.sessions =~= old(self)@.sessions.update(
                    index as int,
                    old(self)@.sessions[index as int].ended(now),
                ));
            },
            None => {},
        }
    }

    /// Marks the session under `session_id` ended now.
    pub fn end_session(&mut self, session_id: &str)
        ensures
            exists|now: Timestamp| final(self)@ == old(self)@.with_session_ended(session_id@, now),
            old(self)@.wf() ==> final(self)@.wf(),
    {
        let now = Timestamp::now();
        self.end_session_at(session_id, now);
    }

    /// Where the earliest session stands that `register` may resume.
    fn find_resumable(&self, register: &RegisterPayload) -> (found: Option<usize>)
        ensures
            match found {
                Some(index) => self@.first_resumable(
                    register.device.device_id@,
                    register.package_name@,
                ) == Some(index as int) && index < self.sessions@.len(),
                None => self@.first_resumable(register.device.device_id@, register.package_name@)
                    is None,
            },
    {
        let ghost device_id = register.device.device_id@;
        let ghost package_name = register.package_name@;
        let mut index: usize = 0;
        while index < self.sessions.len()
            invariant
                index <= self.sessions@.len(),
                device_id == register.device.device_id@,
                package_name == register.package_name@,
                forall|j: int|
                    0 <= j < index ==> !(#[trigger] self@.sessions[j]).resumable_by(
                        device_id,
                        package_name,
                    ),
            decreases self.sessions@.len() - index,
        {
            let session = &self.sessions[index];
            if session.ended_at.is_some() && session.device.device_id == register.device.device_id
                && session.package_name == register.package_name {
                proof {
                    assert(self@.sessions[index as int].resumable_by(device_id, package_name));
                    assert(self@.is_first_resumable(device_id, package_name, index as int));
                    let chosen = choose|i: int| self@.is_first_resumable(device_id, package_name, i);
                    assert(self@.is_first_resumable(device_id, package_name, chosen));
                    assert(chosen == index);
                }
                return Some(index);
            }
            assert(!self@.sessions[index as int].resumable_by(device_id, package_name));
            index = index + 1;
        }
        proof {
            assert forall|i: int| !self@.is_first_resumable(device_id, package_name, i) by {
                if 0 <= i < self@.sessions.len() {
                    assert(!self@.sessions[i].resumable_by(device_id, package_name));
                }
            }
        }
        None
    }

    /// Puts `session` on record, in place of a session with the same id if
    /// there is one.
    fn insert(&mut self, session: Session)
        requires
            session@.wf(),
            session@.data_capacity == old(self)@.data_buffer_size,
            session@.log_capacity == old(self)@.log_buffer_size,
        ensures
            final(self)@ == old(self)@.with_session_inserted(session@),
            old(self)@.wf() ==> final(self)@.wf(),
    {
        match self.find(session.id.as_str()) {
            Some(index) => {
                self.sessions.set(index, session);
                assert(self@.sessions =~= old(self)@.sessions.update(index as int, session@));
            },
            None => {
                self.sessions.push(session);
                assert(self@.sessions =~= old(self)@.sessions.push(session@));
            },
        }
    }

    /// Registers a producer: resumes the earliest ended session of the same
    /// device and package, or opens a session under `fresh_id`, started at
    /// `now`. Returns the session's id and whether it was resumed.
    pub fn create_session_with(
        &mut self,
        register: RegisterPayload,
        app_sender: Sender<ServiceToAppMessage>,
        fresh_id: String,
        now: Timestamp,
    ) -> (result: (String, bool))
        ensures
            final(self)@ == old(self)@.registered(register, app_sender, fresh_id, now),
            result.0 == old(self)@.registration_id(register, fresh_id),
            result.1 == old(self)@.resumes(register),
            final(self)@.has_session(result.0@),
            old(self)@.wf() ==> final(self)@.session(result.0@) == Some(
                old(self)@.registered_session(register, app_sender, fresh_id, now),
            ),
            old(self)@.wf() ==> final(self)@.wf(),
    {
        match self.find_resumable(&register) {
            Some(index) => {
                let session_id = self.sessions[index].id.clone();
                self.sessions[index].resume(app_sender);
                proof {
                    assert(self@.sessions =~= old(self)@.sessions.update(
                        index as int,
                        old(self)@.sessions[index as int].resumed(app_sender),
                    ));
                    assert(self@.sessions[index as int].id@ == session_id@);
                    lemma_index_of(self@, session_id@, index as int);
                }
                (session_id, true)
            },
            None => {
                let session = Session::with_identity(
                    fresh_id,
                    now,
                    register,
                    self.data_buffer_size,
                    self.log_buffer_size,
                    app_sender,
                );
                let session_id = session.id.clone();
                let ghost opened = session@;
                self.insert(session);
                proof {
                    let at = if old(self)@.has_session(session_id@) {
                        old(self)@.index_of(session_id@)
                    } else {
                        old(self)@.sessions.len() as int
                    };
                    if old(self)@.has_session(session_id@) {
                        lemma_has_session(old(self)@, session_id@);
                    }
                    assert(self@.sessions[at] == opened);
                    lemma_index_of(self@, session_id@, at);
                }
                (session_id, false)
            },
        }
    }

    /// Registers a producer, minting the id and reading the clock as needed.
    pub fn create_session(&mut self, register: RegisterPayload, app_sender: Sender<ServiceToAppMessage>) -> (result: (
        String,
        bool,
    ))
        ensures
            exists|fresh_id: String, now: Timestamp|
                {
                    &&& fresh_id@.len() == SESSION_ID_LENGTH
                    &&& final(self)@ == old(self)@.registered(register, app_sender, fresh_id, now)
                    &&& result.0 == old(self)@.registration_id(register, fresh_id)
                },
            result.1 == old(self)@.resumes(register),
            old(self)@.wf() ==> final(self)@.wf(),
    {
        let fresh_id = mint_session_id();
        let now = Timestamp::now();
        self.create_session_with(register, app_sender, fresh_id, now)
    }

    /// Takes the session under `session_id` off the record and hands it
    /// back.
    pub fn remove_session(&mut self, session_id: &str) -> (removed: Option<Session>)
        ensures
            final(self)@ == old(self)@.without_session(session_id@),
            match removed {
                Some(session) => old(self)@.session(session_id@) == Some(session@),
                None => old(self)@.session(session_id@) is None,
            },
            old(self)@.wf() ==> final(self)@.wf(),
    {
        match self.find(session_id) {
            Some(index) => {
                let session = self.sessions.remove(index);
                assert(self@.sessions =~= old(self)@.sessions.remove(index as int));
                Some(session)
            },
            None => None,
        }
    }

    /// The sessions whose producer is attached, in registry order.
    pub fn get_active_sessions(&self) -> (active: Vec<&Session>)
        ensures
            session_ref_views(active@) == self@.active_sessions(),
    {
        let ghost all = self@.sessions;
        let mut active: Vec<&Session> = Vec::new();
        let mut index: usize = 0;
        proof {
            reveal(Seq::filter);
            assert(all.take(0) =~= Seq::empty());
        }
        while index < self.sessions.len()
            invariant
                all == self@.sessions,
                index <= self.sessions@.len(),
                session_ref_views(active@) == all.take(index as int).filter(active_pred()),
            decreases self.sessions@.len() - index,
        {
            let session = &self.sessions[index];
            proof {
                reveal(Seq::filter);
                assert(all.take(index + 1).drop_last() =~= all.take(index as int));
                assert(all.take(index + 1).last() == session@);
            }
            if session.is_active() {
                active.push(session);
            }
            index = index + 1;
            assert(session_ref_views(active@) =~= all.take(index as int).filter(active_pred()));
        }
        assert(all.take(index as int) =~= all);
        active
    }

    /// Every session on record, in registry order.
    pub fn get_all_sessions(&self) -> (all: Vec<&Session>)
        ensures
            session_ref_views(all@) == self@.sessions,
    {
        let mut all: Vec<&Session> = Vec::new();
        let mut index: usize = 0;
        while index < self.sessions.len()
            invariant
                index <= self.sessions@.len(),
                session_ref_views(all@) == self@.sessions.take(index as int),
            decreases self.sessions@.len() - index,
        {
            let session = &self.sessions[index];
            let ghost before = all@;
            all.push(session);
            proof {
                assert(self@.sessions[index as int] == session@);
                assert(session_ref_views(all@) =~= session_ref_views(before).push(session@));
                assert(self@.sessions.take(index + 1) =~= self@.sessions.take(index as int).push(
                    session@,
                ));
            }
            index = index + 1;
        }
        assert(self@.sessions.take(index as int) =~= self@.sessions);
        all
    }

    /// Attaches a consumer's outbox.
    pub fn add_dashboard_sender(&mut self, sender: Sender<ServiceToDashboardMessage>)
        ensures
            final(self)@ == old(self)@.with_consumer(sender),
    {
        self.dashboard_senders.push(sender);
    }

    /// The outboxes of the attached consumers, in the order they attached.
    pub fn get_dashboard_senders(&self) -> (senders: &[Sender<ServiceToDashboardMessage>])
        ensures
            senders@ == self@.consumers,
    {
        self.dashboard_senders.as_slice()
    }

    /// How many sessions are on record, ended ones included.
    pub fn session_count(&self) -> (count: usize)
        ensures
            count == self@.sessions.len(),
    {
        self.sessions.len()
    }

    /// How many sessions have their producer attached.
    pub fn active_session_count(&self) -> (count: usize)
        ensures
            count == self@.active_sessions().len(),
    {
        let active = self.get_active_sessions();
        active.len()
    }

    /// The session on record under `session_id`, to be changed in place.
    /// Whoever changes it answers for the registry's invariant.
    pub fn get_session_mut(&mut self, session_id: &str) -> (session: Option<&mut Session>)
        ensures
            match session {
                Some(session) => {
                    &&& old(self)@.session(session_id@) == Some(session@)
                    &&& final(self)@ == (RegistryView {
                        sessions: old(self)@.sessions.update(
                            old(self)@.index_of(session_id@),
                            final(session)@,
                        ),
                        ..old(self)@
                    })
                },
                None => old(self)@.session(session_id@) is None && final(self)@ == old(self)@,
            },
    {
        match self.find(session_id) {
            Some(index) => {
                proof {
                    let sessions = self.sessions@;
                    assert forall|changed: Session| #[trigger]
                        session_views(sessions.update(index as int, changed)) == session_views(
                            sessions,
                        ).update(index as int, changed@) by {
                        assert(session_views(sessions.update(index as int, changed))
                            =~= session_views(sessions).update(index as int, changed@));
                    }
                }
                Some(&mut self.sessions[index])
            },
            None => None,
        }
    }

    /// Detaches a consumer's outbox: every entry that feeds the same queue as
    /// `sender` goes.
    pub fn remove_dashboard_sender(&mut self, sender: &Sender<ServiceToDashboardMessage>)
        ensures
            final(self)@ == old(self)@.without_consumer(*sender),
    {
        let ghost before = self@.consumers;
        let ghost mut done: int = 0;
        let mut index: usize = 0;
        proof {
            reveal(Seq::filter);
            assert(before.take(0) =~= Seq::empty());
            assert(before.skip(0) =~= before);
        }
        while index < self.dashboard_senders.len()
            invariant
                0 <= done <= before.len(),
                self@ == (RegistryView { consumers: self@.consumers, ..old(self)@ }),
                before == old(self)@.consumers,
                index == before.take(done).filter(other_than(*sender)).len(),
                self@.consumers == before.take(done).filter(other_than(*sender)) + before.skip(done),
            decreases before.len() - done,
        {
            proof {
                reveal(Seq::filter);
                assert(before.take(done + 1).drop_last() =~= before.take(done));
                assert(before.take(done + 1).last() == before[done]);
                assert(self@.consumers[index as int] == before.skip(done)[0]);
            }
            if self.dashboard_senders[index].same_channel(sender) {
                let _ = self.dashboard_senders.remove(index);
                proof {
                    assert(self@.consumers =~= before.take(done + 1).filter(other_than(*sender))
                        + before.skip(done + 1));
                }
            } else {
                proof {
                    assert(self@.consumers =~= before.take(done + 1).filter(other_than(*sender))
                        + before.skip(done + 1));
                }
                index = index + 1;
            }
            proof {
                done = done + 1;
            }
        }
        proof {
            assert(before.take(done) =~= before);
            assert(self@.consumers =~= before.filter(other_than(*sender)));
        }
    }

    /// Whether `session` ended more than `ttl_seconds` before `now`.
    fn is_expired(session: &Session, now: Timestamp, ttl_seconds: u64) -> (expired: bool)
        ensures
            expired == session@.expired(now, ttl_seconds as nat),
    {
        match session.ended_at {
            Some(ended_at) => {
                let elapsed: i128 = now.millis as i128 - ended_at.millis as i128;
                let limit: i128 = ttl_seconds as i128 * 1000;
                elapsed > limit
            },
            None => false,
        }
    }

    /// Removes the sessions that ended more than the TTL before `now`.
    pub fn sweep(&mut self, now: Timestamp)
        ensures
            final(self)@ == old(self)@.swept(now),
            old(self)@.wf() ==> final(self)@.wf(),
    {
        let ttl_seconds = self.ended_session_ttl_seconds;
        let ghost before = self@.sessions;
        let ghost keep = kept_pred(now, ttl_seconds as nat);
        let ghost mut done: int = 0;
        let mut index: usize = 0;
        proof {
            reveal(Seq::filter);
            assert(before.take(0) =~= Seq::empty());
            assert(before.skip(0) =~= before);
        }
        while index < self.sessions.len()
            invariant
                0 <= done <= before.len(),
                self@ == (RegistryView { sessions: self@.sessions, ..old(self)@ }),
                old(self)@.wf() ==> self@.wf(),
                before == old(self)@.sessions,
                ttl_seconds as nat == old(self)@.ttl_seconds,
                keep == kept_pred(now, ttl_seconds as nat),
                index == before.take(done).filter(keep).len(),
                self@.sessions == before.take(done).filter(keep) + before.skip(done),
            decreases before.len() - done,
        {
            proof {
                reveal(Seq::filter);
                assert(before.take(done + 1).drop_last() =~= before.take(done));
                assert(before.take(done + 1).last() == before[done]);
                assert(self@.sessions[index as int] == before.skip(done)[0]);
            }
            let ghost current = self@.sessions;
            if Self::is_expired(&self.sessions[index], now, ttl_seconds) {
                let _ = self.sessions.remove(index);
                proof {
                    assert(self@.sessions =~= current.remove(index as int));
                    assert(self@.sessions =~= before.take(done + 1).filter(keep) + before.skip(
                        done + 1,
                    ));
                }
            } else {
                proof {
                    assert(self@.sessions =~= before.take(done + 1).filter(keep) + before.skip(
                        done + 1,
                    ));
                }
                index = index + 1;
            }
            proof {
                done = done + 1;
            }
        }
        proof {
            assert(before.take(done) =~= before);
            assert(self@.sessions =~= before.filter(keep));
        }
    }

    /// Removes the sessions that ended more than the TTL ago, by the clock's
    /// reading.
    pub fn cleanup_ended_sessions(&mut self)
        ensures
            exists|now: Timestamp| final(self)@ == old(self)@.swept(now),
            old(self)@.wf() ==> final(self)@.wf(),
    {
        let now = Timestamp::now();
        self.sweep(now);
    }
}

// === What holds of sessions and of the registry ===

/// A session that a registration opens is well formed.
pub proof fn lemma_fresh_session_wf(
    id: String,
    started_at: Timestamp,
    register: RegisterPayload,
    data_capacity: nat,
    log_capacity: nat,
    app_sender: Sender<ServiceToAppMessage>,
)
    ensures
        fresh_session(id, started_at, register, data_capacity, log_capacity, app_sender).wf(),
{
}

/// Every operation on a session keeps it well formed: no history outgrows its
/// buffer, and the outbox is there exactly while the session has not ended.
pub proof fn lemma_session_stays_wf(
    session: SessionView,
    timestamp: Timestamp,
    data: Value,
    log: LogPayload,
    app_sender: Sender<ServiceToAppMessage>,
)
    requires
        session.wf(),
    ensures
        session.with_data(timestamp, data).wf(),
        session.with_log(timestamp, log).wf(),
        session.without_network_requests().wf(),
        session.ended(timestamp).wf(),
        session.resumed(app_sender).wf(),
{
}

/// In a well-formed registry configured with buffer sizes of at least one, no
/// session holds more samples than the data buffer size, nor more log records
/// than the log buffer size.
pub proof fn lemma_histories_within_buffer_sizes(registry: RegistryView, index: int)
    requires
        registry.wf(),
        0 <= index < registry.sessions.len(),
    ensures
        registry.data_buffer_size >= 1 ==> registry.sessions[index].data_history.len()
            <= registry.data_buffer_size,
        registry.log_buffer_size >= 1 ==> registry.sessions[index].log_history.len()
            <= registry.log_buffer_size,
{
}

/// If some session is resumable for a device and package, an earliest one is.
pub proof fn lemma_first_resumable_exists(
    registry: RegistryView,
    device_id: Seq<char>,
    package_name: Seq<char>,
    index: int,
)
    requires
        0 <= index < registry.sessions.len(),
        registry.sessions[index].resumable_by(device_id, package_name),
    ensures
        registry.first_resumable(device_id, package_name) matches Some(first) && 0 <= first <= index
            && registry.is_first_resumable(device_id, package_name, first),
    decreases index,
{
    if exists|j: int|
        0 <= j < index && (#[trigger] registry.sessions[j]).resumable_by(device_id, package_name) {
        let j = choose|j: int|
            0 <= j < index && (#[trigger] registry.sessions[j]).resumable_by(
                device_id,
                package_name,
            );
        lemma_first_resumable_exists(registry, device_id, package_name, j);
    } else {
        assert(registry.is_first_resumable(device_id, package_name, index));
        let chosen = choose|i: int| registry.is_first_resumable(device_id, package_name, i);
        assert(registry.is_first_resumable(device_id, package_name, chosen));
        assert(chosen == index);
    }
}

/// While the one ended session of a device and package is on record, a
/// registration from that device and package is answered with that session's
/// id, whatever id was minted.
pub proof fn lemma_registration_reuses_id(
    registry: RegistryView,
    register: RegisterPayload,
    fresh_id: String,
    index: int,
)
    requires
        0 <= index < registry.sessions.len(),
        registry.sessions[index].resumable_by(register.device.device_id@, register.package_name@),
        forall|j: int|
            0 <= j < registry.sessions.len() && j != index ==> !(#[trigger] registry.sessions[j]).resumable_by(
                register.device.device_id@,
                register.package_name@,
            ),
    ensures
        registry.resumes(register),
        registry.registration_id(register, fresh_id) == registry.sessions[index].id,
{
    lemma_first_resumable_exists(
        registry,
        register.device.device_id@,
        register.package_name@,
        index,
    );
}

/// Where no ended session of the device and package is on record, a
/// registration is answered with the minted id.
pub proof fn lemma_registration_mints_id(registry: RegistryView, register: RegisterPayload, fresh_id: String)
    requires
        forall|j: int|
            0 <= j < registry.sessions.len() ==> !(#[trigger] registry.sessions[j]).resumable_by(
                register.device.device_id@,
                register.package_name@,
            ),
    ensures
        !registry.resumes(register),
        registry.registration_id(register, fresh_id) == fresh_id,
{
    assert forall|i: int|
        !registry.is_first_resumable(register.device.device_id@, register.package_name@, i) by {
        if 0 <= i < registry.sessions.len() {
            assert(!registry.sessions[i].resumable_by(
                register.device.device_id@,
                register.package_name@,
            ));
        }
    }
}

/// A sweep keeps exactly the sessions that have not expired, in their order:
/// every session it leaves was on record and has not expired, and every
/// session on record that has not expired is left.
pub proof fn lemma_sweep_keeps_unexpired(registry: RegistryView, now: Timestamp)
    ensures
        forall|k: int|
            0 <= k < registry.swept(now).sessions.len() ==> {
                &&& !(#[trigger] registry.swept(now).sessions[k]).expired(now, registry.ttl_seconds)
                &&& registry.sessions.contains(registry.swept(now).sessions[k])
            },
        forall|i: int|
            0 <= i < registry.sessions.len() && !(#[trigger] registry.sessions[i]).expired(
                now,
                registry.ttl_seconds,
            ) ==> registry.swept(now).sessions.contains(registry.sessions[i]),
{
    let keep = kept_pred(now, registry.ttl_seconds);
    let kept = registry.sessions.filter(keep);
    assert forall|k: int| 0 <= k < kept.len() implies {
        &&& !(#[trigger] kept[k]).expired(now, registry.ttl_seconds)
        &&& registry.sessions.contains(kept[k])
    } by {
        registry.sessions.lemma_filter_pred(keep, k);
        assert(kept.contains(kept[k]));
        registry.sessions.lemma_filter_contains_rev(keep, kept[k]);
    }
    assert forall|i: int|
        0 <= i < registry.sessions.len() && !(#[trigger] registry.sessions[i]).expired(
            now,
            registry.ttl_seconds,
        ) implies kept.contains(registry.sessions[i]) by {
        registry.sessions.lemma_filter_contains(keep, i);
    }
}

/// Within the TTL: after a sweep at a time when the one ended session of a
/// device and package has not expired, a registration from that device and
/// package still reuses that session's id.
pub proof fn lemma_resumption_within_ttl(
    registry: RegistryView,
    now: Timestamp,
    register: RegisterPayload,
    fresh_id: String,
    index: int,
)
    requires
        0 <= index < registry.sessions.len(),
        registry.sessions[index].resumable_by(register.device.device_id@, register.package_name@),
        !registry.sessions[index].expired(now, registry.ttl_seconds),
        forall|j: int|
            0 <= j < registry.sessions.len() && registry.sessions[j] != registry.sessions[index]
                ==> !(#[trigger] registry.sessions[j]).resumable_by(
                register.device.device_id@,
                register.package_name@,
            ),
    ensures
        registry.swept(now).resumes(register),
        registry.swept(now).registration_id(register, fresh_id) == registry.sessions[index].id,
{
    let device_id = register.device.device_id@;
    let package_name = register.package_name@;
    let swept = registry.swept(now);
    lemma_sweep_keeps_unexpired(registry, now);
    assert(swept.sessions.contains(registry.sessions[index]));
    let at = choose|k: int| 0 <= k < swept.sessions.len() && swept.sessions[k] == registry.sessions[index];
    lemma_first_resumable_exists(swept, device_id, package_name, at);
    let first = swept.first_resumable(device_id, package_name)->0;
    assert(registry.sessions.contains(swept.sessions[first]));
    let origin = choose|j: int|
        0 <= j < registry.sessions.len() && registry.sessions[j] == swept.sessions[first];
    assert(registry.sessions[origin].resumable_by(device_id, package_name));
}

/// Outside the TTL: after a sweep at a time when every ended session of a
/// device and package has expired, a registration from that device and
/// package is answered with the minted id.
pub proof fn lemma_fresh_id_after_ttl(
    registry: RegistryView,
    now: Timestamp,
    register: RegisterPayload,
    fresh_id: String,
)
    requires
        forall|j: int|
            0 <= j < registry.sessions.len() && (#[trigger] registry.sessions[j]).resumable_by(
                register.device.device_id@,
                register.package_name@,
            ) ==> registry.sessions[j].expired(now, registry.ttl_seconds),
    ensures
        !registry.swept(now).resumes(register),
        registry.swept(now).registration_id(register, fresh_id) == fresh_id,
{
    let swept = registry.swept(now);
    lemma_sweep_keeps_unexpired(registry, now);
    assert forall|k: int| 0 <= k < swept.sessions.len() implies !(#[trigger] swept.sessions[k]).resumable_by(
        register.device.device_id@,
        register.package_name@,
    ) by {
        assert(registry.sessions.contains(swept.sessions[k]));
        let origin = choose|j: int|
            0 <= j < registry.sessions.len() && registry.sessions[j] == swept.sessions[k];
        if swept.sessions[k].resumable_by(register.device.device_id@, register.package_name@) {
            assert(registry.sessions[origin].expired(now, registry.ttl_seconds));
        }
    }
    lemma_registration_mints_id(swept, register, fresh_id);
}

/// A sweep never touches a session whose producer is attached.
pub proof fn lemma_sweep_keeps_active(registry: RegistryView, now: Timestamp, index: int)
    requires
        0 <= index < registry.sessions.len(),
        registry.sessions[index].is_active(),
    ensures
        registry.swept(now).sessions.contains(registry.sessions[index]),
{
    lemma_sweep_keeps_unexpired(registry, now);
}

/// Where no two sessions share an id, a session with `id` at `index` is the
/// one that `index_of(id)` gives.
pub proof fn lemma_unique_index(registry: RegistryView, id: Seq<char>, index: int)
    requires
        0 <= index < registry.sessions.len(),
        registry.sessions[index].id@ == id,
        forall|i: int, j: int|
            0 <= i < registry.sessions.len() && 0 <= j < registry.sessions.len() && i != j
                ==> (#[trigger] registry.sessions[i]).id@ != (#[trigger] registry.sessions[j]).id@,
    ensures
        registry.index_of(id) == index,
{
    lemma_index_of(registry, id, index);
}

/// Replacing the session under an id by one of the same id changes what is
/// on record under that id and nothing else.
pub proof fn lemma_with_session_lookup(
    registry: RegistryView,
    id: Seq<char>,
    session: SessionView,
    other: Seq<char>,
)
    requires
        registry.wf(),
        session.id@ == id,
    ensures
        registry.with_session(id, session).session(other) == if other == id && registry.has_session(
            id,
        ) {
            Some(session)
        } else {
            registry.session(other)
        },
{
    let changed = registry.with_session(id, session);
    if registry.has_session(id) {
        lemma_has_session(registry, id);
        let at = registry.index_of(id);
        assert(changed.sessions[at] == session);
        assert forall|i: int, j: int|
            0 <= i < changed.sessions.len() && 0 <= j < changed.sessions.len() && i != j implies (
        #[trigger] changed.sessions[i]).id@ != (#[trigger] changed.sessions[j]).id@ by {
            assert(registry.sessions[i].id@ == changed.sessions[i].id@);
            assert(registry.sessions[j].id@ == changed.sessions[j].id@);
        }
        if other == id {
            lemma_index_of(changed, other, at);
            lemma_unique_index(changed, other, at);
        } else if registry.has_session(other) {
            lemma_has_session(registry, other);
            let there = registry.index_of(other);
            assert(there != at);
            assert(changed.sessions[there] == registry.sessions[there]);
            lemma_index_of(changed, other, there);
            lemma_unique_index(changed, other, there);
        } else {
            if changed.has_session(other) {
                let found = choose|i: int|
                    0 <= i < changed.sessions.len() && (#[trigger] changed.sessions[i]).id@ == other;
                assert(found != at);
                assert(registry.sessions[found].id@ == other);
            }
        }
    }
}

/// Registering a producer leaves every attached session attached: on record
/// under its id, with its producer's outbox unless the registration took the
/// id over.
pub proof fn lemma_registration_keeps_active(
    registry: RegistryView,
    register: RegisterPayload,
    app_sender: Sender<ServiceToAppMessage>,
    fresh_id: String,
    now: Timestamp,
    id: Seq<char>,
)
    requires
        registry.wf(),
        registry.session(id) matches Some(session) && session.is_active(),
    ensures
        registry.registered(register, app_sender, fresh_id, now).session(id) matches Some(session)
            && session.is_active(),
{
    let after = registry.registered(register, app_sender, fresh_id, now);
    lemma_has_session(registry, id);
    let at = registry.index_of(id);
    match registry.first_resumable(register.device.device_id@, register.package_name@) {
        Some(index) => {
            lemma_first_resumable_exists(
                registry,
                register.device.device_id@,
                register.package_name@,
                choose|i: int|
                    registry.is_first_resumable(
                        register.device.device_id@,
                        register.package_name@,
                        i,
                    ),
            );
            assert(index != at);
            assert(after.sessions[at] == registry.sessions[at]);
            assert(after.wf());
            lemma_index_of(after, id, at);
        },
        None => {
            let opened = fresh_session(
                fresh_id,
                now,
                register,
                registry.data_buffer_size,
                registry.log_buffer_size,
                app_sender,
            );
            if registry.has_session(fresh_id@) {
                lemma_with_session_lookup(registry, fresh_id@, opened, id);
            } else {
                assert(after.sessions[at] == registry.sessions[at]);
                assert(after.wf());
                lemma_index_of(after, id, at);
            }
        },
    }
}

/// A registration leaves a well-formed registry well formed, and the session
/// it resumed or opened is the one on record under the id it is answered
/// with.
pub proof fn lemma_registration_records_its_session(
    registry: RegistryView,
    register: RegisterPayload,
    app_sender: Sender<ServiceToAppMessage>,
    fresh_id: String,
    now: Timestamp,
)
    requires
        registry.wf(),
    ensures
        registry.registered(register, app_sender, fresh_id, now).wf(),
        registry.registered(register, app_sender, fresh_id, now).session(
            registry.registration_id(register, fresh_id)@,
        ) == Some(registry.registered_session(register, app_sender, fresh_id, now)),
        registry.registered_session(register, app_sender, fresh_id, now).is_active(),
        registry.registered_session(register, app_sender, fresh_id, now).id
            == registry.registration_id(register, fresh_id),
{
    let after = registry.registered(register, app_sender, fresh_id, now);
    let session = registry.registered_session(register, app_sender, fresh_id, now);
    let id = registry.registration_id(register, fresh_id);
    let at = match registry.first_resumable(register.device.device_id@, register.package_name@) {
        Some(index) => {
            lemma_first_resumable_exists(
                registry,
                register.device.device_id@,
                register.package_name@,
                choose|i: int|
                    registry.is_first_resumable(
                        register.device.device_id@,
                        register.package_name@,
                        i,
                    ),
            );
            index
        },
        None => {
            if registry.has_session(fresh_id@) {
                lemma_has_session(registry, fresh_id@);
                registry.index_of(fresh_id@)
            } else {
                registry.sessions.len() as int
            }
        },
    };
    assert(after.sessions[at] == session);
    assert forall|i: int, j: int|
        0 <= i < after.sessions.len() && 0 <= j < after.sessions.len() && i != j implies (
    #[trigger] after.sessions[i]).id@ != (#[trigger] after.sessions[j]).id@ by {
        if i < registry.sessions.len() && i != at {
            assert(after.sessions[i] == registry.sessions[i]);
        }
        if j < registry.sessions.len() && j != at {
            assert(after.sessions[j] == registry.sessions[j]);
        }
    }
    assert forall|i: int| 0 <= i < after.sessions.len() implies {
        &&& (#[trigger] after.sessions[i]).wf()
        &&& after.sessions[i].data_capacity == after.data_buffer_size
        &&& after.sessions[i].log_capacity == after.log_buffer_size
    } by {
        if i != at {
            assert(after.sessions[i] == registry.sessions[i]);
        }
    }
    lemma_unique_index(after, id@, at);
}

/// The id a registration is answered with is as long as a minted one, and so
/// non-empty, if the minted id and the ids on record are; and the ids on
/// record stay so.
pub proof fn lemma_answered_id_is_minted(
    registry: RegistryView,
    register: RegisterPayload,
    app_sender: Sender<ServiceToAppMessage>,
    fresh_id: String,
    now: Timestamp,
)
    requires
        registry.ids_minted(),
        fresh_id@.len() == SESSION_ID_LENGTH,
    ensures
        registry.registration_id(register, fresh_id)@.len() == SESSION_ID_LENGTH,
        registry.registration_id(register, fresh_id)@.len() > 0,
        registry.registered(register, app_sender, fresh_id, now).ids_minted(),
{
    let after = registry.registered(register, app_sender, fresh_id, now);
    match registry.first_resumable(register.device.device_id@, register.package_name@) {
        Some(index) => {
            lemma_first_resumable_exists(
                registry,
                register.device.device_id@,
                register.package_name@,
                choose|i: int|
                    registry.is_first_resumable(
                        register.device.device_id@,
                        register.package_name@,
                        i,
                    ),
            );
            assert forall|i: int| 0 <= i < after.sessions.len() implies (
            #[trigger] after.sessions[i]).id@.len() == SESSION_ID_LENGTH by {
                assert(after.sessions[i].id == registry.sessions[i].id);
            }
        },
        None => {
            if registry.has_session(fresh_id@) {
                lemma_has_session(registry, fresh_id@);
            }
            assert forall|i: int| 0 <= i < after.sessions.len() implies (
            #[trigger] after.sessions[i]).id@.len() == SESSION_ID_LENGTH by {
                if i < registry.sessions.len() {
                    assert(after.sessions[i].id@.len() == registry.sessions[i].id@.len()
                        || after.sessions[i].id == fresh_id);
                }
            }
        },
    }
}

/// Two producers that register in turn are answered with different ids,
/// provided the id minted for the second is not on record: the first
/// producer's session is attached, so the second can neither resume it nor be
/// given its id.
pub proof fn lemma_registrations_get_distinct_ids(
    registry: RegistryView,
    first: RegisterPayload,
    first_sender: Sender<ServiceToAppMessage>,
    first_id: String,
    first_now: Timestamp,
    second: RegisterPayload,
    second_id: String,
)
    requires
        registry.wf(),
        !registry.registered(first, first_sender, first_id, first_now).has_session(second_id@),
    ensures
        registry.registration_id(first, first_id)@ != registry.registered(
            first,
            first_sender,
            first_id,
            first_now,
        ).registration_id(second, second_id)@,
{
    let after = registry.registered(first, first_sender, first_id, first_now);
    let answered = registry.registration_id(first, first_id);
    lemma_registration_records_its_session(registry, first, first_sender, first_id, first_now);
    lemma_has_session(after, answered@);
    let at = after.index_of(answered@);
    match after.first_resumable(second.device.device_id@, second.package_name@) {
        Some(index) => {
            lemma_first_resumable_exists(
                after,
                second.device.device_id@,
                second.package_name@,
                choose|i: int|
                    after.is_first_resumable(second.device.device_id@, second.package_name@, i),
            );
            assert(after.sessions[index].ended_at is Some);
            assert(index != at);
        },
        None => {},
    }
}

} // verus!
