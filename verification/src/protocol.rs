//! The wire message algebra.
//!
//! Four families of messages cross the broker:
//!
//! ```text
//! producer -> broker    AppMessage                 REGISTER, DATA, LOG, ACTION_RESULT
//! broker   -> producer  ServiceToAppMessage        REGISTERED, ACTION, ERROR
//! broker   -> consumer  ServiceToDashboardMessage  SYNC, SESSION_STARTED, SESSION_RESUMED,
//!                                                  SESSION_DATA, SESSION_LOG, SESSION_ENDED,
//!                                                  ACTION_RESULT
//! consumer -> broker    DashboardToServiceMessage  ACTION
//! ```
//!
//! The types here are the messages as values. Turning a text frame into one of
//! them, and back, is the transport's business.

use crate::text::same_text;
use crate::time::Timestamp;
use serde_json::Value;
use vstd::prelude::*;
use vstd::string::StringSliceAdditionalSpecFns;

verus! {

// === Producer -> broker ===

/// Messages sent by a producer.
#[derive(Debug)]
#[allow(inconsistent_fields)]
pub enum AppMessage {
    Register { timestamp: Timestamp, payload: RegisterPayload },
    Data { timestamp: Timestamp, session_id: String, payload: Value },
    Log { timestamp: Timestamp, session_id: String, payload: LogPayload },
    ActionResult { timestamp: Timestamp, session_id: String, payload: ActionResultPayload },
}

/// What a producer says of itself when it registers.
#[derive(Debug)]
pub struct RegisterPayload {
    pub protocol_version: String,
    pub app_name: String,
    pub package_name: String,
    pub version_name: String,
    pub device: DeviceInfo,
    pub dashboard: Value,
}

/// The device a producer runs on.
#[derive(Debug)]
pub struct DeviceInfo {
    pub device_id: String,
    pub manufacturer: String,
    pub model: String,
    pub android_version: String,
    pub api_level: i32,
    pub is_emulator: bool,
}

/// One log record as a producer sends it.
#[derive(Debug)]
pub struct LogPayload {
    pub level: LogLevel,
    pub tag: Option<String>,
    pub message: String,
    pub throwable: Option<String>,
}

/// The severity of a log record.
#[derive(Debug, Clone, Copy, PartialEq, Eq, Structural)]
pub enum LogLevel {
    Verbose,
    Debug,
    Info,
    Warn,
    Error,
}

/// A producer's answer to an action.
#[derive(Debug)]
pub struct ActionResultPayload {
    pub action_id: String,
    pub success: bool,
    pub message: Option<String>,
    pub data: Option<Value>,
}

// === Broker -> producer ===

/// Messages sent to a producer.
#[derive(Debug)]
#[allow(inconsistent_fields)]
pub enum ServiceToAppMessage {
    Registered { timestamp: Timestamp, payload: RegisteredPayload },
    Action { timestamp: Timestamp, session_id: String, payload: ActionPayload },
    Error { timestamp: Timestamp, payload: ErrorPayload },
}

/// The answer to a registration: the id of the session.
#[derive(Debug)]
pub struct RegisteredPayload {
    pub session_id: String,
}

/// An action that a consumer asks a producer to perform.
#[derive(Debug)]
pub struct ActionPayload {
    pub action_id: String,
    pub action: String,
    pub args: Option<Value>,
}

/// A protocol error reported to a producer.
#[derive(Debug)]
pub struct ErrorPayload {
    pub code: String,
    pub message: String,
}

// === Broker <-> consumer ===

/// Messages sent to a consumer.
#[derive(Debug)]
#[allow(inconsistent_fields)]
pub enum ServiceToDashboardMessage {
    Sync { payload: SyncPayload },
    SessionStarted { payload: SessionStartedPayload },
    SessionResumed { payload: SessionStartedPayload },
    SessionData { timestamp: Timestamp, payload: SessionDataPayload },
    SessionLog { timestamp: Timestamp, payload: SessionLogPayload },
    SessionEnded { timestamp: Timestamp, payload: SessionEndedPayload },
    ActionResult { timestamp: Timestamp, payload: ActionResultToDashboardPayload },
}

/// The session that started or resumed.
#[derive(Debug)]
pub struct SessionStartedPayload {
    pub session: SessionInfo,
}

/// A sample and the session it belongs to.
#[derive(Debug)]
pub struct SessionDataPayload {
    pub session_id: String,
    pub data: Value,
}

/// A log entry and the session it belongs to.
#[derive(Debug)]
pub struct SessionLogPayload {
    pub session_id: String,
    pub log: LogEntry,
}

/// The session that ended.
#[derive(Debug)]
pub struct SessionEndedPayload {
    pub session_id: String,
}

/// A producer's answer to an action, and the session it came from.
#[derive(Debug)]
pub struct ActionResultToDashboardPayload {
    pub session_id: String,
    pub action_id: String,
    pub success: bool,
    pub message: Option<String>,
    pub data: Option<Value>,
}

/// The snapshots of the sessions whose producer is attached.
#[derive(Debug)]
pub struct SyncPayload {
    pub sessions: Vec<SessionInfo>,
}

/// The snapshot of one session that consumers are shown.
#[derive(Debug)]
pub struct SessionInfo {
    pub session_id: String,
    pub app_name: String,
    pub package_name: String,
    pub version_name: String,
    pub device: DeviceInfo,
    pub dashboard: Value,
    pub started_at: Timestamp,
    pub latest_data: Option<Value>,
    pub recent_logs: Vec<LogEntry>,
}

/// One log record as consumers are shown it.
#[derive(Debug)]
pub struct LogEntry {
    pub timestamp: Timestamp,
    pub level: LogLevel,
    pub tag: Option<String>,
    pub message: String,
    pub throwable: Option<String>,
}

/// Messages sent by a consumer.
#[derive(Debug)]
pub enum DashboardToServiceMessage {
    Action { payload: DashboardActionPayload },
}

/// An action and the session whose producer is to perform it.
#[derive(Debug)]
pub struct DashboardActionPayload {
    pub session_id: String,
    pub action_id: String,
    pub action: String,
    pub args: Option<Value>,
}

// === Size limits, in bytes ===

/// Largest frame the transport lets through.
pub const MAX_MESSAGE_SIZE: usize = 1048576;

/// Largest `message` of a LOG.
pub const MAX_LOG_MESSAGE_SIZE: usize = 65536;

/// Largest `throwable` of a LOG.
pub const MAX_LOG_THROWABLE_SIZE: usize = 262144;

// === Validation ===

/// Why a message failed validation.
#[derive(Debug, Clone, Copy, PartialEq, Eq, Structural)]
pub enum ValidationError {
    LogMessageTooLarge,
    LogThrowableTooLarge,
}

/// Length of `text` in bytes, as UTF-8.
pub open spec fn byte_len(text: Seq<char>) -> nat {
    vstd::utf8::encode_utf8(text).len()
}

/// What validation says of a LOG payload: the message is measured before the
/// throwable.
pub open spec fn log_payload_verdict(payload: LogPayload) -> Result<(), ValidationError> {
    if byte_len(payload.message@) > MAX_LOG_MESSAGE_SIZE {
        Err(ValidationError::LogMessageTooLarge)
    } else if payload.throwable matches Some(throwable) && byte_len(throwable@)
        > MAX_LOG_THROWABLE_SIZE {
        Err(ValidationError::LogThrowableTooLarge)
    } else {
        Ok(())
    }
}

impl AppMessage {
    /// What validation says of a message: only a LOG can fail it.
    pub open spec fn verdict(self) -> Result<(), ValidationError> {
        match self {
            AppMessage::Log { payload, .. } => log_payload_verdict(payload),
            _ => Ok(()),
        }
    }

    /// The session a message claims to belong to; a REGISTER names none.
    pub open spec fn claimed_session(self) -> Option<String> {
        match self {
            AppMessage::Register { .. } => None,
            AppMessage::Data { session_id, .. } => Some(session_id),
            AppMessage::Log { session_id, .. } => Some(session_id),
            AppMessage::ActionResult { session_id, .. } => Some(session_id),
        }
    }

    /// Checks the size limits on a LOG's fields.
    pub fn validate(&self) -> (verdict: Result<(), ValidationError>)
        ensures
            verdict == self.verdict(),
    {
        match self {
            AppMessage::Log { payload, .. } => {
                if payload.message.as_str().as_bytes().len() > MAX_LOG_MESSAGE_SIZE {
                    return Err(ValidationError::LogMessageTooLarge);
                }
                if let Some(throwable) = &payload.throwable {
                    if throwable.as_str().as_bytes().len() > MAX_LOG_THROWABLE_SIZE {
                        return Err(ValidationError::LogThrowableTooLarge);
                    }
                }
                Ok(())
            },
            _ => Ok(()),
        }
    }
}

impl ValidationError {
    /// The text shown for this error.
    pub open spec fn text(self) -> Seq<char> {
        match self {
            ValidationError::LogMessageTooLarge => "Log message exceeds maximum size of 65536 bytes"@,
            ValidationError::LogThrowableTooLarge => "Log throwable exceeds maximum size of 262144 bytes"@,
        }
    }

    /// Renders the error for a log line.
    pub fn message(&self) -> (rendered: String)
        ensures
            rendered@ == self.text(),
    {
        match self {
            ValidationError::LogMessageTooLarge => "Log message exceeds maximum size of 65536 bytes".to_owned(),
            ValidationError::LogThrowableTooLarge => "Log throwable exceeds maximum size of 262144 bytes".to_owned(),
        }
    }
}

// === Copies ===
//
// A copy of a message is the same message. Where a message holds a list, that
// is said of its view, which holds the list's elements.

impl Clone for DeviceInfo {
    fn clone(&self) -> (copy: Self)
        ensures
            copy == *self,
    {
        DeviceInfo {
            device_id: self.device_id.clone(),
            manufacturer: self.manufacturer.clone(),
            model: self.model.clone(),
            android_version: self.android_version.clone(),
            api_level: self.api_level,
            is_emulator: self.is_emulator,
        }
    }
}

impl Clone for RegisterPayload {
    fn clone(&self) -> (copy: Self)
        ensures
            copy == *self,
    {
        RegisterPayload {
            protocol_version: self.protocol_version.clone(),
            app_name: self.app_name.clone(),
            package_name: self.package_name.clone(),
            version_name: self.version_name.clone(),
            device: self.device.clone(),
            dashboard: self.dashboard.clone(),
        }
    }
}

impl Clone for LogPayload {
    fn clone(&self) -> (copy: Self)
        ensures
            copy == *self,
    {
        LogPayload {
            level: self.level,
            tag: self.tag.clone(),
            message: self.message.clone(),
            throwable: self.throwable.clone(),
        }
    }
}

impl Clone for ActionResultPayload {
    fn clone(&self) -> (copy: Self)
        ensures
            copy == *self,
    {
        ActionResultPayload {
            action_id: self.action_id.clone(),
            success: self.success,
            message: self.message.clone(),
            data: self.data.clone(),
        }
    }
}

impl Clone for AppMessage {
    fn clone(&self) -> (copy: Self)
        ensures
            copy == *self,
    {
        match self {
            AppMessage::Register { timestamp, payload } => AppMessage::Register {
                timestamp: *timestamp,
                payload: payload.clone(),
            },
            AppMessage::Data { timestamp, session_id, payload } => AppMessage::Data {
                timestamp: *timestamp,
                session_id: session_id.clone(),
                payload: payload.clone(),
            },
            AppMessage::Log { timestamp, session_id, payload } => AppMessage::Log {
                timestamp: *timestamp,
                session_id: session_id.clone(),
                payload: payload.clone(),
            },
            AppMessage::ActionResult { timestamp, session_id, payload } => AppMessage::ActionResult {
                timestamp: *timestamp,
                session_id: session_id.clone(),
                payload: payload.clone(),
            },
        }
    }
}

impl Clone for RegisteredPayload {
    fn clone(&self) -> (copy: Self)
        ensures
            copy == *self,
    {
        RegisteredPayload { session_id: self.session_id.clone() }
    }
}

impl Clone for ActionPayload {
    fn clone(&self) -> (copy: Self)
        ensures
            copy == *self,
    {
        ActionPayload {
            action_id: self.action_id.clone(),
            action: self.action.clone(),
            args: self.args.clone(),
        }
    }
}

impl Clone for ErrorPayload {
    fn clone(&self) -> (copy: Self)
        ensures
            copy == *self,
    {
        ErrorPayload { code: self.code.clone(), message: self.message.clone() }
    }
}

impl Clone for ServiceToAppMessage {
    fn clone(&self) -> (copy: Self)
        ensures
            copy == *self,
    {
        match self {
            ServiceToAppMessage::Registered { timestamp, payload } => ServiceToAppMessage::Registered {
                timestamp: *timestamp,
                payload: payload.clone(),
            },
            ServiceToAppMessage::Action { timestamp, session_id, payload } => ServiceToAppMessage::Action {
                timestamp: *timestamp,
                session_id: session_id.clone(),
                payload: payload.clone(),
            },
            ServiceToAppMessage::Error { timestamp, payload } => ServiceToAppMessage::Error {
                timestamp: *timestamp,
                payload: payload.clone(),
            },
        }
    }
}

impl Clone for LogEntry {
    fn clone(&self) -> (copy: Self)
        ensures
            copy == *self,
    {
        LogEntry {
            timestamp: self.timestamp,
            level: self.level,
            tag: self.tag.clone(),
            message: self.message.clone(),
            throwable: self.throwable.clone(),
        }
    }
}

impl Clone for SessionDataPayload {
    fn clone(&self) -> (copy: Self)
        ensures
            copy == *self,
    {
        SessionDataPayload { session_id: self.session_id.clone(), data: self.data.clone() }
    }
}

impl Clone for SessionLogPayload {
    fn clone(&self) -> (copy: Self)
        ensures
            copy == *self,
    {
        SessionLogPayload { session_id: self.session_id.clone(), log: self.log.clone() }
    }
}

impl Clone for SessionEndedPayload {
    fn clone(&self) -> (copy: Self)
        ensures
            copy == *self,
    {
        SessionEndedPayload { session_id: self.session_id.clone() }
    }
}

impl Clone for ActionResultToDashboardPayload {
    fn clone(&self) -> (copy: Self)
        ensures
            copy == *self,
    {
        ActionResultToDashboardPayload {
            session_id: self.session_id.clone(),
            action_id: self.action_id.clone(),
            success: self.success,
            message: self.message.clone(),
            data: self.data.clone(),
        }
    }
}

impl Clone for DashboardActionPayload {
    fn clone(&self) -> (copy: Self)
        ensures
            copy == *self,
    {
        DashboardActionPayload {
            session_id: self.session_id.clone(),
            action_id: self.action_id.clone(),
            action: self.action.clone(),
            args: self.args.clone(),
        }
    }
}

impl Clone for DashboardToServiceMessage {
    fn clone(&self) -> (copy: Self)
        ensures
            copy == *self,
    {
        match self {
            DashboardToServiceMessage::Action { payload } => DashboardToServiceMessage::Action {
                payload: payload.clone(),
            },
        }
    }
}

// === Views of the messages that hold lists ===

/// A session snapshot, with its log list as a sequence.
pub struct SessionInfoView {
    pub session_id: String,
    pub app_name: String,
    pub package_name: String,
    pub version_name: String,
    pub device: DeviceInfo,
    pub dashboard: Value,
    pub started_at: Timestamp,
    pub latest_data: Option<Value>,
    pub recent_logs: Seq<LogEntry>,
}

impl View for SessionInfo {
    type V = SessionInfoView;

    open spec fn view(&self) -> SessionInfoView {
        SessionInfoView {
            session_id: self.session_id,
            app_name: self.app_name,
            package_name: self.package_name,
            version_name: self.version_name,
            device: self.device,
            dashboard: self.dashboard,
            started_at: self.started_at,
            latest_data: self.latest_data,
            recent_logs: self.recent_logs@,
        }
    }
}

/// The snapshots in `sessions`, in order.
pub open spec fn session_info_views(sessions: Seq<SessionInfo>) -> Seq<SessionInfoView> {
    Seq::new(sessions.len(), |i: int| sessions[i]@)
}

/// A consumer-bound message, with the lists inside it as sequences.
pub enum DashboardMessageView {
    Sync { sessions: Seq<SessionInfoView> },
    SessionStarted { session: SessionInfoView },
    SessionResumed { session: SessionInfoView },
    SessionData { timestamp: Timestamp, data: SessionDataPayload },
    SessionLog { timestamp: Timestamp, log: SessionLogPayload },
    SessionEnded { timestamp: Timestamp, ended: SessionEndedPayload },
    ActionResult { timestamp: Timestamp, result: ActionResultToDashboardPayload },
}

impl View for ServiceToDashboardMessage {
    type V = DashboardMessageView;

    open spec fn view(&self) -> DashboardMessageView {
        match *self {
            ServiceToDashboardMessage::Sync { payload } => DashboardMessageView::Sync {
                sessions: session_info_views(payload.sessions@),
            },
            ServiceToDashboardMessage::SessionStarted { payload } => DashboardMessageView::SessionStarted {
                session: payload.session@,
            },
            ServiceToDashboardMessage::SessionResumed { payload } => DashboardMessageView::SessionResumed {
                session: payload.session@,
            },
            ServiceToDashboardMessage::SessionData { timestamp, payload } => DashboardMessageView::SessionData {
                timestamp,
                data: payload,
            },
            ServiceToDashboardMessage::SessionLog { timestamp, payload } => DashboardMessageView::SessionLog {
                timestamp,
                log: payload,
            },
            ServiceToDashboardMessage::SessionEnded { timestamp, payload } => DashboardMessageView::SessionEnded {
                timestamp,
                ended: payload,
            },
            ServiceToDashboardMessage::ActionResult { timestamp, payload } => DashboardMessageView::ActionResult {
                timestamp,
                result: payload,
            },
        }
    }
}

impl Clone for SessionInfo {
    fn clone(&self) -> (copy: Self)
        ensures
            copy@ == self@,
    {
        let recent_logs = self.recent_logs.clone();
        assert(recent_logs@ =~= self.recent_logs@);
        SessionInfo {
            session_id: self.session_id.clone(),
            app_name: self.app_name.clone(),
            package_name: self.package_name.clone(),
            version_name: self.version_name.clone(),
            device: self.device.clone(),
            dashboard: self.dashboard.clone(),
            started_at: self.started_at,
            latest_data: self.latest_data.clone(),
            recent_logs,
        }
    }
}

impl Clone for SessionStartedPayload {
    fn clone(&self) -> (copy: Self)
        ensures
            copy.session@ == self.session@,
    {
        SessionStartedPayload { session: self.session.clone() }
    }
}

impl Clone for SyncPayload {
    fn clone(&self) -> (copy: Self)
        ensures
            session_info_views(copy.sessions@) == session_info_views(self.sessions@),
    {
        let sessions = self.sessions.clone();
        assert(session_info_views(sessions@) =~= session_info_views(self.sessions@));
        SyncPayload { sessions }
    }
}

impl Clone for ServiceToDashboardMessage {
    fn clone(&self) -> (copy: Self)
        ensures
            copy@ == self@,
    {
        match self {
            ServiceToDashboardMessage::Sync { payload } => ServiceToDashboardMessage::Sync {
                payload: payload.clone(),
            },
            ServiceToDashboardMessage::SessionStarted { payload } => ServiceToDashboardMessage::SessionStarted {
                payload: payload.clone(),
            },
            ServiceToDashboardMessage::SessionResumed { payload } => ServiceToDashboardMessage::SessionResumed {
                payload: payload.clone(),
            },
            ServiceToDashboardMessage::SessionData { timestamp, payload } => ServiceToDashboardMessage::SessionData {
                timestamp: *timestamp,
                payload: payload.clone(),
            },
            ServiceToDashboardMessage::SessionLog { timestamp, payload } => ServiceToDashboardMessage::SessionLog {
                timestamp: *timestamp,
                payload: payload.clone(),
            },
            ServiceToDashboardMessage::SessionEnded { timestamp, payload } => ServiceToDashboardMessage::SessionEnded {
                timestamp: *timestamp,
                payload: payload.clone(),
            },
            ServiceToDashboardMessage::ActionResult { timestamp, payload } => ServiceToDashboardMessage::ActionResult {
                timestamp: *timestamp,
                payload: payload.clone(),
            },
        }
    }
}

impl LogLevel {
    /// The level's name on the wire.
    pub open spec fn name_text(self) -> Seq<char> {
        match self {
            LogLevel::Verbose => "VERBOSE"@,
            LogLevel::Debug => "DEBUG"@,
            LogLevel::Info => "INFO"@,
            LogLevel::Warn => "WARN"@,
            LogLevel::Error => "ERROR"@,
        }
    }

    /// The level's name on the wire.
    pub fn name(&self) -> (name: &'static str)
        ensures
            name@ == self.name_text(),
    {
        match self {
            LogLevel::Verbose => "VERBOSE",
            LogLevel::Debug => "DEBUG",
            LogLevel::Info => "INFO",
            LogLevel::Warn => "WARN",
            LogLevel::Error => "ERROR",
        }
    }

    /// The level that `name` names on the wire, if it names one.
    pub fn from_name(name: &str) -> (level: Option<LogLevel>)
        ensures
            match level {
                Some(level) => level.name_text() == name@,
                None => forall|level: LogLevel| level.name_text() != name@,
            },
    {
        if same_text(name, "VERBOSE") {
            Some(LogLevel::Verbose)
        } else if same_text(name, "DEBUG") {
            Some(LogLevel::Debug)
        } else if same_text(name, "INFO") {
            Some(LogLevel::Info)
        } else if same_text(name, "WARN") {
            Some(LogLevel::Warn)
        } else if same_text(name, "ERROR") {
            Some(LogLevel::Error)
        } else {
            None
        }
    }
}

} // verus!
