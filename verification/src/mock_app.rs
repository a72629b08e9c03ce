//! What a stand-in for an instrumented app says to the broker, and what it
//! reads from the broker's answers.

use crate::protocol::{
    ActionPayload, ActionResultPayload, AppMessage, DeviceInfo, LogLevel, LogPayload,
    RegisterPayload, ServiceToAppMessage,
};
use crate::time::Timestamp;
use serde_json::Value;
use vstd::prelude::*;

verus! {

/// The REGISTER of a stand-in app: an emulated test device with the given id,
/// version 1.0.0 of the app, protocol 1.0.
pub fn register_message(
    timestamp: Timestamp,
    app_name: &str,
    package_name: &str,
    device_id: String,
    dashboard: Value,
) -> (message: AppMessage)
    ensures
        message matches AppMessage::Register { timestamp: at, payload } && {
            &&& at == timestamp
            &&& payload.protocol_version@ == "1.0"@
            &&& payload.app_name@ == app_name@
            &&& payload.package_name@ == package_name@
            &&& payload.version_name@ == "1.0.0"@
            &&& payload.device.device_id == device_id
            &&& payload.device.manufacturer@ == "TestManufacturer"@
            &&& payload.device.model@ == "TestModel"@
            &&& payload.device.android_version@ == "14"@
            &&& payload.device.api_level == 34
            &&& payload.device.is_emulator
            &&& payload.dashboard == dashboard
        },
{
    AppMessage::Register {
        timestamp,
        payload: RegisterPayload {
            protocol_version: "1.0".to_owned(),
            app_name: app_name.to_owned(),
            package_name: package_name.to_owned(),
            version_name: "1.0.0".to_owned(),
            device: DeviceInfo {
                device_id,
                manufacturer: "TestManufacturer".to_owned(),
                model: "TestModel".to_owned(),
                android_version: "14".to_owned(),
                api_level: 34,
                is_emulator: true,
            },
            dashboard,
        },
    }
}

/// A DATA for the session, or nothing before registration.
pub fn data_message(session_id: Option<String>, timestamp: Timestamp, data: Value) -> (message: Option<
    AppMessage,
>)
    ensures
        message == match session_id {
            Some(session_id) => Some(AppMessage::Data { timestamp, session_id, payload: data }),
            None => None,
        },
{
    match session_id {
        Some(session_id) => Some(AppMessage::Data { timestamp, session_id, payload: data }),
        None => None,
    }
}

/// A LOG for the session, without a throwable, or nothing before
/// registration.
pub fn log_message(
    session_id: Option<String>,
    timestamp: Timestamp,
    level: LogLevel,
    tag: Option<String>,
    message: String,
) -> (log: Option<AppMessage>)
    ensures
        log == match session_id {
            Some(session_id) => Some(
                AppMessage::Log {
                    timestamp,
                    session_id,
                    payload: LogPayload { level, tag, message, throwable: None },
                },
            ),
            None => None,
        },
{
    match session_id {
        Some(session_id) => Some(
            AppMessage::Log {
                timestamp,
                session_id,
                payload: LogPayload { level, tag, message, throwable: None },
            },
        ),
        None => None,
    }
}

/// An ACTION_RESULT for the session, without data, or nothing before
/// registration.
pub fn action_result_message(
    session_id: Option<String>,
    timestamp: Timestamp,
    action_id: String,
    success: bool,
    message: Option<String>,
) -> (result: Option<AppMessage>)
    ensures
        result == match session_id {
            Some(session_id) => Some(
                AppMessage::ActionResult {
                    timestamp,
                    session_id,
                    payload: ActionResultPayload { action_id, success, message, data: None },
                },
            ),
            None => None,
        },
{
    match session_id {
        Some(session_id) => Some(
            AppMessage::ActionResult {
                timestamp,
                session_id,
                payload: ActionResultPayload { action_id, success, message, data: None },
            },
        ),
        None => None,
    }
}

/// The session id that a message from the broker assigns, if it is a
/// REGISTERED.
pub fn registered_session_id(message: &ServiceToAppMessage) -> (session_id: Option<String>)
    ensures
        session_id == match *message {
            ServiceToAppMessage::Registered { payload, .. } => Some(payload.session_id),
            _ => None,
        },
{
    match message {
        ServiceToAppMessage::Registered { payload, .. } => Some(payload.session_id.clone()),
        _ => None,
    }
}

/// The action of `message`, if it is an ACTION.
pub open spec fn action_of(message: ServiceToAppMessage) -> Option<ActionPayload> {
    match message {
        ServiceToAppMessage::Action { payload, .. } => Some(payload),
        _ => None,
    }
}

/// The action of the first ACTION among the first `count` of `messages`.
pub open spec fn first_action_among(messages: Seq<ServiceToAppMessage>, count: int) -> Option<
    ActionPayload,
>
    decreases count,
{
    if count <= 0 {
        None
    } else {
        match first_action_among(messages, count - 1) {
            Some(action) => Some(action),
            None => action_of(messages[count - 1]),
        }
    }
}

/// The action of the first ACTION among the messages received so far.
pub fn first_action(messages: &Vec<ServiceToAppMessage>) -> (action: Option<ActionPayload>)
    ensures
        action == first_action_among(messages@, messages@.len() as int),
{
    let mut index: usize = 0;
    while index < messages.len()
        invariant
            index <= messages@.len(),
            first_action_among(messages@, index as int) is None,
        decreases messages@.len() - index,
    {
        if let ServiceToAppMessage::Action { payload, .. } = &messages[index] {
            let found = Some(payload.clone());
            proof {
                lemma_first_action_stays(messages@, index + 1, messages@.len() as int);
            }
            return found;
        }
        index = index + 1;
    }
    None
}

/// Once an ACTION is among the first messages, it stays the first as more
/// arrive.
proof fn lemma_first_action_stays(messages: Seq<ServiceToAppMessage>, count: int, more: int)
    requires
        0 <= count <= more,
        first_action_among(messages, count) is Some,
    ensures
        first_action_among(messages, more) == first_action_among(messages, count),
    decreases more - count,
{
    if count < more {
        lemma_first_action_stays(messages, count, more - 1);
    }
}

} // verus!
