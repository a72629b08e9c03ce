use androidoscopy::mock_app::{
    action_result_message, data_message, first_action, log_message, register_message,
    registered_session_id,
};
use androidoscopy::protocol::{
    ActionPayload, AppMessage, ErrorPayload, LogLevel, RegisteredPayload, ServiceToAppMessage,
};
use androidoscopy::time::Timestamp;
use serde_json::Value;

fn action(action_id: &str) -> ServiceToAppMessage {
    ServiceToAppMessage::Action {
        timestamp: Timestamp::from_millis(1),
        session_id: "s".to_string(),
        payload: ActionPayload {
            action_id: action_id.to_string(),
            action: "clear_cache".to_string(),
            args: None,
        },
    }
}

fn registered(session_id: &str) -> ServiceToAppMessage {
    ServiceToAppMessage::Registered {
        timestamp: Timestamp::from_millis(1),
        payload: RegisteredPayload { session_id: session_id.to_string() },
    }
}

fn error() -> ServiceToAppMessage {
    ServiceToAppMessage::Error {
        timestamp: Timestamp::from_millis(1),
        payload: ErrorPayload { code: "E".to_string(), message: "failed".to_string() },
    }
}

#[test]
fn register_message_describes_an_emulated_test_device() {
    let message = register_message(
        Timestamp::from_millis(5),
        "Test App",
        "com.test.app",
        "device-1".to_string(),
        Value::from("schema"),
    );
    match message {
        AppMessage::Register { timestamp, payload } => {
            assert_eq!(timestamp, Timestamp::from_millis(5));
            assert_eq!(payload.protocol_version, "1.0");
            assert_eq!(payload.app_name, "Test App");
            assert_eq!(payload.package_name, "com.test.app");
            assert_eq!(payload.version_name, "1.0.0");
            assert_eq!(payload.device.device_id, "device-1");
            assert_eq!(payload.device.manufacturer, "TestManufacturer");
            assert_eq!(payload.device.model, "TestModel");
            assert_eq!(payload.device.android_version, "14");
            assert_eq!(payload.device.api_level, 34);
            assert!(payload.device.is_emulator);
            assert_eq!(payload.dashboard, Value::from("schema"));
        }
        other => panic!("Expected Register message, got {:?}", other),
    }
}

#[test]
fn nothing_is_sent_before_registration() {
    assert!(data_message(None, Timestamp::from_millis(1), Value::from(42)).is_none());
    assert!(log_message(None, Timestamp::from_millis(1), LogLevel::Info, None, "x".to_string())
        .is_none());
    assert!(action_result_message(None, Timestamp::from_millis(1), "a".to_string(), true, None)
        .is_none());
}

#[test]
fn messages_carry_the_session_they_are_sent_for() {
    match data_message(Some("session-1".to_string()), Timestamp::from_millis(2), Value::from(42)) {
        Some(AppMessage::Data { timestamp, session_id, payload }) => {
            assert_eq!(timestamp, Timestamp::from_millis(2));
            assert_eq!(session_id, "session-1");
            assert_eq!(payload, Value::from(42));
        }
        other => panic!("Expected Data message, got {:?}", other),
    }
    match log_message(
        Some("session-1".to_string()),
        Timestamp::from_millis(3),
        LogLevel::Error,
        Some("NetworkClient".to_string()),
        "Connection timeout".to_string(),
    ) {
        Some(AppMessage::Log { timestamp, session_id, payload }) => {
            assert_eq!(timestamp, Timestamp::from_millis(3));
            assert_eq!(session_id, "session-1");
            assert_eq!(payload.level, LogLevel::Error);
            assert_eq!(payload.tag, Some("NetworkClient".to_string()));
            assert_eq!(payload.message, "Connection timeout");
            assert_eq!(payload.throwable, None);
        }
        other => panic!("Expected Log message, got {:?}", other),
    }
    match action_result_message(
        Some("session-1".to_string()),
        Timestamp::from_millis(4),
        "a1".to_string(),
        true,
        Some("Cache cleared successfully".to_string()),
    ) {
        Some(AppMessage::ActionResult { timestamp, session_id, payload }) => {
            assert_eq!(timestamp, Timestamp::from_millis(4));
            assert_eq!(session_id, "session-1");
            assert_eq!(payload.action_id, "a1");
            assert!(payload.success);
            assert_eq!(payload.message, Some("Cache cleared successfully".to_string()));
            assert_eq!(payload.data, None);
        }
        other => panic!("Expected ActionResult message, got {:?}", other),
    }
}

#[test]
fn only_a_registered_message_assigns_a_session() {
    assert_eq!(registered_session_id(&registered("session-456")), Some("session-456".to_string()));
    assert_eq!(registered_session_id(&action("a1")), None);
    assert_eq!(registered_session_id(&error()), None);
}

#[test]
fn first_action_is_the_earliest_action_received() {
    assert!(first_action(&Vec::new()).is_none());
    assert!(first_action(&vec![registered("s"), error()]).is_none());
    let found = first_action(&vec![registered("s"), action("a1"), error(), action("a2")]).unwrap();
    assert_eq!(found.action_id, "a1");
    assert_eq!(found.action, "clear_cache");
    let found = first_action(&vec![action("a3")]).unwrap();
    assert_eq!(found.action_id, "a3");
}
