use androidoscopy::protocol::{
    ActionResultPayload, AppMessage, DeviceInfo, LogLevel, LogPayload, RegisterPayload,
    ValidationError, MAX_LOG_MESSAGE_SIZE, MAX_LOG_THROWABLE_SIZE, MAX_MESSAGE_SIZE,
};
use androidoscopy::time::Timestamp;

fn log_message(message: String, throwable: Option<String>) -> AppMessage {
    AppMessage::Log {
        timestamp: Timestamp::now(),
        session_id: "session-123".to_string(),
        payload: LogPayload { level: LogLevel::Error, tag: None, message, throwable },
    }
}

#[test]
fn test_validate_log_message_too_large() {
    let large_message = "x".repeat(MAX_LOG_MESSAGE_SIZE + 1);
    let msg = AppMessage::Log {
        timestamp: Timestamp::now(),
        session_id: "session-123".to_string(),
        payload: LogPayload {
            level: LogLevel::Error,
            tag: None,
            message: large_message,
            throwable: None,
        },
    };

    assert_eq!(msg.validate(), Err(ValidationError::LogMessageTooLarge));
}

#[test]
fn test_validate_log_throwable_too_large() {
    let large_throwable = "x".repeat(MAX_LOG_THROWABLE_SIZE + 1);
    let msg = AppMessage::Log {
        timestamp: Timestamp::now(),
        session_id: "session-123".to_string(),
        payload: LogPayload {
            level: LogLevel::Error,
            tag: None,
            message: "Error".to_string(),
            throwable: Some(large_throwable),
        },
    };

    assert_eq!(msg.validate(), Err(ValidationError::LogThrowableTooLarge));
}

#[test]
fn size_limits_are_the_documented_ones() {
    assert_eq!(MAX_MESSAGE_SIZE, 1024 * 1024);
    assert_eq!(MAX_LOG_MESSAGE_SIZE, 64 * 1024);
    assert_eq!(MAX_LOG_THROWABLE_SIZE, 256 * 1024);
}

#[test]
fn log_message_of_exactly_the_limit_is_accepted() {
    let msg = log_message("x".repeat(64 * 1024), None);
    assert_eq!(msg.validate(), Ok(()));
}

#[test]
fn log_message_one_byte_over_the_limit_is_rejected() {
    let msg = log_message("x".repeat(64 * 1024 + 1), None);
    assert_eq!(msg.validate(), Err(ValidationError::LogMessageTooLarge));
}

#[test]
fn log_throwable_of_exactly_the_limit_is_accepted() {
    let msg = log_message("Error".to_string(), Some("x".repeat(256 * 1024)));
    assert_eq!(msg.validate(), Ok(()));
}

#[test]
fn log_throwable_one_byte_over_the_limit_is_rejected() {
    let msg = log_message("Error".to_string(), Some("x".repeat(256 * 1024 + 1)));
    assert_eq!(msg.validate(), Err(ValidationError::LogThrowableTooLarge));
}

#[test]
fn log_limits_count_bytes_not_characters() {
    // 'é' takes two bytes: 32 Ki of them fill the limit, one more breaks it.
    let at_limit = log_message("é".repeat(32 * 1024), None);
    assert_eq!(at_limit.validate(), Ok(()));
    let over = log_message("é".repeat(32 * 1024 + 1), None);
    assert_eq!(over.validate(), Err(ValidationError::LogMessageTooLarge));
}

#[test]
fn oversized_message_is_reported_before_oversized_throwable() {
    let msg = log_message("x".repeat(64 * 1024 + 1), Some("x".repeat(256 * 1024 + 1)));
    assert_eq!(msg.validate(), Err(ValidationError::LogMessageTooLarge));
}

#[test]
fn only_log_messages_can_fail_validation() {
    let big = "x".repeat(64 * 1024 + 1);
    let data = AppMessage::Data {
        timestamp: Timestamp::now(),
        session_id: big.clone(),
        payload: serde_json::Value::String("x".repeat(300 * 1024)),
    };
    assert_eq!(data.validate(), Ok(()));

    let result = AppMessage::ActionResult {
        timestamp: Timestamp::now(),
        session_id: "s".to_string(),
        payload: ActionResultPayload {
            action_id: "a".to_string(),
            success: false,
            message: Some("x".repeat(300 * 1024)),
            data: None,
        },
    };
    assert_eq!(result.validate(), Ok(()));

    let register = AppMessage::Register {
        timestamp: Timestamp::now(),
        payload: RegisterPayload {
            protocol_version: "1.0".to_string(),
            app_name: big,
            package_name: "com.test.app".to_string(),
            version_name: "1.0.0".to_string(),
            device: DeviceInfo {
                device_id: "abc123".to_string(),
                manufacturer: "Google".to_string(),
                model: "Pixel 5".to_string(),
                android_version: "13".to_string(),
                api_level: 33,
                is_emulator: false,
            },
            dashboard: serde_json::Value::Null,
        },
    };
    assert_eq!(register.validate(), Ok(()));
}

#[test]
fn validation_errors_render_their_limits() {
    assert_eq!(
        ValidationError::LogMessageTooLarge.message(),
        "Log message exceeds maximum size of 65536 bytes"
    );
    assert_eq!(
        ValidationError::LogThrowableTooLarge.message(),
        "Log throwable exceeds maximum size of 262144 bytes"
    );
}

#[test]
fn copies_of_messages_hold_the_same_fields() {
    let mut tree = serde_json::Map::new();
    tree.insert("value".to_string(), serde_json::Value::from(42));
    let msg = AppMessage::Data {
        timestamp: Timestamp::from_millis(1_733_149_800_000),
        session_id: "session-1".to_string(),
        payload: serde_json::Value::Object(tree),
    };
    match msg.clone() {
        AppMessage::Data { timestamp, session_id, payload } => {
            assert_eq!(timestamp, Timestamp::from_millis(1_733_149_800_000));
            assert_eq!(session_id, "session-1");
            assert_eq!(payload["value"], 42);
        }
        _ => panic!("Expected Data message"),
    }
}

#[test]
fn log_levels_go_by_their_upper_case_names() {
    let levels = [
        (LogLevel::Verbose, "VERBOSE"),
        (LogLevel::Debug, "DEBUG"),
        (LogLevel::Info, "INFO"),
        (LogLevel::Warn, "WARN"),
        (LogLevel::Error, "ERROR"),
    ];
    for (level, name) in levels {
        assert_eq!(level.name(), name);
        assert_eq!(LogLevel::from_name(name), Some(level));
    }
    assert_eq!(LogLevel::from_name("error"), None);
    assert_eq!(LogLevel::from_name("FATAL"), None);
    assert_eq!(LogLevel::from_name(""), None);
}
