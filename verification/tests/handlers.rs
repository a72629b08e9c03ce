use androidoscopy::handlers::{
    apply_app_event, apply_dashboard_event, attach_dashboard, broadcast_to_dashboards,
    fan_out_plan, feed, handle_app_event, handle_dashboard_event, perform, Attempt,
    BroadcastReport, ConsumerDispatch, ConsumerEvent, ConsumerState, FeedState,
    Disposition, DropReason, ProducerEvent, ProducerState,
};
use androidoscopy::outbox::{SendOutcome, CONSUMER_OUTBOX_CAPACITY, PRODUCER_OUTBOX_CAPACITY};
use androidoscopy::protocol::{
    ActionResultPayload, AppMessage, DashboardActionPayload, DashboardToServiceMessage,
    DeviceInfo, LogLevel, LogPayload, RegisterPayload, ServiceToAppMessage,
    ServiceToDashboardMessage, SessionEndedPayload, ValidationError,
};
use androidoscopy::session::SessionManager;
use androidoscopy::time::Timestamp;
use serde_json::Value;
use tokio::sync::mpsc::{channel, Receiver, Sender};

fn object(fields: Vec<(&str, Value)>) -> Value {
    let mut map = serde_json::Map::new();
    for (key, value) in fields {
        map.insert(key.to_string(), value);
    }
    Value::Object(map)
}

fn register_message(app_name: &str, package_name: &str, device_id: &str) -> AppMessage {
    AppMessage::Register {
        timestamp: Timestamp::from_millis(1),
        payload: RegisterPayload {
            protocol_version: "1.0".to_string(),
            app_name: app_name.to_string(),
            package_name: package_name.to_string(),
            version_name: "1.0.0".to_string(),
            device: DeviceInfo {
                device_id: device_id.to_string(),
                manufacturer: "TestManufacturer".to_string(),
                model: "TestModel".to_string(),
                android_version: "14".to_string(),
                api_level: 34,
                is_emulator: true,
            },
            dashboard: object(vec![("sections", Value::Array(vec![]))]),
        },
    }
}

fn data_message(session_id: &str, payload: Value) -> AppMessage {
    AppMessage::Data {
        timestamp: Timestamp::from_millis(2),
        session_id: session_id.to_string(),
        payload,
    }
}

fn log_message(session_id: &str, message: String) -> AppMessage {
    AppMessage::Log {
        timestamp: Timestamp::from_millis(3),
        session_id: session_id.to_string(),
        payload: LogPayload {
            level: LogLevel::Error,
            tag: Some("NetworkClient".to_string()),
            message,
            throwable: None,
        },
    }
}

fn action_message(session_id: &str, action_id: &str, action: &str, args: Option<Value>) -> ConsumerEvent {
    ConsumerEvent::Message(DashboardToServiceMessage::Action {
        payload: DashboardActionPayload {
            session_id: session_id.to_string(),
            action_id: action_id.to_string(),
            action: action.to_string(),
            args,
        },
    })
}

struct Consumer {
    tx: Sender<ServiceToDashboardMessage>,
    rx: Receiver<ServiceToDashboardMessage>,
}

fn connect_consumer(manager: &mut SessionManager) -> (Consumer, ServiceToDashboardMessage) {
    let (tx, rx) = channel(CONSUMER_OUTBOX_CAPACITY);
    let sync = attach_dashboard(manager, tx.clone());
    (Consumer { tx, rx }, sync)
}

struct Producer {
    tx: Sender<ServiceToAppMessage>,
    rx: Receiver<ServiceToAppMessage>,
    state: ProducerState,
}

fn connect_producer() -> Producer {
    let (tx, rx) = channel(PRODUCER_OUTBOX_CAPACITY);
    Producer { tx, rx, state: ProducerState::AwaitRegister }
}

fn send(manager: &mut SessionManager, producer: &mut Producer, event: ProducerEvent) -> Disposition {
    let state = std::mem::replace(&mut producer.state, ProducerState::Terminal);
    let outcome = handle_app_event(manager, state, event, &producer.tx);
    producer.state = outcome.next;
    outcome.disposition
}

fn register(manager: &mut SessionManager, producer: &mut Producer, app: &str, package: &str, device: &str) -> String {
    let disposition = send(manager, producer, ProducerEvent::Message(register_message(app, package, device)));
    assert_eq!(disposition, Disposition::Accepted);
    match &producer.state {
        ProducerState::Registered { session_id } => session_id.clone(),
        other => panic!("Expected Registered state, got {:?}", other),
    }
}

fn sync_sessions(sync: ServiceToDashboardMessage) -> Vec<androidoscopy::protocol::SessionInfo> {
    match sync {
        ServiceToDashboardMessage::Sync { payload } => payload.sessions,
        other => panic!("Expected SYNC message, got {:?}", other),
    }
}

fn established() -> (SessionManager, Producer, Consumer, String) {
    let mut manager = SessionManager::new(1000, 50000, 3600);
    let (mut consumer, _sync) = connect_consumer(&mut manager);
    let mut producer = connect_producer();
    let session_id = register(&mut manager, &mut producer, "Test App", "com.test.app", "d1");
    let _registered = producer.rx.try_recv().unwrap();
    let _started = consumer.rx.try_recv().unwrap();
    (manager, producer, consumer, session_id)
}

#[test]
fn fresh_registration_and_data_fan_out() {
    let mut manager = SessionManager::new(1000, 50000, 3600);
    let (mut consumer, sync) = connect_consumer(&mut manager);
    assert!(sync_sessions(sync).is_empty());

    let mut producer = connect_producer();
    let session_id = register(&mut manager, &mut producer, "Test App", "com.test.app", "d1");

    match producer.rx.try_recv().unwrap() {
        ServiceToAppMessage::Registered { payload, .. } => assert_eq!(payload.session_id, session_id),
        other => panic!("Expected REGISTERED message, got {:?}", other),
    }
    assert!(producer.rx.try_recv().is_err());

    match consumer.rx.try_recv().unwrap() {
        ServiceToDashboardMessage::SessionStarted { payload } => {
            assert_eq!(payload.session.app_name, "Test App");
            assert_eq!(payload.session.session_id, session_id);
            assert_eq!(payload.session.package_name, "com.test.app");
            assert_eq!(payload.session.device.device_id, "d1");
            assert!(payload.session.latest_data.is_none());
            assert!(payload.session.recent_logs.is_empty());
        }
        other => panic!("Expected SESSION_STARTED message, got {:?}", other),
    }

    let payload = object(vec![(
        "memory",
        object(vec![("heap_used", Value::from(1000000)), ("heap_max", Value::from(5000000))]),
    )]);
    let disposition = send(&mut manager, &mut producer, ProducerEvent::Message(data_message(&session_id, payload.clone())));
    assert_eq!(disposition, Disposition::Accepted);

    match consumer.rx.try_recv().unwrap() {
        ServiceToDashboardMessage::SessionData { timestamp, payload: data } => {
            assert_eq!(timestamp, Timestamp::from_millis(2));
            assert_eq!(data.session_id, session_id);
            assert_eq!(data.data["memory"]["heap_used"], 1000000);
            assert_eq!(data.data, payload);
        }
        other => panic!("Expected SESSION_DATA message, got {:?}", other),
    }
    assert!(consumer.rx.try_recv().is_err());
    assert_eq!(manager.get_session(&session_id).unwrap().get_latest_data(), Some(payload));
}

#[test]
fn log_routing() {
    let (mut manager, mut producer, mut consumer, session_id) = established();
    let disposition = send(
        &mut manager,
        &mut producer,
        ProducerEvent::Message(log_message(&session_id, "Connection timeout".to_string())),
    );
    assert_eq!(disposition, Disposition::Accepted);
    match consumer.rx.try_recv().unwrap() {
        ServiceToDashboardMessage::SessionLog { timestamp, payload } => {
            assert_eq!(timestamp, Timestamp::from_millis(3));
            assert_eq!(payload.session_id, session_id);
            assert_eq!(payload.log.timestamp, Timestamp::from_millis(3));
            assert_eq!(payload.log.level, LogLevel::Error);
            assert_eq!(payload.log.tag, Some("NetworkClient".to_string()));
            assert_eq!(payload.log.message, "Connection timeout");
            assert_eq!(payload.log.throwable, None);
        }
        other => panic!("Expected SESSION_LOG message, got {:?}", other),
    }
    let logs = manager.get_session(&session_id).unwrap().get_recent_logs();
    assert_eq!(logs.len(), 1);
    assert_eq!(logs[0].message, "Connection timeout");
}

#[test]
fn action_round_trip() {
    let (mut manager, mut producer, mut consumer, session_id) = established();
    let args = object(vec![("type", Value::from("all"))]);
    let outcome = handle_dashboard_event(
        &mut manager,
        ConsumerState::Attached,
        action_message(&session_id, "a1", "clear_cache", Some(args.clone())),
        &consumer.tx,
    );
    assert_eq!(outcome.next, ConsumerState::Attached);
    assert_eq!(outcome.disposition, Disposition::Accepted);
    assert_eq!(outcome.delivery, Some(SendOutcome::Delivered));

    match producer.rx.try_recv().unwrap() {
        ServiceToAppMessage::Action { session_id: target, payload, .. } => {
            assert_eq!(target, session_id);
            assert_eq!(payload.action_id, "a1");
            assert_eq!(payload.action, "clear_cache");
            assert_eq!(payload.args, Some(args));
        }
        other => panic!("Expected ACTION message, got {:?}", other),
    }

    let result = AppMessage::ActionResult {
        timestamp: Timestamp::from_millis(9),
        session_id: session_id.clone(),
        payload: ActionResultPayload {
            action_id: "a1".to_string(),
            success: true,
            message: Some("Cache cleared successfully".to_string()),
            data: None,
        },
    };
    assert_eq!(send(&mut manager, &mut producer, ProducerEvent::Message(result)), Disposition::Accepted);
    match consumer.rx.try_recv().unwrap() {
        ServiceToDashboardMessage::ActionResult { timestamp, payload } => {
            assert_eq!(timestamp, Timestamp::from_millis(9));
            assert_eq!(payload.session_id, session_id);
            assert_eq!(payload.action_id, "a1");
            assert!(payload.success);
            assert_eq!(payload.message, Some("Cache cleared successfully".to_string()));
            assert_eq!(payload.data, None);
        }
        other => panic!("Expected ACTION_RESULT message, got {:?}", other),
    }
}

#[test]
fn disconnect_announces_session_ended() {
    let (mut manager, mut producer, mut consumer, session_id) = established();
    let disposition = send(&mut manager, &mut producer, ProducerEvent::Closed);
    assert_eq!(disposition, Disposition::Detached);
    assert!(matches!(producer.state, ProducerState::Terminal));
    match consumer.rx.try_recv().unwrap() {
        ServiceToDashboardMessage::SessionEnded { payload: SessionEndedPayload { session_id: ended }, .. } => {
            assert_eq!(ended, session_id)
        }
        other => panic!("Expected SESSION_ENDED message, got {:?}", other),
    }
    assert!(consumer.rx.try_recv().is_err());
    let session = manager.get_session(&session_id).unwrap();
    assert!(!session.is_active());
    assert!(session.app_sender.is_none());
    assert_eq!(manager.session_count(), 1);
}

#[test]
fn late_consumer_snapshot() {
    let mut manager = SessionManager::new(1000, 50000, 3600);
    let mut producer = connect_producer();
    let session_id = register(&mut manager, &mut producer, "Test App", "com.test.app", "d1");
    send(&mut manager, &mut producer, ProducerEvent::Message(data_message(&session_id, Value::from(7))));
    send(&mut manager, &mut producer, ProducerEvent::Message(log_message(&session_id, "seen".to_string())));

    let (mut consumer, sync) = connect_consumer(&mut manager);
    let sessions = sync_sessions(sync);
    assert_eq!(sessions.len(), 1);
    assert_eq!(sessions[0].session_id, session_id);
    assert_eq!(sessions[0].app_name, "Test App");
    assert_eq!(sessions[0].latest_data, Some(Value::from(7)));
    assert_eq!(sessions[0].recent_logs.len(), 1);
    assert_eq!(sessions[0].recent_logs[0].message, "seen");
    // Nothing that went before the attachment reaches the outbox.
    assert!(consumer.rx.try_recv().is_err());
}

#[test]
fn fan_out_to_multiple_consumers() {
    let mut manager = SessionManager::new(1000, 50000, 3600);
    let (mut first, sync1) = connect_consumer(&mut manager);
    let (mut second, sync2) = connect_consumer(&mut manager);
    assert!(sync_sessions(sync1).is_empty());
    assert!(sync_sessions(sync2).is_empty());

    let mut producer1 = connect_producer();
    let mut producer2 = connect_producer();
    let session1 = register(&mut manager, &mut producer1, "App One", "com.test.app1", "d1");
    let session2 = register(&mut manager, &mut producer2, "App Two", "com.test.app2", "d2");
    assert_ne!(session1, session2);

    for consumer in [&mut first, &mut second] {
        for expected in [&session1, &session2] {
            match consumer.rx.try_recv().unwrap() {
                ServiceToDashboardMessage::SessionStarted { payload } => {
                    assert_eq!(&payload.session.session_id, expected)
                }
                other => panic!("Expected SESSION_STARTED message, got {:?}", other),
            }
        }
    }

    let payload = object(vec![("value", Value::from(1))]);
    send(&mut manager, &mut producer1, ProducerEvent::Message(data_message(&session1, payload.clone())));
    for consumer in [&mut first, &mut second] {
        match consumer.rx.try_recv().unwrap() {
            ServiceToDashboardMessage::SessionData { payload: data, .. } => {
                assert_eq!(data.session_id, session1);
                assert_eq!(data.data, payload);
            }
            other => panic!("Expected SESSION_DATA message, got {:?}", other),
        }
        assert!(consumer.rx.try_recv().is_err());
    }
}

#[test]
fn sync_lists_only_sessions_whose_producer_is_attached() {
    let mut manager = SessionManager::new(1000, 50000, 3600);
    let mut gone = connect_producer();
    let mut here = connect_producer();
    let _ended = register(&mut manager, &mut gone, "Gone", "com.gone", "d1");
    let attached = register(&mut manager, &mut here, "Here", "com.here", "d2");
    send(&mut manager, &mut gone, ProducerEvent::Closed);

    let (_consumer, sync) = connect_consumer(&mut manager);
    let sessions = sync_sessions(sync);
    assert_eq!(sessions.len(), 1);
    assert_eq!(sessions[0].session_id, attached);
}

#[test]
fn reconnecting_producer_resumes_its_session() {
    let (mut manager, mut producer, mut consumer, session_id) = established();
    send(&mut manager, &mut producer, ProducerEvent::Message(data_message(&session_id, Value::from(5))));
    send(&mut manager, &mut producer, ProducerEvent::Closed);
    let _data = consumer.rx.try_recv().unwrap();
    let _ended = consumer.rx.try_recv().unwrap();

    let mut again = connect_producer();
    let resumed_id = register(&mut manager, &mut again, "Test App", "com.test.app", "d1");
    assert_eq!(resumed_id, session_id);
    match again.rx.try_recv().unwrap() {
        ServiceToAppMessage::Registered { payload, .. } => assert_eq!(payload.session_id, session_id),
        other => panic!("Expected REGISTERED message, got {:?}", other),
    }
    match consumer.rx.try_recv().unwrap() {
        ServiceToDashboardMessage::SessionResumed { payload } => {
            assert_eq!(payload.session.session_id, session_id);
            assert_eq!(payload.session.latest_data, Some(Value::from(5)));
        }
        other => panic!("Expected SESSION_RESUMED message, got {:?}", other),
    }
    assert_eq!(manager.session_count(), 1);
    assert_eq!(manager.active_session_count(), 1);
}

#[test]
fn frames_before_registration_are_dropped() {
    let mut manager = SessionManager::new(1000, 50000, 3600);
    let (mut consumer, _sync) = connect_consumer(&mut manager);
    let mut producer = connect_producer();

    let disposition = send(&mut manager, &mut producer, ProducerEvent::Message(data_message("s", Value::Null)));
    assert_eq!(disposition, Disposition::Dropped(DropReason::RegisterExpected));
    assert!(matches!(producer.state, ProducerState::AwaitRegister));

    assert_eq!(
        send(&mut manager, &mut producer, ProducerEvent::Malformed),
        Disposition::Dropped(DropReason::ParseFailure)
    );
    assert_eq!(send(&mut manager, &mut producer, ProducerEvent::Ignored), Disposition::Ignored);
    assert!(matches!(producer.state, ProducerState::AwaitRegister));
    assert_eq!(manager.session_count(), 0);
    assert!(consumer.rx.try_recv().is_err());
    assert!(producer.rx.try_recv().is_err());
}

#[test]
fn closing_before_registration_announces_nothing() {
    let mut manager = SessionManager::new(1000, 50000, 3600);
    let (mut consumer, _sync) = connect_consumer(&mut manager);
    let mut producer = connect_producer();
    assert_eq!(send(&mut manager, &mut producer, ProducerEvent::Closed), Disposition::Detached);
    assert!(matches!(producer.state, ProducerState::Terminal));
    assert_eq!(manager.session_count(), 0);
    assert!(consumer.rx.try_recv().is_err());
}

#[test]
fn second_register_is_dropped() {
    let (mut manager, mut producer, mut consumer, session_id) = established();
    let disposition = send(
        &mut manager,
        &mut producer,
        ProducerEvent::Message(register_message("Other", "com.other", "d9")),
    );
    assert_eq!(disposition, Disposition::Dropped(DropReason::DuplicateRegister));
    match &producer.state {
        ProducerState::Registered { session_id: bound } => assert_eq!(bound, &session_id),
        other => panic!("Expected Registered state, got {:?}", other),
    }
    assert_eq!(manager.session_count(), 1);
    assert!(consumer.rx.try_recv().is_err());
    assert!(producer.rx.try_recv().is_err());
}

#[test]
fn message_for_another_session_is_dropped() {
    let (mut manager, mut producer, mut consumer, session_id) = established();
    for message in [
        data_message("someone-else", Value::from(1)),
        log_message("someone-else", "x".to_string()),
        AppMessage::ActionResult {
            timestamp: Timestamp::from_millis(1),
            session_id: "someone-else".to_string(),
            payload: ActionResultPayload {
                action_id: "a".to_string(),
                success: true,
                message: None,
                data: None,
            },
        },
    ] {
        let disposition = send(&mut manager, &mut producer, ProducerEvent::Message(message));
        assert_eq!(disposition, Disposition::Dropped(DropReason::SessionIdMismatch));
    }
    assert!(consumer.rx.try_recv().is_err());
    let session = manager.get_session(&session_id).unwrap();
    assert!(session.get_latest_data().is_none());
    assert!(session.get_recent_logs().is_empty());
}

#[test]
fn oversized_log_is_dropped_and_the_connection_stays() {
    let (mut manager, mut producer, mut consumer, session_id) = established();
    let disposition = send(
        &mut manager,
        &mut producer,
        ProducerEvent::Message(log_message(&session_id, "x".repeat(64 * 1024 + 1))),
    );
    assert_eq!(
        disposition,
        Disposition::Dropped(DropReason::ValidationFailure(ValidationError::LogMessageTooLarge))
    );
    assert!(matches!(producer.state, ProducerState::Registered { .. }));
    assert!(consumer.rx.try_recv().is_err());
    assert!(manager.get_session(&session_id).unwrap().get_recent_logs().is_empty());

    let disposition = send(
        &mut manager,
        &mut producer,
        ProducerEvent::Message(log_message(&session_id, "x".repeat(64 * 1024))),
    );
    assert_eq!(disposition, Disposition::Accepted);
    assert!(consumer.rx.try_recv().is_ok());
}

#[test]
fn a_mismatched_session_is_reported_before_an_oversized_log() {
    let (mut manager, mut producer, _consumer, _session_id) = established();
    let disposition = send(
        &mut manager,
        &mut producer,
        ProducerEvent::Message(log_message("someone-else", "x".repeat(64 * 1024 + 1))),
    );
    assert_eq!(disposition, Disposition::Dropped(DropReason::SessionIdMismatch));
}

#[test]
fn malformed_and_ignored_frames_leave_a_registered_connection_alone() {
    let (mut manager, mut producer, mut consumer, _session_id) = established();
    assert_eq!(
        send(&mut manager, &mut producer, ProducerEvent::Malformed),
        Disposition::Dropped(DropReason::ParseFailure)
    );
    assert_eq!(send(&mut manager, &mut producer, ProducerEvent::Ignored), Disposition::Ignored);
    assert!(matches!(producer.state, ProducerState::Registered { .. }));
    assert!(consumer.rx.try_recv().is_err());
}

#[test]
fn a_session_ends_once_for_each_detach() {
    let (mut manager, mut producer, mut consumer, session_id) = established();
    assert_eq!(send(&mut manager, &mut producer, ProducerEvent::Closed), Disposition::Detached);
    let ended_at = manager.get_session(&session_id).unwrap().ended_at;
    assert!(ended_at.is_some());

    // Whatever else the transport reports on the closed connection is ignored.
    assert_eq!(send(&mut manager, &mut producer, ProducerEvent::Closed), Disposition::Ignored);
    assert_eq!(
        send(&mut manager, &mut producer, ProducerEvent::Message(data_message(&session_id, Value::Null))),
        Disposition::Ignored
    );
    assert!(matches!(producer.state, ProducerState::Terminal));

    let mut ended = 0;
    while let Ok(message) = consumer.rx.try_recv() {
        if matches!(message, ServiceToDashboardMessage::SessionEnded { .. }) {
            ended += 1;
        }
    }
    assert_eq!(ended, 1);
    assert_eq!(manager.get_session(&session_id).unwrap().ended_at, ended_at);
}

#[test]
fn the_step_function_is_exact_about_clock_and_id() {
    let mut manager = SessionManager::new(1000, 50000, 3600);
    let (tx, _rx) = channel(32);
    let step = apply_app_event(
        &mut manager,
        ProducerState::AwaitRegister,
        ProducerEvent::Message(register_message("Test App", "com.test.app", "d1")),
        &tx,
        Timestamp::from_millis(42),
        "fresh".to_string(),
    );
    assert!(matches!(&step.next, ProducerState::Registered { session_id } if session_id == "fresh"));
    assert_eq!(step.disposition, Disposition::Accepted);
    match step.reply {
        Some(ServiceToAppMessage::Registered { timestamp, payload }) => {
            assert_eq!(timestamp, Timestamp::from_millis(42));
            assert_eq!(payload.session_id, "fresh");
        }
        other => panic!("Expected REGISTERED reply, got {:?}", other),
    }
    match step.event {
        Some(ServiceToDashboardMessage::SessionStarted { payload }) => {
            assert_eq!(payload.session.session_id, "fresh");
            assert_eq!(payload.session.started_at, Timestamp::from_millis(42));
        }
        other => panic!("Expected SESSION_STARTED event, got {:?}", other),
    }
    assert!(manager.get_session("fresh").unwrap().app_outbox().unwrap().same_channel(&tx));

    let step = apply_app_event(
        &mut manager,
        step.next,
        ProducerEvent::Closed,
        &tx,
        Timestamp::from_millis(50),
        String::new(),
    );
    assert!(matches!(step.next, ProducerState::Terminal));
    assert!(step.reply.is_none());
    match step.event {
        Some(ServiceToDashboardMessage::SessionEnded { timestamp, payload }) => {
            assert_eq!(timestamp, Timestamp::from_millis(50));
            assert_eq!(payload.session_id, "fresh");
        }
        other => panic!("Expected SESSION_ENDED event, got {:?}", other),
    }
    assert_eq!(manager.get_session("fresh").unwrap().ended_at, Some(Timestamp::from_millis(50)));
}

#[test]
fn broadcast_offers_the_message_to_every_consumer_and_counts_the_losses() {
    let mut manager = SessionManager::new(1000, 50000, 3600);
    let (open_tx, mut open_rx) = channel(4);
    let (full_tx, mut full_rx) = channel(1);
    let (closed_tx, closed_rx) = channel(4);
    drop(closed_rx);
    manager.add_dashboard_sender(open_tx);
    manager.add_dashboard_sender(full_tx);
    manager.add_dashboard_sender(closed_tx);

    let message = ServiceToDashboardMessage::SessionEnded {
        timestamp: Timestamp::from_millis(1),
        payload: SessionEndedPayload { session_id: "s".to_string() },
    };
    let first = broadcast_to_dashboards(&manager, &message);
    assert_eq!(
        first.outcomes(),
        vec![SendOutcome::Delivered, SendOutcome::Delivered, SendOutcome::Closed]
    );
    for (attempt, consumer) in first.attempts.iter().zip(manager.get_dashboard_senders()) {
        assert!(attempt.outbox.same_channel(consumer));
    }
    assert_eq!(first.attempted(), 3);
    assert_eq!(first.lost(), 1);
    let second = broadcast_to_dashboards(&manager, &message);
    assert_eq!(
        second.outcomes(),
        vec![SendOutcome::Delivered, SendOutcome::Full, SendOutcome::Closed]
    );
    assert_eq!(second.lost(), 2);

    assert!(open_rx.try_recv().is_ok());
    assert!(open_rx.try_recv().is_ok());
    assert!(open_rx.try_recv().is_err());
    match full_rx.try_recv().unwrap() {
        ServiceToDashboardMessage::SessionEnded { timestamp, payload } => {
            assert_eq!(timestamp, Timestamp::from_millis(1));
            assert_eq!(payload.session_id, "s");
        }
        other => panic!("Expected SESSION_ENDED message, got {:?}", other),
    }
    assert!(full_rx.try_recv().is_err());
    // A failed send removes nobody from the roster.
    assert_eq!(manager.get_dashboard_senders().len(), 3);
}

#[test]
fn broadcast_to_nobody_reports_nothing() {
    let manager = SessionManager::new(1000, 50000, 3600);
    let message = ServiceToDashboardMessage::SessionEnded {
        timestamp: Timestamp::from_millis(1),
        payload: SessionEndedPayload { session_id: "s".to_string() },
    };
    let report = broadcast_to_dashboards(&manager, &message);
    assert!(report.attempts.is_empty());
    assert_eq!(report.attempted(), 0);
    assert_eq!(report.lost(), 0);
}

#[test]
fn broadcast_report_counts_each_outcome() {
    let (tx, _rx) = channel::<ServiceToDashboardMessage>(1);
    let mut report = BroadcastReport::empty();
    assert_eq!(report.attempted(), 0);
    assert_eq!(report.lost(), 0);
    assert!(report.outcomes().is_empty());
    for outcome in [
        SendOutcome::Delivered,
        SendOutcome::Full,
        SendOutcome::Full,
        SendOutcome::Closed,
        SendOutcome::Delivered,
    ] {
        report.note(Attempt { outbox: tx.clone(), outcome });
    }
    assert!(report.attempts.iter().all(|attempt| attempt.outbox.same_channel(&tx)));
    assert_eq!(
        report.outcomes(),
        vec![
            SendOutcome::Delivered,
            SendOutcome::Full,
            SendOutcome::Full,
            SendOutcome::Closed,
            SendOutcome::Delivered
        ]
    );
    assert_eq!(report.attempted(), 5);
    assert_eq!(report.lost(), 3);
}

#[test]
fn a_slow_consumer_loses_events_and_the_producer_goes_on() {
    let mut manager = SessionManager::new(1000, 50000, 3600);
    let (slow_tx, mut slow_rx) = channel(1);
    let _sync = attach_dashboard(&mut manager, slow_tx);
    let mut producer = connect_producer();
    let session_id = register(&mut manager, &mut producer, "Test App", "com.test.app", "d1");

    let state = std::mem::replace(&mut producer.state, ProducerState::Terminal);
    let outcome = handle_app_event(
        &mut manager,
        state,
        ProducerEvent::Message(data_message(&session_id, Value::from(1))),
        &producer.tx,
    );
    assert_eq!(outcome.disposition, Disposition::Accepted);
    assert_eq!(outcome.reply, None);
    assert_eq!(outcome.broadcast.unwrap().outcomes(), vec![SendOutcome::Full]);
    assert!(matches!(slow_rx.try_recv().unwrap(), ServiceToDashboardMessage::SessionStarted { .. }));
    assert!(slow_rx.try_recv().is_err());
    assert_eq!(manager.get_session(&session_id).unwrap().get_latest_data(), Some(Value::from(1)));
}

#[test]
fn registration_reports_what_became_of_the_reply() {
    let mut manager = SessionManager::new(1000, 50000, 3600);
    let (tx, rx) = channel(32);
    drop(rx);
    let outcome = handle_app_event(
        &mut manager,
        ProducerState::AwaitRegister,
        ProducerEvent::Message(register_message("Test App", "com.test.app", "d1")),
        &tx,
    );
    assert_eq!(outcome.disposition, Disposition::Accepted);
    assert_eq!(outcome.reply, Some(SendOutcome::Closed));
    assert!(outcome.broadcast.unwrap().attempts.is_empty());
    assert!(matches!(outcome.next, ProducerState::Registered { .. }));
}

#[test]
fn action_for_an_unknown_session_is_dropped() {
    let (mut manager, mut producer, consumer, _session_id) = established();
    let outcome = handle_dashboard_event(
        &mut manager,
        ConsumerState::Attached,
        action_message("nobody", "a1", "clear_cache", None),
        &consumer.tx,
    );
    assert_eq!(outcome.disposition, Disposition::Dropped(DropReason::UnknownSessionAction));
    assert_eq!(outcome.delivery, None);
    assert_eq!(outcome.next, ConsumerState::Attached);
    assert!(producer.rx.try_recv().is_err());
}

#[test]
fn action_for_an_ended_session_is_dropped() {
    let (mut manager, mut producer, consumer, session_id) = established();
    send(&mut manager, &mut producer, ProducerEvent::Closed);
    let outcome = handle_dashboard_event(
        &mut manager,
        ConsumerState::Attached,
        action_message(&session_id, "a1", "clear_cache", None),
        &consumer.tx,
    );
    assert_eq!(outcome.disposition, Disposition::Dropped(DropReason::DetachedSessionAction));
    assert_eq!(outcome.delivery, None);
    assert!(producer.rx.try_recv().is_err());
}

#[test]
fn action_to_a_full_producer_outbox_is_lost() {
    let mut manager = SessionManager::new(1000, 50000, 3600);
    let (tx, mut rx) = channel(1);
    let outcome = handle_app_event(
        &mut manager,
        ProducerState::AwaitRegister,
        ProducerEvent::Message(register_message("Test App", "com.test.app", "d1")),
        &tx,
    );
    assert_eq!(outcome.reply, Some(SendOutcome::Delivered));
    let session_id = match outcome.next {
        ProducerState::Registered { session_id } => session_id,
        other => panic!("Expected Registered state, got {:?}", other),
    };
    let (consumer_tx, _consumer_rx) = channel(64);
    // REGISTERED still sits in the producer's outbox of one.
    let outcome = handle_dashboard_event(
        &mut manager,
        ConsumerState::Attached,
        action_message(&session_id, "a1", "clear_cache", None),
        &consumer_tx,
    );
    assert_eq!(outcome.disposition, Disposition::Accepted);
    assert_eq!(outcome.delivery, Some(SendOutcome::Full));
    assert!(matches!(rx.try_recv().unwrap(), ServiceToAppMessage::Registered { .. }));
    assert!(rx.try_recv().is_err());
}

#[test]
fn network_clear_is_routed_like_any_other_action() {
    let (mut manager, mut producer, consumer, session_id) = established();
    let step = apply_dashboard_event(
        &mut manager,
        ConsumerState::Attached,
        action_message(&session_id, "a2", "network_clear", None),
        &consumer.tx,
        Timestamp::from_millis(77),
    );
    assert_eq!(step.disposition, Disposition::Accepted);
    let dispatch = step.dispatch.unwrap();
    assert!(dispatch.outbox.same_channel(&producer.tx));
    match dispatch.message {
        ServiceToAppMessage::Action { timestamp, session_id: target, payload } => {
            assert_eq!(timestamp, Timestamp::from_millis(77));
            assert_eq!(target, session_id);
            assert_eq!(payload.action_id, "a2");
            assert_eq!(payload.action, "network_clear");
            assert_eq!(payload.args, None);
        }
        other => panic!("Expected ACTION message, got {:?}", other),
    }
    assert!(producer.rx.try_recv().is_err());
    assert!(manager.get_session(&session_id).unwrap().is_active());

    let step = apply_dashboard_event(
        &mut manager,
        ConsumerState::Attached,
        action_message("nobody", "a3", "network_clear", None),
        &consumer.tx,
        Timestamp::from_millis(78),
    );
    assert_eq!(step.disposition, Disposition::Dropped(DropReason::UnknownSessionAction));
}

#[test]
fn consumer_close_detaches_its_outbox_only() {
    let mut manager = SessionManager::new(1000, 50000, 3600);
    let (first, _sync1) = connect_consumer(&mut manager);
    let (mut second, _sync2) = connect_consumer(&mut manager);
    assert_eq!(manager.get_dashboard_senders().len(), 2);

    let outcome = handle_dashboard_event(&mut manager, ConsumerState::Attached, ConsumerEvent::Closed, &first.tx);
    assert_eq!(outcome.next, ConsumerState::Terminal);
    assert_eq!(outcome.disposition, Disposition::Detached);
    assert_eq!(manager.get_dashboard_senders().len(), 1);
    assert!(manager.get_dashboard_senders()[0].same_channel(&second.tx));

    let mut producer = connect_producer();
    register(&mut manager, &mut producer, "Test App", "com.test.app", "d1");
    assert!(matches!(second.rx.try_recv().unwrap(), ServiceToDashboardMessage::SessionStarted { .. }));
    let mut first = first;
    assert!(first.rx.try_recv().is_err());

    // After the close nothing more happens on that connection.
    let outcome = handle_dashboard_event(&mut manager, ConsumerState::Terminal, ConsumerEvent::Closed, &second.tx);
    assert_eq!(outcome.disposition, Disposition::Ignored);
    assert_eq!(manager.get_dashboard_senders().len(), 1);
}

#[test]
fn malformed_and_ignored_consumer_frames_change_nothing() {
    let (mut manager, mut producer, consumer, _session_id) = established();
    let outcome = handle_dashboard_event(&mut manager, ConsumerState::Attached, ConsumerEvent::Malformed, &consumer.tx);
    assert_eq!(outcome.disposition, Disposition::Dropped(DropReason::ParseFailure));
    assert_eq!(outcome.next, ConsumerState::Attached);
    let outcome = handle_dashboard_event(&mut manager, ConsumerState::Attached, ConsumerEvent::Ignored, &consumer.tx);
    assert_eq!(outcome.disposition, Disposition::Ignored);
    assert_eq!(manager.get_dashboard_senders().len(), 1);
    assert!(producer.rx.try_recv().is_err());
}

#[test]
fn outboxes_have_the_documented_capacities() {
    assert_eq!(PRODUCER_OUTBOX_CAPACITY, 32);
    assert_eq!(CONSUMER_OUTBOX_CAPACITY, 64);
}

#[test]
fn drop_reasons_render_their_warning() {
    assert_eq!(DropReason::ParseFailure.message(), "Failed to parse message");
    assert_eq!(
        DropReason::ValidationFailure(ValidationError::LogThrowableTooLarge).message(),
        "Message validation failed: Log throwable exceeds maximum size of 262144 bytes"
    );
    assert_eq!(DropReason::SessionIdMismatch.message(), "Session ID mismatch");
    assert_eq!(DropReason::DuplicateRegister.message(), "Received duplicate REGISTER message");
    assert_eq!(
        DropReason::RegisterExpected.message(),
        "Expected REGISTER message, got different message type"
    );
    assert_eq!(DropReason::UnknownSessionAction.message(), "Session not found for ACTION");
    assert_eq!(
        DropReason::DetachedSessionAction.message(),
        "Session has no active app connection"
    );
}

#[test]
fn the_fan_out_plan_holds_one_copy_for_each_consumer_in_order() {
    let mut manager = SessionManager::new(1000, 50000, 3600);
    let (first_tx, _first_rx) = channel(4);
    let (second_tx, _second_rx) = channel(4);
    manager.add_dashboard_sender(first_tx.clone());
    manager.add_dashboard_sender(second_tx.clone());
    let message = ServiceToDashboardMessage::SessionEnded {
        timestamp: Timestamp::from_millis(7),
        payload: SessionEndedPayload { session_id: "s".to_string() },
    };

    let plan = fan_out_plan(&manager, &message);
    assert_eq!(plan.len(), 2);
    assert!(plan[0].outbox.same_channel(&first_tx));
    assert!(plan[1].outbox.same_channel(&second_tx));
    for dispatch in &plan {
        match &dispatch.message {
            ServiceToDashboardMessage::SessionEnded { timestamp, payload } => {
                assert_eq!(*timestamp, Timestamp::from_millis(7));
                assert_eq!(payload.session_id, "s");
            }
            other => panic!("Expected SESSION_ENDED message, got {:?}", other),
        }
    }
    assert!(fan_out_plan(&SessionManager::new(1, 1, 1), &message).is_empty());
}

#[test]
fn performing_a_dispatch_offers_its_message_to_its_outbox() {
    let (tx, mut rx) = channel(1);
    let (other_tx, mut other_rx) = channel::<ServiceToDashboardMessage>(1);
    let message = |id: &str| ServiceToDashboardMessage::SessionEnded {
        timestamp: Timestamp::from_millis(7),
        payload: SessionEndedPayload { session_id: id.to_string() },
    };

    let attempt = perform(ConsumerDispatch { outbox: tx.clone(), message: message("one") });
    assert_eq!(attempt.outcome, SendOutcome::Delivered);
    assert!(attempt.outbox.same_channel(&tx));
    assert!(!attempt.outbox.same_channel(&other_tx));
    let attempt = perform(ConsumerDispatch { outbox: tx.clone(), message: message("two") });
    assert_eq!(attempt.outcome, SendOutcome::Full);

    match rx.try_recv().unwrap() {
        ServiceToDashboardMessage::SessionEnded { payload, .. } => {
            assert_eq!(payload.session_id, "one")
        }
        other => panic!("Expected SESSION_ENDED message, got {:?}", other),
    }
    assert!(rx.try_recv().is_err());
    assert!(other_rx.try_recv().is_err());

    drop(rx);
    let attempt = perform(ConsumerDispatch { outbox: tx, message: message("three") });
    assert_eq!(attempt.outcome, SendOutcome::Closed);
}

#[test]
fn a_closed_outbox_in_the_middle_costs_the_others_nothing() {
    let mut manager = SessionManager::new(1000, 50000, 3600);
    let (first_tx, mut first_rx) = channel(4);
    let (closed_tx, closed_rx) = channel(4);
    let (third_tx, mut third_rx) = channel(4);
    drop(closed_rx);
    manager.add_dashboard_sender(first_tx);
    manager.add_dashboard_sender(closed_tx);
    manager.add_dashboard_sender(third_tx);
    let message = |id: &str| ServiceToDashboardMessage::SessionEnded {
        timestamp: Timestamp::from_millis(7),
        payload: SessionEndedPayload { session_id: id.to_string() },
    };

    for id in ["m1", "m2"] {
        let report = broadcast_to_dashboards(&manager, &message(id));
        assert_eq!(
            report.outcomes(),
            vec![SendOutcome::Delivered, SendOutcome::Closed, SendOutcome::Delivered]
        );
    }
    for rx in [&mut first_rx, &mut third_rx] {
        for expected in ["m1", "m2"] {
            match rx.try_recv().unwrap() {
                ServiceToDashboardMessage::SessionEnded { payload, .. } => {
                    assert_eq!(payload.session_id, expected)
                }
                other => panic!("Expected SESSION_ENDED message, got {:?}", other),
            }
        }
        assert!(rx.try_recv().is_err());
    }
    assert_eq!(manager.get_dashboard_senders().len(), 3);
}

fn ended(id: &str) -> ServiceToDashboardMessage {
    ServiceToDashboardMessage::SessionEnded {
        timestamp: Timestamp::from_millis(7),
        payload: SessionEndedPayload { session_id: id.to_string() },
    }
}

#[test]
fn the_sync_is_the_first_frame_written_to_a_consumer() {
    let mut manager = SessionManager::new(1000, 50000, 3600);
    let (mut consumer, sync) = connect_consumer(&mut manager);
    let mut producer = connect_producer();
    let session_id = register(&mut manager, &mut producer, "Test App", "com.test.app", "d1");

    let first = feed(FeedState::AwaitSync, sync);
    assert_eq!(first.next, FeedState::Flowing);
    assert!(matches!(first.frame, Some(ServiceToDashboardMessage::Sync { .. })));

    let step = feed(first.next, consumer.rx.try_recv().unwrap());
    assert_eq!(step.next, FeedState::Flowing);
    match step.frame {
        Some(ServiceToDashboardMessage::SessionStarted { payload }) => {
            assert_eq!(payload.session.session_id, session_id)
        }
        other => panic!("Expected SESSION_STARTED frame, got {:?}", other),
    }
}

#[test]
fn nothing_is_written_before_the_sync_and_no_second_sync() {
    let before = feed(FeedState::AwaitSync, ended("early"));
    assert_eq!(before.next, FeedState::AwaitSync);
    assert!(before.frame.is_none());

    let mut manager = SessionManager::new(1000, 50000, 3600);
    let (_consumer, sync) = connect_consumer(&mut manager);
    let again = feed(FeedState::Flowing, sync);
    assert_eq!(again.next, FeedState::Flowing);
    assert!(again.frame.is_none());

    let step = feed(FeedState::Flowing, ended("s"));
    assert_eq!(step.next, FeedState::Flowing);
    match step.frame {
        Some(ServiceToDashboardMessage::SessionEnded { payload, .. }) => {
            assert_eq!(payload.session_id, "s")
        }
        other => panic!("Expected SESSION_ENDED frame, got {:?}", other),
    }
}

#[test]
fn a_feed_writes_one_sync_and_then_the_events_in_order() {
    let mut manager = SessionManager::new(1000, 50000, 3600);
    let (_one, sync_one) = connect_consumer(&mut manager);
    let (_two, sync_two) = connect_consumer(&mut manager);
    let offered = vec![ended("a"), sync_one, ended("b"), sync_two, ended("c")];
    let mut state = FeedState::AwaitSync;
    let mut written = Vec::new();
    for message in offered {
        let step = feed(state, message);
        state = step.next;
        if let Some(frame) = step.frame {
            written.push(frame);
        }
    }
    assert_eq!(written.len(), 3);
    assert!(matches!(written[0], ServiceToDashboardMessage::Sync { .. }));
    for (frame, expected) in written[1..].iter().zip(["b", "c"]) {
        match frame {
            ServiceToDashboardMessage::SessionEnded { payload, .. } => {
                assert_eq!(payload.session_id, expected)
            }
            other => panic!("Expected SESSION_ENDED frame, got {:?}", other),
        }
    }
}

#[test]
fn registered_ids_are_minted_ids_and_differ() {
    let mut manager = SessionManager::new(1000, 50000, 3600);
    let (mut consumer, _sync) = connect_consumer(&mut manager);
    let mut first = connect_producer();
    let mut second = connect_producer();
    let one = register(&mut manager, &mut first, "App One", "com.test.app1", "d1");
    let two = register(&mut manager, &mut second, "App Two", "com.test.app2", "d2");
    assert_eq!(one.len(), 36);
    assert_eq!(two.len(), 36);
    assert_ne!(one, two);
    match first.rx.try_recv().unwrap() {
        ServiceToAppMessage::Registered { payload, .. } => {
            assert!(!payload.session_id.is_empty());
            assert_eq!(payload.session_id, one);
        }
        other => panic!("Expected REGISTERED message, got {:?}", other),
    }
    for expected in [&one, &two] {
        match consumer.rx.try_recv().unwrap() {
            ServiceToDashboardMessage::SessionStarted { payload } => {
                assert_eq!(&payload.session.session_id, expected)
            }
            other => panic!("Expected SESSION_STARTED message, got {:?}", other),
        }
    }
}
