use androidoscopy::discovery::{
    announcement, broadcast_address, BROADCAST_INTERVAL_SECONDS, DISCOVERY_PORT,
};

#[test]
fn announcement_names_the_service_and_its_ports() {
    let message = announcement(9999, 8080);
    assert_eq!(message.service, "androidoscopy");
    assert_eq!(message.version, "1.0");
    assert_eq!(message.websocket_port, 9999);
    assert_eq!(message.http_port, 8080);
}

#[test]
fn announcements_go_to_the_broadcast_address_at_the_discovery_port() {
    assert_eq!(DISCOVERY_PORT, 9998);
    assert_eq!(BROADCAST_INTERVAL_SECONDS, 5);
    assert_eq!(broadcast_address(), "255.255.255.255:9998");
}
