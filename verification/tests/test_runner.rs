use androidoscopy::test_runner::{TestConfig, TestRunner};

#[test]
fn test_config_urls() {
    let config = TestConfig {
        server_host: "localhost".to_string(),
        websocket_port: 9999,
        http_port: 8080,
    };

    assert_eq!(config.app_ws_url(), "ws://localhost:9999/ws/app");
    assert_eq!(config.dashboard_ws_url(), "ws://localhost:9999/ws/dashboard");
    assert_eq!(config.http_url(), "http://localhost:8080");
}

#[test]
fn urls_write_every_port_in_decimal() {
    for port in [0u16, 1, 9, 10, 99, 100, 1000, 8080, 10000, 65535] {
        let config = TestConfig { server_host: "h".to_string(), websocket_port: port, http_port: port };
        assert_eq!(config.app_ws_url(), format!("ws://h:{}/ws/app", port));
        assert_eq!(config.dashboard_ws_url(), format!("ws://h:{}/ws/dashboard", port));
        assert_eq!(config.http_url(), format!("http://h:{}", port));
    }
}

#[test]
fn runner_made_from_ports_points_at_the_loopback_interface() {
    let runner = TestRunner::new(9999, 8080);
    assert_eq!(runner.config().server_host, "127.0.0.1");
    assert_eq!(runner.config().websocket_port, 9999);
    assert_eq!(runner.config().http_port, 8080);
    assert_eq!(runner.config().app_ws_url(), "ws://127.0.0.1:9999/ws/app");
}

#[test]
fn runner_keeps_the_config_it_is_given() {
    let runner = TestRunner::with_config(TestConfig {
        server_host: "example.test".to_string(),
        websocket_port: 1,
        http_port: 2,
    });
    assert_eq!(runner.config().server_host, "example.test");
    assert_eq!(runner.config().websocket_port, 1);
    assert_eq!(runner.config().http_port, 2);
    assert_eq!(runner.config().http_url(), "http://example.test:2");
}

#[test]
fn config_with_ports_uses_the_loopback_interface() {
    let config = TestConfig::with_ports(7, 8);
    assert_eq!(config.server_host, "127.0.0.1");
    assert_eq!(config.websocket_port, 7);
    assert_eq!(config.http_port, 8);
}
