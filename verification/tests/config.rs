use androidoscopy::config::{
    config_path, config_path_under, data_file_path, directory_or_current, default_auto_generate, default_bind_address, default_cert_path,
    default_data_buffer_size, default_ended_session_ttl, default_http_port, default_key_path,
    default_log_buffer_size, default_log_level, default_max_connections, default_static_dir,
    default_tls_enabled, default_udp_discovery, default_websocket_port, Config, SessionConfig,
};
use std::path::Path;

#[test]
fn test_default_config() {
    let config = Config::default();
    assert_eq!(config.server.http_port, 8880);
    assert_eq!(config.server.websocket_port, 8889);
    assert_eq!(config.server.bind_address, "127.0.0.1");
}

#[test]
fn default_config_holds_the_documented_defaults() {
    let config = Config::default();
    assert_eq!(config.session.data_buffer_size, 1000);
    assert_eq!(config.session.log_buffer_size, 50000);
    assert_eq!(config.session.ended_session_ttl_seconds, 3600);
    assert_eq!(config.server.max_connections, 100);
    assert!(config.server.udp_discovery_enabled);
    assert!(config.server.tls.enabled);
    assert!(config.server.tls.auto_generate);
    assert_eq!(config.logging.level, "info");
    assert_eq!(config.dashboard.static_dir, "../dashboard/dist");
    assert_eq!(config.session, SessionConfig::default());
}

#[test]
fn default_functions_give_the_documented_values() {
    assert_eq!(default_websocket_port(), 8889);
    assert_eq!(default_http_port(), 8880);
    assert_eq!(default_bind_address(), "127.0.0.1");
    assert_eq!(default_max_connections(), 100);
    assert!(default_udp_discovery());
    assert!(default_tls_enabled());
    assert!(default_auto_generate());
    assert_eq!(default_ended_session_ttl(), 3600);
    assert_eq!(default_data_buffer_size(), 1000);
    assert_eq!(default_log_buffer_size(), 50000);
    assert_eq!(default_log_level(), "info");
    assert_eq!(default_static_dir(), "../dashboard/dist");
}

#[test]
fn data_files_live_in_the_brokers_folder_under_the_data_directory() {
    let path = data_file_path(Some("/home/alice/.local/share".to_string()), "cert.pem");
    assert_eq!(
        Path::new(&path),
        Path::new("/home/alice/.local/share").join("androidoscopy").join("cert.pem")
    );
}

#[test]
fn data_files_fall_back_to_the_working_directory() {
    let path = data_file_path(None, "key.pem");
    assert_eq!(Path::new(&path), Path::new(".").join("androidoscopy").join("key.pem"));
}

#[test]
fn default_certificate_paths_name_the_two_files() {
    let cert = default_cert_path();
    let key = default_key_path();
    assert!(Path::new(&cert).ends_with(Path::new("androidoscopy").join("cert.pem")));
    assert!(Path::new(&key).ends_with(Path::new("androidoscopy").join("key.pem")));
    assert_eq!(Path::new(&cert).parent(), Path::new(&key).parent());
    let config = Config::default();
    assert_eq!(config.server.tls.cert_path, cert);
    assert_eq!(config.server.tls.key_path, key);
}

#[test]
fn copies_of_the_config_hold_the_same_values() {
    let mut config = Config::default();
    config.server.http_port = 9000;
    config.logging.level = "debug".to_string();
    let copy = config.clone();
    assert_eq!(copy.server.http_port, 9000);
    assert_eq!(copy.server.websocket_port, 8889);
    assert_eq!(copy.server.tls.cert_path, config.server.tls.cert_path);
    assert_eq!(copy.logging.level, "debug");
    assert_eq!(copy.session, config.session);
}

#[test]
fn the_config_file_lives_below_the_home_directory() {
    let path = config_path_under(Some("/home/alice".to_string()));
    assert_eq!(
        Path::new(&path),
        Path::new("/home/alice").join(".androidoscopy").join("config.toml")
    );
    let fallback = config_path_under(None);
    assert_eq!(Path::new(&fallback), Path::new(".").join(".androidoscopy").join("config.toml"));
    assert!(Path::new(&config_path()).ends_with(Path::new(".androidoscopy").join("config.toml")));
}

#[test]
fn paths_go_below_the_given_directory_or_the_working_directory() {
    assert_eq!(directory_or_current(Some("/home/alice".to_string())), "/home/alice");
    assert_eq!(directory_or_current(Some(String::new())), "");
    assert_eq!(directory_or_current(None), ".");
}
