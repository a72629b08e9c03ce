//! Configuration of the broker and of what surrounds it, with the defaults
//! that apply where an option is not given.

use crate::paths::{home_dir, join_path, local_data_dir};
use vstd::prelude::*;

verus! {

/// Everything that can be configured.
#[derive(Debug)]
pub struct Config {
    pub server: ServerConfig,
    pub session: SessionConfig,
    pub logging: LoggingConfig,
    pub dashboard: DashboardConfig,
}

/// Where the broker listens, and for how many.
#[derive(Debug)]
pub struct ServerConfig {
    pub websocket_port: u16,
    pub http_port: u16,
    pub bind_address: String,
    pub max_connections: usize,
    pub udp_discovery_enabled: bool,
    pub tls: TlsConfig,
}

/// Whether the producer endpoint speaks TLS, and with which certificate.
#[derive(Debug)]
pub struct TlsConfig {
    pub enabled: bool,
    pub cert_path: String,
    pub key_path: String,
    pub auto_generate: bool,
}

/// How much history a session keeps, and how long an ended session lingers.
#[derive(Debug, Clone, Copy, PartialEq, Eq, Structural)]
pub struct SessionConfig {
    pub ended_session_ttl_seconds: u64,
    pub data_buffer_size: usize,
    pub log_buffer_size: usize,
}

/// How much is logged.
#[derive(Debug)]
pub struct LoggingConfig {
    pub level: String,
}

/// Where the consumer UI is served from.
#[derive(Debug)]
pub struct DashboardConfig {
    pub static_dir: String,
}

/// The port producers connect to.
pub fn default_websocket_port() -> (port: u16)
    ensures
        port == 8889,
{
    8889
}

/// The port consumers connect to.
pub fn default_http_port() -> (port: u16)
    ensures
        port == 8880,
{
    8880
}

/// The address the listeners bind to: the loopback interface.
pub fn default_bind_address() -> (address: String)
    ensures
        address@ == "127.0.0.1"@,
{
    "127.0.0.1".to_owned()
}

/// How many connections the transport lets in.
pub fn default_max_connections() -> (limit: usize)
    ensures
        limit == 100,
{
    100
}

/// Whether the broker announces itself on the local network.
pub fn default_udp_discovery() -> (enabled: bool)
    ensures
        enabled,
{
    true
}

/// Whether the producer endpoint speaks TLS.
pub fn default_tls_enabled() -> (enabled: bool)
    ensures
        enabled,
{
    true
}

/// The directory that paths are put below, given what the platform gave: the
/// directory it gave, or the working directory where it gave none.
pub fn directory_or_current(found: Option<String>) -> (directory: String)
    ensures
        match found {
            Some(given) => directory == given,
            None => directory@ == "."@,
        },
{
    match found {
        Some(given) => given,
        None => ".".to_owned(),
    }
}

/// Where the broker keeps `file_name`, given the user's local data directory:
/// in `androidoscopy` under that directory, or under the working directory
/// where there is none.
pub fn data_file_path(local_data_dir: Option<String>, file_name: &str) -> String {
    let base = directory_or_current(local_data_dir);
    let folder = join_path(base.as_str(), "androidoscopy");
    join_path(folder.as_str(), file_name)
}

/// Where the configuration file is looked for, given the user's home
/// directory: `.androidoscopy/config.toml` under it, or under the working
/// directory where there is none.
pub fn config_path_under(home: Option<String>) -> String {
    let base = directory_or_current(home);
    let folder = join_path(base.as_str(), ".androidoscopy");
    join_path(folder.as_str(), "config.toml")
}

/// Where the configuration file is looked for.
pub fn config_path() -> String {
    config_path_under(home_dir())
}

/// Where the certificate is kept.
pub fn default_cert_path() -> String {
    data_file_path(local_data_dir(), "cert.pem")
}

/// Where the private key is kept.
pub fn default_key_path() -> String {
    data_file_path(local_data_dir(), "key.pem")
}

/// Whether missing certificates are generated.
pub fn default_auto_generate() -> (enabled: bool)
    ensures
        enabled,
{
    true
}

/// Seconds an ended session stays on record.
pub fn default_ended_session_ttl() -> (seconds: u64)
    ensures
        seconds == 3600,
{
    3600
}

/// How many samples a session keeps.
pub fn default_data_buffer_size() -> (size: usize)
    ensures
        size == 1000,
{
    1000
}

/// How many log records a session keeps.
pub fn default_log_buffer_size() -> (size: usize)
    ensures
        size == 50000,
{
    50000
}

/// The level from which messages are logged.
pub fn default_log_level() -> (level: String)
    ensures
        level@ == "info"@,
{
    "info".to_owned()
}

/// The directory the consumer UI is built into.
pub fn default_static_dir() -> (dir: String)
    ensures
        dir@ == "../dashboard/dist"@,
{
    "../dashboard/dist".to_owned()
}

impl TlsConfig {
    /// Whether the flags are the defaults. The paths depend on the
    /// environment.
    pub open spec fn has_default_flags(self) -> bool {
        self.enabled && self.auto_generate
    }
}

impl ServerConfig {
    /// Whether everything but the certificate paths is the default.
    pub open spec fn is_default(self) -> bool {
        &&& self.websocket_port == 8889
        &&& self.http_port == 8880
        &&& self.bind_address@ == "127.0.0.1"@
        &&& self.max_connections == 100
        &&& self.udp_discovery_enabled
        &&& self.tls.has_default_flags()
    }
}

impl Default for TlsConfig {
    fn default() -> (config: Self)
        ensures
            config.has_default_flags(),
    {
        TlsConfig {
            enabled: default_tls_enabled(),
            cert_path: default_cert_path(),
            key_path: default_key_path(),
            auto_generate: default_auto_generate(),
        }
    }
}

impl Default for ServerConfig {
    fn default() -> (config: Self)
        ensures
            config.is_default(),
    {
        ServerConfig {
            websocket_port: default_websocket_port(),
            http_port: default_http_port(),
            bind_address: default_bind_address(),
            max_connections: default_max_connections(),
            udp_discovery_enabled: default_udp_discovery(),
            tls: TlsConfig::default(),
        }
    }
}

impl Default for SessionConfig {
    fn default() -> (config: Self)
        ensures
            config == (SessionConfig {
                ended_session_ttl_seconds: 3600,
                data_buffer_size: 1000,
                log_buffer_size: 50000,
            }),
    {
        SessionConfig {
            ended_session_ttl_seconds: default_ended_session_ttl(),
            data_buffer_size: default_data_buffer_size(),
            log_buffer_size: default_log_buffer_size(),
        }
    }
}

impl Default for LoggingConfig {
    fn default() -> (config: Self)
        ensures
            config.level@ == "info"@,
    {
        LoggingConfig { level: default_log_level() }
    }
}

impl Default for DashboardConfig {
    fn default() -> (config: Self)
        ensures
            config.static_dir@ == "../dashboard/dist"@,
    {
        DashboardConfig { static_dir: default_static_dir() }
    }
}

impl Default for Config {
    fn default() -> (config: Self)
        ensures
            config.server.is_default(),
            config.session == (SessionConfig {
                ended_session_ttl_seconds: 3600,
                data_buffer_size: 1000,
                log_buffer_size: 50000,
            }),
            config.logging.level@ == "info"@,
            config.dashboard.static_dir@ == "../dashboard/dist"@,
    {
        Config {
            server: ServerConfig::default(),
            session: SessionConfig::default(),
            logging: LoggingConfig::default(),
            dashboard: DashboardConfig::default(),
        }
    }
}

impl Clone for TlsConfig {
    fn clone(&self) -> (copy: Self)
        ensures
            copy == *self,
    {
        TlsConfig {
            enabled: self.enabled,
            cert_path: self.cert_path.clone(),
            key_path: self.key_path.clone(),
            auto_generate: self.auto_generate,
        }
    }
}

impl Clone for ServerConfig {
    fn clone(&self) -> (copy: Self)
        ensures
            copy == *self,
    {
        ServerConfig {
            websocket_port: self.websocket_port,
            http_port: self.http_port,
            bind_address: self.bind_address.clone(),
            max_connections: self.max_connections,
            udp_discovery_enabled: self.udp_discovery_enabled,
            tls: self.tls.clone(),
        }
    }
}

impl Clone for LoggingConfig {
    fn clone(&self) -> (copy: Self)
        ensures
            copy == *self,
    {
        LoggingConfig { level: self.level.clone() }
    }
}

impl Clone for DashboardConfig {
    fn clone(&self) -> (copy: Self)
        ensures
            copy == *self,
    {
        DashboardConfig { static_dir: self.static_dir.clone() }
    }
}

impl Clone for Config {
    fn clone(&self) -> (copy: Self)
        ensures
            copy == *self,
    {
        Config {
            server: self.server.clone(),
            session: self.session,
            logging: self.logging.clone(),
            dashboard: self.dashboard.clone(),
        }
    }
}

} // verus!
