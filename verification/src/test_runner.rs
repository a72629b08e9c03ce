//! Where an end-to-end run finds the broker: the host and ports of a test
//! server, and the addresses that clients connect to.

use crate::text::{decimal, decimal_text};
use vstd::prelude::*;
use vstd::string::StringExecFns;

verus! {

/// Host and ports of a test server.
#[derive(Debug)]
pub struct TestConfig {
    pub server_host: String,
    pub websocket_port: u16,
    pub http_port: u16,
}

/// `scheme` followed by the host, a colon, the port in decimal, and `path`.
pub open spec fn endpoint_text(scheme: Seq<char>, host: Seq<char>, port: u16, path: Seq<char>) -> Seq<char> {
    scheme + host + ":"@ + decimal_text(port as nat) + path
}

/// Writes an address out.
fn endpoint(scheme: &str, host: &str, port: u16, path: &str) -> (url: String)
    ensures
        url@ == endpoint_text(scheme@, host@, port, path@),
{
    let mut url = String::from_str(scheme);
    url.append(host);
    url.append(":");
    let digits = decimal(port);
    url.append(digits.as_str());
    url.append(path);
    url
}

impl TestConfig {
    /// A server on the loopback interface, on the given ports.
    pub fn with_ports(websocket_port: u16, http_port: u16) -> (config: TestConfig)
        ensures
            config.server_host@ == "127.0.0.1"@,
            config.websocket_port == websocket_port,
            config.http_port == http_port,
    {
        TestConfig { server_host: "127.0.0.1".to_owned(), websocket_port, http_port }
    }

    /// The address producers connect to.
    pub fn app_ws_url(&self) -> (url: String)
        ensures
            url@ == endpoint_text("ws://"@, self.server_host@, self.websocket_port, "/ws/app"@),
    {
        endpoint("ws://", self.server_host.as_str(), self.websocket_port, "/ws/app")
    }

    /// The address consumers connect to.
    pub fn dashboard_ws_url(&self) -> (url: String)
        ensures
            url@ == endpoint_text(
                "ws://"@,
                self.server_host@,
                self.websocket_port,
                "/ws/dashboard"@,
            ),
    {
        endpoint("ws://", self.server_host.as_str(), self.websocket_port, "/ws/dashboard")
    }

    /// The base address of the HTTP side.
    pub fn http_url(&self) -> (url: String)
        ensures
            url@ == endpoint_text("http://"@, self.server_host@, self.http_port, ""@),
    {
        endpoint("http://", self.server_host.as_str(), self.http_port, "")
    }
}

/// Holds the configuration of one end-to-end run.
#[derive(Debug)]
pub struct TestRunner {
    config: TestConfig,
}

impl TestRunner {
    /// The configuration the runner was made with.
    pub closed spec fn spec_config(&self) -> TestConfig {
        self.config
    }

    /// A runner for a server on the loopback interface, on the given ports.
    pub fn new(websocket_port: u16, http_port: u16) -> (runner: TestRunner)
        ensures
            runner.spec_config().server_host@ == "127.0.0.1"@,
            runner.spec_config().websocket_port == websocket_port,
            runner.spec_config().http_port == http_port,
    {
        TestRunner { config: TestConfig::with_ports(websocket_port, http_port) }
    }

    /// A runner for the server that `config` describes.
    pub fn with_config(config: TestConfig) -> (runner: TestRunner)
        ensures
            runner.spec_config() == config,
    {
        TestRunner { config }
    }

    /// The configuration of the run.
    pub fn config(&self) -> (config: &TestConfig)
        ensures
            *config == self.spec_config(),
    {
        &self.config
    }
}

} // verus!
