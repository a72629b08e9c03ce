//! Presence beaconing: what the broker announces on the local network, where
//! to and how often.

use crate::text::{decimal, decimal_text};
use vstd::prelude::*;
use vstd::string::StringExecFns;

verus! {

/// The UDP port that announcements are sent to.
pub const DISCOVERY_PORT: u16 = 9998;

/// Seconds between two announcements.
pub const BROADCAST_INTERVAL_SECONDS: u64 = 5;

/// One announcement.
#[derive(Debug)]
pub struct DiscoveryMessage {
    pub service: String,
    pub version: String,
    pub websocket_port: u16,
    pub http_port: u16,
}

/// The announcement of a broker that listens on the given ports.
pub fn announcement(websocket_port: u16, http_port: u16) -> (message: DiscoveryMessage)
    ensures
        message.service@ == "androidoscopy"@,
        message.version@ == "1.0"@,
        message.websocket_port == websocket_port,
        message.http_port == http_port,
{
    DiscoveryMessage {
        service: "androidoscopy".to_owned(),
        version: "1.0".to_owned(),
        websocket_port,
        http_port,
    }
}

/// The address announcements are sent to: the limited broadcast address, at
/// the discovery port.
pub fn broadcast_address() -> (address: String)
    ensures
        address@ == "255.255.255.255:"@ + decimal_text(DISCOVERY_PORT as nat),
{
    let mut address = String::from_str("255.255.255.255:");
    let port = decimal(DISCOVERY_PORT);
    address.append(port.as_str());
    address
}

} // verus!
