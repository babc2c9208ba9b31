use vstd::prelude::*;

use std::collections::HashMap;

verus! {

/// Connection statistics for one device.
#[derive(Clone, Debug, PartialEq)]
pub struct DeviceStats {
    pub address: String,
    pub at: String,
    pub client_version: String,
    pub connected: bool,
    pub crypto: String,
    pub in_bytes_total: u64,
    pub out_bytes_total: u64,
    pub paused: bool,
    pub device_type: String,
}

/// The connections endpoint's reply: totals plus per-device statistics.
#[derive(Clone, Debug, PartialEq)]
pub struct Connections {
    pub total: DeviceStats,
    pub connections: HashMap<String, DeviceStats>,
}

} // verus!
