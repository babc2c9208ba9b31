use vstd::prelude::*;

use std::collections::HashMap;

verus! {

/// A debug facility that can be switched on in the daemon.
#[derive(Copy, Clone, Debug, PartialEq, Eq, Structural, Hash)]
pub enum DebugOption {
    Beacon,
    API,
    App,
    Backend,
    Config,
    Connections,
    DB,
    Dialer,
    Discover,
    Events,
    FS,
    Main,
    Model,
    NAT,
    PMP,
    Protocol,
    Relay,
    Scanner,
    SHA256,
    Stats,
    STUN,
    Sync,
    Upgrade,
    UPnP,
    Ur,
    Versioner,
    WalkFS,
    Watchaggregator,
}

/// Which debug facilities exist and which are enabled.
#[derive(Clone, Debug, PartialEq)]
pub struct DebugInfo {
    pub enabled: Vec<DebugOption>,
    pub facilities: HashMap<DebugOption, String>,
}

} // verus!
