use vstd::prelude::*;

use crate::rest::config::MinDiskFree;

verus! {

pub type UsageReportingVersion = u32;

pub type TrafficClass = u8;

/// The global configuration options.
#[derive(Clone, Debug, PartialEq)]
pub struct Options {
    /// Listen addresses for incoming sync connections.
    pub listen_addresses: Vec<ListenAddress>,
    /// Global announce (discovery) servers.
    pub global_announce_servers: Vec<AnnounceServer>,
    /// Whether to use global announce servers.
    pub global_announce_enabled: bool,
    /// Whether to announce on the local LAN.
    pub local_announce_enabled: bool,
    /// The port for IPv4 broadcast announcements.
    pub local_announce_port: u16,
    /// The group address and port for IPv6 multicast announcements.
    pub local_announce_mc_addr: String,
    /// Outgoing rate limit, in kibibytes per second.
    pub max_send_kbps: u64,
    /// Incoming rate limit, in kibibytes per second.
    pub max_recv_kbps: u64,
    /// Seconds between attempts to connect to unconnected devices.
    pub reconnection_interval_s: u32,
    /// Whether relays may be used.
    pub relays_enabled: bool,
    /// Minutes between relay reconnect attempts.
    pub relay_reconnect_interval_m: u32,
    /// Whether to open a browser on start.
    pub start_browser: bool,
    /// Whether to attempt UPnP and NAT-PMP port mapping.
    pub nat_enabled: bool,
    /// Minutes to request a port-mapping lease for; 0 for permanent.
    pub nat_lease_minutes: u32,
    /// Minutes after which to renew the lease.
    pub nat_renewal_minutes: u32,
    /// Seconds to wait for UPnP responses.
    pub nat_timeout_seconds: u32,
    /// Usage-reporting consent: 0 undecided, -1 declined, positive accepted.
    pub ur_accepted: i32,
    /// The highest usage-reporting version already shown.
    pub ur_seen: UsageReportingVersion,
    /// The unique identifier sent with usage reports.
    pub ur_unique_id: String,
    /// Where usage reports are posted.
    pub ur_url: String,
    /// Whether the usage-report address may be insecure.
    pub ur_post_insecurely: bool,
    /// Seconds from startup to the first usage report.
    pub ur_initial_delay_s: u32,
    /// Whether to restart when waking from sleep.
    pub restart_on_wakeup: bool,
    /// Hours between upgrade checks; 0 disables automatic upgrades.
    pub auto_upgrade_interval_h: u32,
    /// Whether automatic upgrades include release candidates.
    pub upgrade_to_pre_releases: bool,
    /// Hours to keep temporary files of failed transfers.
    pub keep_temporaries_h: u32,
    /// Whether ignore-pattern results are cached.
    pub cache_ignored_files: bool,
    /// Seconds between download progress updates.
    pub progress_update_interval_s: u32,
    /// Whether rate limits apply within the local LAN.
    pub limit_bandwidth_in_lan: bool,
    /// The free-space threshold for the configuration partition.
    pub min_home_disk_free: MinDiskFree,
    /// Where release information is loaded from.
    pub releases_url: String,
    /// Networks considered local, in CIDR notation.
    pub always_local_nets: Vec<String>,
    /// Whether remote names always overwrite local device names.
    pub overwrite_remote_device_names_on_connect: bool,
    /// Minimum blocks for exchanging incomplete-transfer indexes.
    pub temp_index_min_blocks: u64,
    /// Notifications still to be acknowledged in the GUI.
    pub unacked_notification_ids: Vec<String>,
    /// The traffic class of outgoing packets.
    pub traffic_class: TrafficClass,
    /// Whether the daemon lowers its own priority at startup.
    pub set_low_priority: bool,
    /// How many folders may run heavy operations at once.
    pub max_folder_concurrency: u64,
    /// Where crash reports are sent.
    pub cr_url: String,
    /// Whether crash reporting is enabled.
    pub crash_reporting_enabled: bool,
    /// Seconds between STUN keepalives, at the start.
    pub stun_keepalive_start_s: u32,
    /// The floor for the STUN keepalive interval, in seconds.
    pub stun_keepalive_min_s: u32,
    /// The STUN servers to use.
    pub stun_servers: Vec<StunServer>,
    /// How the backing database is tuned.
    pub database_tuning: DatabaseTuning,
    /// Response data in flight at most, in kibibytes.
    pub max_concurrent_incoming_request_kib: u64,
    /// Whether private LAN addresses are announced globally.
    pub announce_lan_addresses: bool,
    /// Whether all index data is resent after an upgrade.
    pub send_full_index_on_upgrade: bool,
    /// Feature flags enabling unfinished features.
    pub feature_flags: Vec<String>,
    /// Connections at which we stop dialing out; 0 for no limit.
    pub connection_limit_enough: u64,
    /// Maximum connections in total; 0 for no limit.
    pub connection_limit_max: u64,
    /// Whether TLS 1.2 is still allowed for sync connections.
    pub insecure_allow_old_tls_versions: bool,
}

/// A listen address: the word `default`, or an explicit address.
#[derive(Clone, Debug, PartialEq)]
pub enum ListenAddress {
    Default,
    Address(String),
}

/// A global announce server: the word `default`, or an explicit address.
#[derive(Clone, Debug, PartialEq)]
pub enum AnnounceServer {
    Default,
    Address(String),
}

/// A STUN server: the word `default`, or an explicit `ip:port`.
#[derive(Clone, Debug, PartialEq)]
pub enum StunServer {
    Default,
    Address(String),
}

/// How the backing database is tuned.
#[derive(Copy, Clone, Debug, PartialEq, Eq, Structural, Hash)]
pub enum DatabaseTuning {
    Small,
    Large,
    Auto,
}

} // verus!
