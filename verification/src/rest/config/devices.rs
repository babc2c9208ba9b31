use vstd::prelude::*;

verus! {

/// A device participating in the cluster.
#[derive(Clone, Debug, PartialEq)]
pub struct Device {
    /// The device identifier.
    pub id: String,
    pub options: Options,
}

/// The optional per-device settings; an absent field stays unset rather than
/// taking a default.
#[derive(Clone, Debug, PartialEq)]
pub struct Options {
    /// A friendly name for the device.
    pub name: Option<String>,
    /// Whether to compress messages sent to this device.
    pub compression: Option<Compression>,
    /// Whether this device is trusted as an introducer.
    pub introducer: Option<bool>,
    /// Whether to follow only introductions and not de-introductions.
    pub skip_introduction_removals: Option<bool>,
    /// Which device introduced us to this device.
    pub introduced_by: Option<String>,
    /// The device certificate's common name, when not the default.
    pub cert_name: Option<String>,
    pub encryption_password: Option<String>,
    /// Addresses to try when connecting to this device.
    pub addresses: Option<Vec<Address>>,
    /// Whether synchronization with this device is suspended.
    pub paused: Option<bool>,
    /// Networks, in CIDR notation, this device may be reached over.
    pub allowed_networks: Option<Vec<String>>,
    /// Whether folders shared from this device are added automatically.
    pub auto_accept_folders: Option<bool>,
    /// Maximum send rate, in kibibytes per second.
    pub max_send_kbps: Option<u64>,
    /// Maximum receive rate, in kibibytes per second.
    pub max_recv_kbps: Option<u64>,
    /// Folders never accepted from this device.
    pub ignored_folders: Option<Vec<String>>,
    /// Maximum outstanding request data, in kibibytes.
    pub max_request_kib: Option<u64>,
    /// The port under which to link to the device's own GUI, if positive.
    pub remote_gui_port: Option<u16>,
    /// Whether unencrypted data must never be shared with this device.
    pub untrusted: Option<bool>,
}

/// How much of the traffic to a device is compressed.
#[derive(Copy, Clone, Debug, PartialEq, Eq, Structural)]
pub enum Compression {
    /// Compress metadata packets only.
    Metadata,
    /// Compress all packets, file data included.
    Always,
    /// Compress nothing.
    Never,
}

impl Default for Compression {
    /// Metadata compression is the default.
    fn default() -> (r: Compression)
        ensures
            r == Compression::Metadata,
    {
        Compression::Metadata
    }
}

/// Where to reach a device: the word `dynamic`, or an explicit address.
#[derive(Clone, Debug, PartialEq)]
pub enum Address {
    /// Discover the address.
    Dynamic,
    /// A fixed address, with a protocol prefix such as `tcp://`.
    Static(String),
}

} // verus!
