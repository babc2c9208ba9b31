use vstd::prelude::*;

pub mod devices;
pub mod folders;
pub mod gui;
pub mod ignores;
pub mod ldap;
pub mod options;
pub mod restart_required;

pub use devices::Device;
pub use folders::Folder;
pub use gui::Gui;
pub use ignores::Ignores;
pub use ldap::Ldap;
pub use options::Options;
pub use restart_required::RestartRequired;

verus! {

pub type FolderId = String;

pub type Version = u32;

pub type PortNumber = u16;

pub type Kibibytes = u64;

pub type KibibytesPerSecond = u64;

/// Positive number of seconds.
pub type Seconds = u32;

pub type Minutes = u32;

pub type Hours = u32;

/// Counter starting at zero.
pub type Count = u64;

/// A free-space threshold: a value interpreted according to its unit.
#[derive(Copy, Clone, Debug, PartialEq, Eq, Structural)]
pub struct MinDiskFree {
    pub value: u64,
    pub unit: DiskFreeUnit,
}

/// The unit of a free-space threshold.
#[derive(Copy, Clone, Debug, PartialEq, Eq, Structural, Hash)]
pub enum DiskFreeUnit {
    Disabled,
    Percentage,
    Kilobyte,
    Megabyte,
    Gigabyte,
    Terrabyte,
}

/// The daemon's whole configuration. Parts the library does not interpret
/// (remotely ignored devices, default ignore patterns) are carried through
/// as raw JSON text.
#[derive(Clone, Debug, PartialEq)]
pub struct Config {
    pub version: u32,
    pub folders: Vec<Folder>,
    pub devices: Vec<Device>,
    pub gui: Gui,
    pub ldap: Ldap,
    pub options: Options,
    pub remote_ignored_devices: Vec<String>,
    pub defaults: Defaults,
}

/// Templates applied to newly added folders and devices.
#[derive(Clone, Debug, PartialEq)]
pub struct Defaults {
    pub folder: Folder,
    pub device: Device,
    pub ignores: String,
}

} // verus!
