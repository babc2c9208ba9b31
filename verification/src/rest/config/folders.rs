use vstd::prelude::*;

verus! {

broadcast use vstd::string::group_string_axioms;

/// A counter with -1 meaning "infinite".
pub type CountWithInfinite = i64;

/// One synchronized folder and all its per-folder settings.
#[derive(Clone, Debug, PartialEq)]
pub struct Folder {
    /// The folder identifier, unique within the configuration.
    pub id: String,
    /// Where the folder is stored on this device.
    pub path: String,
    /// A human readable local name; may be empty.
    pub label: String,
    /// The file system implementation used to access this folder.
    pub filesystem_type: FilesystemType,
    /// How the folder is handled.
    pub ty: Type,
    /// The devices this folder is shared with.
    pub devices: Vec<Device>,
    /// The rescan interval, in seconds; 0 disables periodic rescans.
    pub rescan_interval_s: u32,
    /// Whether file system notifications trigger scans.
    pub fs_watcher_enabled: bool,
    /// How long detected changes accumulate before a scan, in seconds.
    pub fs_watcher_delay_s: u32,
    /// Whether to announce files without permission bits.
    pub ignore_perms: bool,
    /// Whether UTF-8 normalization errors in names are corrected.
    pub auto_normalize: bool,
    /// The free-space threshold below which the folder stops.
    pub min_disk_free: crate::rest::config::MinDiskFree,
    /// The versioning configuration.
    pub versioning: Versioning,
    /// Copier routines to use; 0 for the system optimum.
    pub copiers: u64,
    pub hashers: u64,
    /// Unserved request data after which requesting pauses, in kibibytes.
    pub puller_max_pending_kib: u64,
    /// The order in which needed files are pulled.
    pub order: PullOrder,
    /// Whether deletes from other devices are ignored.
    pub ignore_delete: bool,
    /// Seconds between scan progress reports; 0 for the default.
    pub scan_progress_interval_s: u32,
    /// Rate-limit tweak for retried pulls, in seconds.
    pub puller_pause_s: u32,
    /// Conflict copies to keep per file; -1 for unlimited, 0 for none.
    pub max_conflicts: CountWithInfinite,
    /// Whether sparse files are avoided.
    pub disable_sparse_files: bool,
    /// Whether in-progress transfer blocks are withheld from other devices.
    pub disable_temp_indexes: bool,
    /// Whether the folder is (temporarily) suspended.
    pub paused: bool,
    /// Percentage of change above which weak hashing is used; -1 for always.
    pub weak_hash_threshold_pct: CountWithInfinite,
    /// The marker kept in the folder root.
    pub marker_name: String,
    /// Whether ownership is copied from the parent directory.
    pub copy_ownership_from_parent: bool,
    /// Allowed modification time difference when comparing files, in seconds.
    pub mod_time_window_s: u32,
    /// Maximum concurrent write operations while syncing.
    pub max_concurrent_writes: u64,
    /// Whether fsync before recording operations is disabled.
    pub disable_fsync: bool,
    /// The order in which the blocks of a file are downloaded.
    pub block_pull_order: BlockPullOrder,
    /// The method used to copy data between files.
    pub copy_range_method: CopyRangeMethod,
    /// Whether the extra checks for case insensitive file systems are off.
    pub case_sensitive_fs: bool,
    /// Whether NTFS junctions are treated as ordinary directories.
    pub junctions_as_dirs: bool,
}

/// The file system implementation used to access a folder.
#[derive(Copy, Clone, Debug, PartialEq, Eq, Structural, Hash)]
pub enum FilesystemType {
    Basic,
    Fake,
}

/// How a folder is handled.
#[derive(Copy, Clone, Debug, PartialEq, Eq, Structural, Hash)]
pub enum Type {
    /// Send local and accept remote changes.
    SendReceive,
    /// Never modified locally by the daemon.
    SendOnly,
    /// Never propagates local changes.
    ReceiveOnly,
    /// Holds data that cannot be decrypted locally.
    ReceiveEncrypted,
}

/// One device a folder is shared with.
#[derive(Clone, Debug, PartialEq)]
pub struct Device {
    /// The device identifier.
    pub id: String,
    /// Which device introduced us to this device.
    pub introduced_by: String,
    pub encryption_password: String,
}

/// A folder's versioning configuration; its free-form parameters are carried
/// through as raw JSON text.
#[derive(Clone, Debug, PartialEq)]
pub struct Versioning {
    pub ty: String,
    pub params: String,
    pub cleanup_interval_s: u32,
    pub fs_path: String,
    pub fs_type: FilesystemType,
}

/// The order in which needed files are pulled.
#[derive(Copy, Clone, Debug, PartialEq, Eq, Structural, Hash)]
pub enum PullOrder {
    /// In random order.
    Random,
    /// Ordered by file name.
    Alphabetic,
    /// Ordered by size, smallest and largest first respectively.
    SmallestFirst,
    LargestFirst,
    /// Ordered by modification time, oldest and newest first respectively.
    OldestFirst,
    NewestFirst,
}

impl Default for PullOrder {
    /// Random order is the default.
    fn default() -> (r: PullOrder)
        ensures
            r == PullOrder::Random,
    {
        PullOrder::Random
    }
}

/// The order in which the blocks of one file are downloaded.
#[derive(Copy, Clone, Debug, PartialEq, Eq, Structural, Hash)]
pub enum BlockPullOrder {
    /// Each device starts on its own contiguous span, then picks randomly.
    Standard,
    /// Fully random; best distribution, hard on spinning disks.
    Random,
    /// Sequential from start to finish.
    InOrder,
}

impl Default for BlockPullOrder {
    /// The standard split is the default.
    fn default() -> (r: BlockPullOrder)
        ensures
            r == BlockPullOrder::Standard,
    {
        BlockPullOrder::Standard
    }
}

/// The method used to copy data between files.
#[derive(Copy, Clone, Debug, PartialEq, Eq, Structural, Hash)]
pub enum CopyRangeMethod {
    Standard,
    CopyFileRange,
    Ioctl,
    SendFile,
    DuplicateExtents,
    All,
}

impl CopyRangeMethod {
    /// The name of this method on the wire: the variant name in snake case.
    pub open spec fn wire_name(self) -> Seq<char> {
        match self {
            CopyRangeMethod::Standard => "standard"@,
            CopyRangeMethod::CopyFileRange => "copy_file_range"@,
            CopyRangeMethod::Ioctl => "ioctl"@,
            CopyRangeMethod::SendFile => "send_file"@,
            CopyRangeMethod::DuplicateExtents => "duplicate_extents"@,
            CopyRangeMethod::All => "all"@,
        }
    }

    /// Writes this method's wire name.
    pub fn wire_name_str(&self) -> (r: &'static str)
        ensures
            r@ == self.wire_name(),
    {
        match self {
            CopyRangeMethod::Standard => "standard",
            CopyRangeMethod::CopyFileRange => "copy_file_range",
            CopyRangeMethod::Ioctl => "ioctl",
            CopyRangeMethod::SendFile => "send_file",
            CopyRangeMethod::DuplicateExtents => "duplicate_extents",
            CopyRangeMethod::All => "all",
        }
    }

    /// Writes this method as a JSON string: the wire name in double quotes.
    pub fn wire_json(&self) -> (r: String)
        ensures
            r@ == seq!['"'] + self.wire_name() + seq!['"'],
    {
        proof {
            reveal_strlit("\"");
        }
        let mut s = "\"".to_owned();
        s.append(self.wire_name_str());
        s.append("\"");
        proof {
            assert(s@ =~= seq!['"'] + self.wire_name() + seq!['"']);
        }
        s
    }
}

} // verus!
