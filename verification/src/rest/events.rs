use vstd::prelude::*;

use crate::rest::File;
use crate::utils::str_eq;
use std::collections::HashMap;

verus! {

broadcast use vstd::string::group_string_axioms;

/// The discriminant of an event envelope: one fixed tag per event kind.
#[derive(Copy, Clone, Debug, PartialEq, Eq, Structural, Hash)]
pub enum EventType {
    ConfigSaved,
    DeviceConnected,
    DeviceDisconnected,
    DeviceDiscovered,
    DevicePaused,
    DeviceRejected,
    DeviceResumed,
    DownloadProgress,
    FolderCompletion,
    FolderErrors,
    FolderRejected,
    FolderScanProgress,
    FolderSummary,
    ItemFinished,
    ItemStarted,
    ListenAddressesChanged,
    LocalChangeDetected,
    LocalIndexUpdated,
    LoginAttempt,
    RemoteChangeDetected,
    RemoteDownloadProgress,
    RemoteIndexUpdated,
    Starting,
    StartupComplete,
    StateChanged,
}

impl EventType {
    /// The wire tag of this event type, as the daemon writes it.
    pub open spec fn tag(self) -> Seq<char> {
        match self {
            EventType::ConfigSaved => "ConfigSaved"@,
            EventType::DeviceConnected => "DeviceConnected"@,
            EventType::DeviceDisconnected => "DeviceDisconnected"@,
            EventType::DeviceDiscovered => "DeviceDiscovered"@,
            EventType::DevicePaused => "DevicePaused"@,
            EventType::DeviceRejected => "DeviceRejected"@,
            EventType::DeviceResumed => "DeviceResumed"@,
            EventType::DownloadProgress => "DownloadProgress"@,
            EventType::FolderCompletion => "FolderCompletion"@,
            EventType::FolderErrors => "FolderErrors"@,
            EventType::FolderRejected => "FolderRejected"@,
            EventType::FolderScanProgress => "FolderScanProgress"@,
            EventType::FolderSummary => "FolderSummary"@,
            EventType::ItemFinished => "ItemFinished"@,
            EventType::ItemStarted => "ItemStarted"@,
            EventType::ListenAddressesChanged => "ListenAddressesChanged"@,
            EventType::LocalChangeDetected => "LocalChangeDetected"@,
            EventType::LocalIndexUpdated => "LocalIndexUpdated"@,
            EventType::LoginAttempt => "LoginAttempt"@,
            EventType::RemoteChangeDetected => "RemoteChangeDetected"@,
            EventType::RemoteDownloadProgress => "RemoteDownloadProgress"@,
            EventType::RemoteIndexUpdated => "RemoteIndexUpdated"@,
            EventType::Starting => "Starting"@,
            EventType::StartupComplete => "StartupComplete"@,
            EventType::StateChanged => "StateChanged"@,
        }
    }

    /// The event type whose wire tag is `s`, if any.
    pub open spec fn spec_from_tag(s: Seq<char>) -> Option<EventType> {
        if s == "ConfigSaved"@ {
            Some(EventType::ConfigSaved)
        } else if s == "DeviceConnected"@ {
            Some(EventType::DeviceConnected)
        } else if s == "DeviceDisconnected"@ {
            Some(EventType::DeviceDisconnected)
        } else if s == "DeviceDiscovered"@ {
            Some(EventType::DeviceDiscovered)
        } else if s == "DevicePaused"@ {
            Some(EventType::DevicePaused)
        } else if s == "DeviceRejected"@ {
            Some(EventType::DeviceRejected)
        } else if s == "DeviceResumed"@ {
            Some(EventType::DeviceResumed)
        } else if s == "DownloadProgress"@ {
            Some(EventType::DownloadProgress)
        } else if s == "FolderCompletion"@ {
            Some(EventType::FolderCompletion)
        } else if s == "FolderErrors"@ {
            Some(EventType::FolderErrors)
        } else if s == "FolderRejected"@ {
            Some(EventType::FolderRejected)
        } else if s == "FolderScanProgress"@ {
            Some(EventType::FolderScanProgress)
        } else if s == "FolderSummary"@ {
            Some(EventType::FolderSummary)
        } else if s == "ItemFinished"@ {
            Some(EventType::ItemFinished)
        } else if s == "ItemStarted"@ {
            Some(EventType::ItemStarted)
        } else if s == "ListenAddressesChanged"@ {
            Some(EventType::ListenAddressesChanged)
        } else if s == "LocalChangeDetected"@ {
            Some(EventType::LocalChangeDetected)
        } else if s == "LocalIndexUpdated"@ {
            Some(EventType::LocalIndexUpdated)
        } else if s == "LoginAttempt"@ {
            Some(EventType::LoginAttempt)
        } else if s == "RemoteChangeDetected"@ {
            Some(EventType::RemoteChangeDetected)
        } else if s == "RemoteDownloadProgress"@ {
            Some(EventType::RemoteDownloadProgress)
        } else if s == "RemoteIndexUpdated"@ {
            Some(EventType::RemoteIndexUpdated)
        } else if s == "Starting"@ {
            Some(EventType::Starting)
        } else if s == "StartupComplete"@ {
            Some(EventType::StartupComplete)
        } else if s == "StateChanged"@ {
            Some(EventType::StateChanged)
        } else {
            None
        }
    }

    /// Writes this event type's wire tag.
    pub fn tag_str(&self) -> (r: &'static str)
        ensures
            r@ == self.tag(),
    {
        match self {
            EventType::ConfigSaved => "ConfigSaved",
            EventType::DeviceConnected => "DeviceConnected",
            EventType::DeviceDisconnected => "DeviceDisconnected",
            EventType::DeviceDiscovered => "DeviceDiscovered",
            EventType::DevicePaused => "DevicePaused",
            EventType::DeviceRejected => "DeviceRejected",
            EventType::DeviceResumed => "DeviceResumed",
            EventType::DownloadProgress => "DownloadProgress",
            EventType::FolderCompletion => "FolderCompletion",
            EventType::FolderErrors => "FolderErrors",
            EventType::FolderRejected => "FolderRejected",
            EventType::FolderScanProgress => "FolderScanProgress",
            EventType::FolderSummary => "FolderSummary",
            EventType::ItemFinished => "ItemFinished",
            EventType::ItemStarted => "ItemStarted",
            EventType::ListenAddressesChanged => "ListenAddressesChanged",
            EventType::LocalChangeDetected => "LocalChangeDetected",
            EventType::LocalIndexUpdated => "LocalIndexUpdated",
            EventType::LoginAttempt => "LoginAttempt",
            EventType::RemoteChangeDetected => "RemoteChangeDetected",
            EventType::RemoteDownloadProgress => "RemoteDownloadProgress",
            EventType::RemoteIndexUpdated => "RemoteIndexUpdated",
            EventType::Starting => "Starting",
            EventType::StartupComplete => "StartupComplete",
            EventType::StateChanged => "StateChanged",
        }
    }

    /// Reads a wire tag back into an event type.
    pub fn from_tag(s: &str) -> (r: Option<EventType>)
        ensures
            r == EventType::spec_from_tag(s@),
    {
        if str_eq(s, "ConfigSaved") {
            Some(EventType::ConfigSaved)
        } else if str_eq(s, "DeviceConnected") {
            Some(EventType::DeviceConnected)
        } else if str_eq(s, "DeviceDisconnected") {
            Some(EventType::DeviceDisconnected)
        } else if str_eq(s, "DeviceDiscovered") {
            Some(EventType::DeviceDiscovered)
        } else if str_eq(s, "DevicePaused") {
            Some(EventType::DevicePaused)
        } else if str_eq(s, "DeviceRejected") {
            Some(EventType::DeviceRejected)
        } else if str_eq(s, "DeviceResumed") {
            Some(EventType::DeviceResumed)
        } else if str_eq(s, "DownloadProgress") {
            Some(EventType::DownloadProgress)
        } else if str_eq(s, "FolderCompletion") {
            Some(EventType::FolderCompletion)
        } else if str_eq(s, "FolderErrors") {
            Some(EventType::FolderErrors)
        } else if str_eq(s, "FolderRejected") {
            Some(EventType::FolderRejected)
        } else if str_eq(s, "FolderScanProgress") {
            Some(EventType::FolderScanProgress)
        } else if str_eq(s, "FolderSummary") {
            Some(EventType::FolderSummary)
        } else if str_eq(s, "ItemFinished") {
            Some(EventType::ItemFinished)
        } else if str_eq(s, "ItemStarted") {
            Some(EventType::ItemStarted)
        } else if str_eq(s, "ListenAddressesChanged") {
            Some(EventType::ListenAddressesChanged)
        } else if str_eq(s, "LocalChangeDetected") {
            Some(EventType::LocalChangeDetected)
        } else if str_eq(s, "LocalIndexUpdated") {
            Some(EventType::LocalIndexUpdated)
        } else if str_eq(s, "LoginAttempt") {
            Some(EventType::LoginAttempt)
        } else if str_eq(s, "RemoteChangeDetected") {
            Some(EventType::RemoteChangeDetected)
        } else if str_eq(s, "RemoteDownloadProgress") {
            Some(EventType::RemoteDownloadProgress)
        } else if str_eq(s, "RemoteIndexUpdated") {
            Some(EventType::RemoteIndexUpdated)
        } else if str_eq(s, "Starting") {
            Some(EventType::Starting)
        } else if str_eq(s, "StartupComplete") {
            Some(EventType::StartupComplete)
        } else if str_eq(s, "StateChanged") {
            Some(EventType::StateChanged)
        } else {
            None
        }
    }
}

/// Reading a tag that was written gives the event type back: the wire tags
/// are pairwise distinct.
pub proof fn lemma_tag_round_trip(t: EventType)
    ensures
        EventType::spec_from_tag(t.tag()) == Some(t),
{
    reveal_strlit("ConfigSaved");
    reveal_strlit("DeviceConnected");
    reveal_strlit("DeviceDisconnected");
    reveal_strlit("DeviceDiscovered");
    reveal_strlit("DevicePaused");
    reveal_strlit("DeviceRejected");
    reveal_strlit("DeviceResumed");
    reveal_strlit("DownloadProgress");
    reveal_strlit("FolderCompletion");
    reveal_strlit("FolderErrors");
    reveal_strlit("FolderRejected");
    reveal_strlit("FolderScanProgress");
    reveal_strlit("FolderSummary");
    reveal_strlit("ItemFinished");
    reveal_strlit("ItemStarted");
    reveal_strlit("ListenAddressesChanged");
    reveal_strlit("LocalChangeDetected");
    reveal_strlit("LocalIndexUpdated");
    reveal_strlit("LoginAttempt");
    reveal_strlit("RemoteChangeDetected");
    reveal_strlit("RemoteDownloadProgress");
    reveal_strlit("RemoteIndexUpdated");
    reveal_strlit("Starting");
    reveal_strlit("StartupComplete");
    reveal_strlit("StateChanged");
    assert("ConfigSaved"@.len() == 11);
    assert("DeviceConnected"@.len() == 15);
    assert("DeviceDisconnected"@.len() == 18);
    assert("DeviceDiscovered"@.len() == 16);
    assert("DevicePaused"@.len() == 12);
    assert("DeviceRejected"@.len() == 14);
    assert("DeviceResumed"@.len() == 13);
    assert("DownloadProgress"@.len() == 16);
    assert("FolderCompletion"@.len() == 16);
    assert("FolderErrors"@.len() == 12);
    assert("FolderRejected"@.len() == 14);
    assert("FolderScanProgress"@.len() == 18);
    assert("FolderSummary"@.len() == 13);
    assert("ItemFinished"@.len() == 12);
    assert("ItemStarted"@.len() == 11);
    assert("ListenAddressesChanged"@.len() == 22);
    assert("LocalChangeDetected"@.len() == 19);
    assert("LocalIndexUpdated"@.len() == 17);
    assert("LoginAttempt"@.len() == 12);
    assert("RemoteChangeDetected"@.len() == 20);
    assert("RemoteDownloadProgress"@.len() == 22);
    assert("RemoteIndexUpdated"@.len() == 18);
    assert("Starting"@.len() == 8);
    assert("StartupComplete"@.len() == 15);
    assert("StateChanged"@.len() == 12);
    assert("ConfigSaved"@[0] == 'C');
    assert("ItemStarted"@[0] == 'I');
    assert("DeviceConnected"@[0] == 'D');
    assert("StartupComplete"@[0] == 'S');
    assert("DeviceDisconnected"@[0] == 'D');
    assert("FolderScanProgress"@[0] == 'F');
    assert("RemoteIndexUpdated"@[0] == 'R');
    assert("DeviceDiscovered"@[1] == 'e');
    assert("DownloadProgress"@[1] == 'o');
    assert("FolderCompletion"@[0] == 'F');
    assert("DevicePaused"@[0] == 'D');
    assert("FolderErrors"@[0] == 'F');
    assert("ItemFinished"@[0] == 'I');
    assert("LoginAttempt"@[0] == 'L');
    assert("StateChanged"@[0] == 'S');
    assert("DeviceRejected"@[0] == 'D');
    assert("FolderRejected"@[0] == 'F');
    assert("DeviceResumed"@[0] == 'D');
    assert("FolderSummary"@[0] == 'F');
    assert("ListenAddressesChanged"@[0] == 'L');
    assert("RemoteDownloadProgress"@[0] == 'R');
    match t {
        EventType::ConfigSaved => assert(EventType::spec_from_tag(t.tag()) == Some(t)),
        EventType::DeviceConnected => assert(EventType::spec_from_tag(t.tag()) == Some(t)),
        EventType::DeviceDisconnected => assert(EventType::spec_from_tag(t.tag()) == Some(t)),
        EventType::DeviceDiscovered => assert(EventType::spec_from_tag(t.tag()) == Some(t)),
        EventType::DevicePaused => assert(EventType::spec_from_tag(t.tag()) == Some(t)),
        EventType::DeviceRejected => assert(EventType::spec_from_tag(t.tag()) == Some(t)),
        EventType::DeviceResumed => assert(EventType::spec_from_tag(t.tag()) == Some(t)),
        EventType::DownloadProgress => assert(EventType::spec_from_tag(t.tag()) == Some(t)),
        EventType::FolderCompletion => assert(EventType::spec_from_tag(t.tag()) == Some(t)),
        EventType::FolderErrors => assert(EventType::spec_from_tag(t.tag()) == Some(t)),
        EventType::FolderRejected => assert(EventType::spec_from_tag(t.tag()) == Some(t)),
        EventType::FolderScanProgress => assert(EventType::spec_from_tag(t.tag()) == Some(t)),
        EventType::FolderSummary => assert(EventType::spec_from_tag(t.tag()) == Some(t)),
        EventType::ItemFinished => assert(EventType::spec_from_tag(t.tag()) == Some(t)),
        EventType::ItemStarted => assert(EventType::spec_from_tag(t.tag()) == Some(t)),
        EventType::ListenAddressesChanged => assert(EventType::spec_from_tag(t.tag()) == Some(t)),
        EventType::LocalChangeDetected => assert(EventType::spec_from_tag(t.tag()) == Some(t)),
        EventType::LocalIndexUpdated => assert(EventType::spec_from_tag(t.tag()) == Some(t)),
        EventType::LoginAttempt => assert(EventType::spec_from_tag(t.tag()) == Some(t)),
        EventType::RemoteChangeDetected => assert(EventType::spec_from_tag(t.tag()) == Some(t)),
        EventType::RemoteDownloadProgress => assert(EventType::spec_from_tag(t.tag()) == Some(t)),
        EventType::RemoteIndexUpdated => assert(EventType::spec_from_tag(t.tag()) == Some(t)),
        EventType::Starting => assert(EventType::spec_from_tag(t.tag()) == Some(t)),
        EventType::StartupComplete => assert(EventType::spec_from_tag(t.tag()) == Some(t)),
        EventType::StateChanged => assert(EventType::spec_from_tag(t.tag()) == Some(t)),
    }
}

#[derive(Clone, Debug, PartialEq)]
pub struct ConfigSavedEvent {
    pub version: u64,
}

#[derive(Clone, Debug, PartialEq)]
pub struct DeviceConnectedEvent {
    pub addr: String,
    pub device_id: String,
    pub device_name: String,
    pub client_name: String,
    pub client_version: String,
    pub client_type: String,
}

#[derive(Clone, Debug, PartialEq)]
pub struct DeviceDisconnectedEvent {
    pub device_id: String,
    pub error: String,
}

#[derive(Clone, Debug, PartialEq)]
pub struct DeviceDiscoveredEvent {
    pub device_id: String,
    pub addrs: Vec<String>,
}

#[derive(Clone, Debug, PartialEq)]
pub struct DevicePausedEvent {
    pub device_id: String,
}

#[derive(Clone, Debug, PartialEq)]
pub struct DeviceRejectedEvent {
    pub device_id: String,
    pub name: String,
    pub address: String,
}

#[derive(Clone, Debug, PartialEq)]
pub struct DeviceResumedEvent {
    pub device_id: String,
}

/// Folder completion as reported by the daemon. The completion percentage is
/// a fractional number on the wire; it is carried through as text.
#[derive(Clone, Debug, PartialEq)]
pub struct FolderCompletionEvent {
    pub device_id: String,
    pub folder_id: String,
    pub completion: String,
    pub global_bytes: u64,
    pub need_bytes: u64,
    pub need_deletes: u64,
    pub need_items: u64,
}

#[derive(Clone, Debug, PartialEq)]
pub struct FolderErrorsEvent {
    pub folder: String,
    pub errors: Vec<FolderError>,
}

#[derive(Clone, Debug, PartialEq)]
pub struct FolderError {
    pub error: String,
    pub path: String,
}

#[derive(Clone, Debug, PartialEq)]
pub struct FolderRejectedEvent {
    pub device_id: String,
    pub folder_id: String,
    pub folder_label: String,
}

#[derive(Clone, Debug, PartialEq)]
pub struct FolderScanProgressEvent {
    pub total: u64,
    pub rate: u64,
    pub current: u64,
    pub folder_id: String,
}

#[derive(Clone, Debug, PartialEq)]
pub struct FolderSummaryEvent {
    pub folder: String,
    pub summary: FolderSummaryData,
}

#[derive(Clone, Debug, PartialEq)]
pub struct FolderSummaryData {
    pub global_bytes: u64,
    pub global_deleted: u64,
    pub global_directories: u64,
    pub global_files: u64,
    pub global_symlinks: u64,
    pub global_total_items: u64,
    pub ignore_patterns: bool,
    pub in_sync_bytes: u64,
    pub in_sync_files: u64,
    pub invalid: Option<String>,
    pub local_bytes: u64,
    pub local_deleted: u64,
    pub local_directories: u64,
    pub local_files: u64,
    pub local_symlinks: u64,
    pub local_total_items: u64,
    pub need_bytes: u64,
    pub need_deletes: u64,
    pub need_directories: u64,
    pub need_files: u64,
    pub need_symlinks: u64,
    pub need_total_items: u64,
    pub pull_errors: u64,
    pub sequence: u64,
    pub state: String,
    pub state_changed: String,
    pub version: u64,
}

/// What happened to an item that finished or started syncing.
#[derive(Copy, Clone, Debug, PartialEq, Eq, Structural)]
pub enum ItemAction {
    Update,
    Metadata,
    Delete,
}

#[derive(Clone, Debug, PartialEq)]
pub struct ItemFinishedEvent {
    pub item: String,
    pub folder: String,
    pub error: Option<String>,
    pub item_type: String,
    pub action: ItemAction,
}

#[derive(Clone, Debug, PartialEq)]
pub struct ItemStartedEvent {
    pub item: String,
    pub folder: String,
    pub item_type: String,
    pub action: ItemAction,
}

#[derive(Clone, Debug, PartialEq)]
pub struct ListenAddressesChangedEvent {
}

#[derive(Clone, Debug, PartialEq)]
pub struct LocalChangeDetectedEvent {
    pub action: String,
    pub folder_id: String,
    pub label: String,
    pub path: String,
    pub item_type: String,
}

#[derive(Clone, Debug, PartialEq)]
pub struct LocalIndexUpdatedEvent {
    pub folder_id: String,
    pub items: u64,
    pub version: u64,
    pub filenames: Vec<String>,
}

#[derive(Clone, Debug, PartialEq)]
pub struct LoginAttemptEvent {
    pub username: String,
    pub success: bool,
}

#[derive(Clone, Debug, PartialEq)]
pub struct RemoteChangeDetectedEvent {
    pub action: String,
    pub folder_id: String,
    pub label: String,
    pub path: String,
    pub item_type: String,
    pub modified_by: String,
}

#[derive(Clone, Debug, PartialEq)]
pub struct RemoteDownloadProgressEvent {
    pub device_id: String,
    pub folder: String,
    pub state: HashMap<String, u64>,
}

#[derive(Clone, Debug, PartialEq)]
pub struct RemoteIndexUpdatedEvent {
    pub device_id: String,
    pub folder_id: String,
    pub items: u64,
    pub version: u64,
}

#[derive(Clone, Debug, PartialEq)]
pub struct StartingEvent {
    pub device_id: String,
    pub home: String,
}

/// The states a folder cycles through while scanning and syncing.
#[derive(Copy, Clone, Debug, PartialEq, Eq, Structural)]
pub enum FolderState {
    Idle,
    Scanning,
    ScanWaiting,
    SyncPreparing,
    SyncWaiting,
    Syncing,
    Error,
    Unknown,
}

/// A folder state transition. The duration is a fractional number of seconds
/// on the wire; it is carried through as text.
#[derive(Clone, Debug, PartialEq)]
pub struct StateChangedEvent {
    pub folder_id: String,
    pub duration: Option<String>,
    pub from: FolderState,
    pub to: FolderState,
    pub error: Option<String>,
}

/// The decoded payload of an event: one variant per event type.
#[derive(Clone, Debug, PartialEq)]
pub enum EventData {
    ConfigSaved(ConfigSavedEvent),
    DeviceConnected(DeviceConnectedEvent),
    DeviceDisconnected(DeviceDisconnectedEvent),
    DeviceDiscovered(DeviceDiscoveredEvent),
    DevicePaused(DevicePausedEvent),
    DeviceRejected(DeviceRejectedEvent),
    DeviceResumed(DeviceResumedEvent),
    DownloadProgress(HashMap<String, HashMap<String, File>>),
    FolderCompletion(FolderCompletionEvent),
    FolderErrors(FolderErrorsEvent),
    FolderRejected(FolderRejectedEvent),
    FolderScanProgress(FolderScanProgressEvent),
    FolderSummary(Box<FolderSummaryEvent>),
    ItemFinished(ItemFinishedEvent),
    ItemStarted(ItemStartedEvent),
    ListenAddressesChanged(ListenAddressesChangedEvent),
    LocalChangeDetected(LocalChangeDetectedEvent),
    LocalIndexUpdated(LocalIndexUpdatedEvent),
    LoginAttempt(LoginAttemptEvent),
    RemoteChangeDetected(RemoteChangeDetectedEvent),
    RemoteDownloadProgress(RemoteDownloadProgressEvent),
    RemoteIndexUpdated(RemoteIndexUpdatedEvent),
    Starting(StartingEvent),
    StartupComplete,
    StateChanged(StateChangedEvent),
}

impl EventData {
    /// The event type this payload belongs to.
    pub open spec fn spec_event_type(&self) -> EventType {
        match self {
            EventData::ConfigSaved(_) => EventType::ConfigSaved,
            EventData::DeviceConnected(_) => EventType::DeviceConnected,
            EventData::DeviceDisconnected(_) => EventType::DeviceDisconnected,
            EventData::DeviceDiscovered(_) => EventType::DeviceDiscovered,
            EventData::DevicePaused(_) => EventType::DevicePaused,
            EventData::DeviceRejected(_) => EventType::DeviceRejected,
            EventData::DeviceResumed(_) => EventType::DeviceResumed,
            EventData::DownloadProgress(_) => EventType::DownloadProgress,
            EventData::FolderCompletion(_) => EventType::FolderCompletion,
            EventData::FolderErrors(_) => EventType::FolderErrors,
            EventData::FolderRejected(_) => EventType::FolderRejected,
            EventData::FolderScanProgress(_) => EventType::FolderScanProgress,
            EventData::FolderSummary(_) => EventType::FolderSummary,
            EventData::ItemFinished(_) => EventType::ItemFinished,
            EventData::ItemStarted(_) => EventType::ItemStarted,
            EventData::ListenAddressesChanged(_) => EventType::ListenAddressesChanged,
            EventData::LocalChangeDetected(_) => EventType::LocalChangeDetected,
            EventData::LocalIndexUpdated(_) => EventType::LocalIndexUpdated,
            EventData::LoginAttempt(_) => EventType::LoginAttempt,
            EventData::RemoteChangeDetected(_) => EventType::RemoteChangeDetected,
            EventData::RemoteDownloadProgress(_) => EventType::RemoteDownloadProgress,
            EventData::RemoteIndexUpdated(_) => EventType::RemoteIndexUpdated,
            EventData::Starting(_) => EventType::Starting,
            EventData::StartupComplete => EventType::StartupComplete,
            EventData::StateChanged(_) => EventType::StateChanged,
        }
    }

    /// Reports the event type this payload belongs to.
    pub fn event_type(&self) -> (r: EventType)
        ensures
            r == self.spec_event_type(),
    {
        match self {
            EventData::ConfigSaved(_) => EventType::ConfigSaved,
            EventData::DeviceConnected(_) => EventType::DeviceConnected,
            EventData::DeviceDisconnected(_) => EventType::DeviceDisconnected,
            EventData::DeviceDiscovered(_) => EventType::DeviceDiscovered,
            EventData::DevicePaused(_) => EventType::DevicePaused,
            EventData::DeviceRejected(_) => EventType::DeviceRejected,
            EventData::DeviceResumed(_) => EventType::DeviceResumed,
            EventData::DownloadProgress(_) => EventType::DownloadProgress,
            EventData::FolderCompletion(_) => EventType::FolderCompletion,
            EventData::FolderErrors(_) => EventType::FolderErrors,
            EventData::FolderRejected(_) => EventType::FolderRejected,
            EventData::FolderScanProgress(_) => EventType::FolderScanProgress,
            EventData::FolderSummary(_) => EventType::FolderSummary,
            EventData::ItemFinished(_) => EventType::ItemFinished,
            EventData::ItemStarted(_) => EventType::ItemStarted,
            EventData::ListenAddressesChanged(_) => EventType::ListenAddressesChanged,
            EventData::LocalChangeDetected(_) => EventType::LocalChangeDetected,
            EventData::LocalIndexUpdated(_) => EventType::LocalIndexUpdated,
            EventData::LoginAttempt(_) => EventType::LoginAttempt,
            EventData::RemoteChangeDetected(_) => EventType::RemoteChangeDetected,
            EventData::RemoteDownloadProgress(_) => EventType::RemoteDownloadProgress,
            EventData::RemoteIndexUpdated(_) => EventType::RemoteIndexUpdated,
            EventData::Starting(_) => EventType::Starting,
            EventData::StartupComplete => EventType::StartupComplete,
            EventData::StateChanged(_) => EventType::StateChanged,
        }
    }
}

/// A decoded event: the envelope fields together with the typed payload.
#[derive(Clone, Debug, PartialEq)]
pub struct Event {
    pub id: u64,
    pub global_id: u64,
    pub time: String,
    pub data: EventData,
}

} // verus!
