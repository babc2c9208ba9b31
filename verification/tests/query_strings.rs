use syncthing_client::decimal::{parse_u16_dec, u64_to_decimal, ParseIntReason};
use syncthing_client::rest::events::EventType;
use syncthing_client::routes::{
    config_device_path, config_folder_path, events_path, events_path_and_query,
    system_version_path,
};
use syncthing_client::utils::QueryChars;

#[test]
fn all_three_parameters_in_order() {
    let events = vec![EventType::ConfigSaved, EventType::DevicePaused];
    let built = events_path_and_query(&events, Some(100), Some(10));
    assert_eq!(built, "/rest/events?events=ConfigSaved,DevicePaused&since=100&limit=10");
}

#[test]
fn no_parameters_means_bare_path() {
    let built = events_path_and_query(&Vec::new(), None, None);
    assert_eq!(built, "/rest/events");
}

#[test]
fn each_parameter_alone_gets_the_question_mark() {
    assert_eq!(
        events_path_and_query(&vec![EventType::LoginAttempt], None, None),
        "/rest/events?events=LoginAttempt"
    );
    assert_eq!(events_path_and_query(&Vec::new(), Some(7), None), "/rest/events?since=7");
    assert_eq!(events_path_and_query(&Vec::new(), None, Some(1)), "/rest/events?limit=1");
}

#[test]
fn absent_parameters_leave_no_trace() {
    assert_eq!(
        events_path_and_query(&Vec::new(), Some(0), Some(250)),
        "/rest/events?since=0&limit=250"
    );
    assert_eq!(
        events_path_and_query(&vec![EventType::StateChanged], None, Some(2)),
        "/rest/events?events=StateChanged&limit=2"
    );
}

#[test]
fn query_chars_emits_question_mark_then_ampersands() {
    let mut q = QueryChars::new();
    assert_eq!(q.next_char(), '?');
    assert_eq!(q.next_char(), '&');
    assert_eq!(q.next_char(), '&');
}

#[test]
fn decimal_rendering_is_exact() {
    assert_eq!(u64_to_decimal(0), "0");
    assert_eq!(u64_to_decimal(10), "10");
    assert_eq!(u64_to_decimal(65535), "65535");
    assert_eq!(u64_to_decimal(u64::MAX), "18446744073709551615");
}

#[test]
fn decimal_parsing_round_trips_and_reports_errors() {
    assert_eq!(parse_u16_dec("0"), Ok(0));
    assert_eq!(parse_u16_dec("12345"), Ok(12345));
    assert_eq!(parse_u16_dec("65535"), Ok(65535));
    assert_eq!(parse_u16_dec(""), Err(ParseIntReason::Empty));
    assert_eq!(parse_u16_dec("12x4"), Err(ParseIntReason::InvalidDigit));
    assert_eq!(parse_u16_dec("65536"), Err(ParseIntReason::Overflow));
    assert_eq!(parse_u16_dec("184467440737095516150"), Err(ParseIntReason::Overflow));
}

#[test]
fn fixed_paths_are_exact() {
    assert_eq!(events_path(), "/rest/events");
    assert_eq!(system_version_path(), "/rest/system/version");
    assert_eq!(config_folder_path("default"), "/rest/config/folders/default");
    assert_eq!(config_device_path("abc"), "/rest/config/devices/abc");
}

#[test]
fn tags_round_trip_through_parsing() {
    let all = vec![
        EventType::ConfigSaved,
        EventType::DeviceConnected,
        EventType::DeviceDisconnected,
        EventType::DeviceDiscovered,
        EventType::DevicePaused,
        EventType::DeviceRejected,
        EventType::DeviceResumed,
        EventType::DownloadProgress,
        EventType::FolderCompletion,
        EventType::FolderErrors,
        EventType::FolderRejected,
        EventType::FolderScanProgress,
        EventType::FolderSummary,
        EventType::ItemFinished,
        EventType::ItemStarted,
        EventType::ListenAddressesChanged,
        EventType::LocalChangeDetected,
        EventType::LocalIndexUpdated,
        EventType::LoginAttempt,
        EventType::RemoteChangeDetected,
        EventType::RemoteDownloadProgress,
        EventType::RemoteIndexUpdated,
        EventType::Starting,
        EventType::StartupComplete,
        EventType::StateChanged,
    ];
    for t in all {
        assert_eq!(EventType::from_tag(t.tag_str()), Some(t));
    }
    assert_eq!(EventType::from_tag("NoSuchEvent"), None);
    assert_eq!(EventType::from_tag(""), None);
}
