use vstd::prelude::*;

use crate::decimal::{dec_rep, u64_to_decimal};
use crate::rest::events::EventType;
use crate::utils::QueryChars;

verus! {

broadcast use vstd::string::group_string_axioms;

/// The comma-joined wire tags of a filter list.
pub open spec fn tag_join(events: Seq<EventType>) -> Seq<char>
    decreases events.len(),
{
    if events.len() == 0 {
        Seq::empty()
    } else if events.len() == 1 {
        events[0].tag()
    } else {
        tag_join(events.drop_last()) + seq![','] + events.last().tag()
    }
}

/// The separator written before a query parameter: `?` before the first,
/// `&` before every later one.
pub open spec fn param_sep(first: bool) -> Seq<char> {
    if first {
        seq!['?']
    } else {
        seq!['&']
    }
}

/// The path and query of an event-listing request. Each present parameter is
/// appended in the order events, since, limit; absent parameters leave no
/// trace, and a request without parameters is the bare path.
pub open spec fn events_query(events: Seq<EventType>, since: Option<u64>, limit: Option<u64>) -> Seq<
    char,
> {
    let p0 = "/rest/events"@;
    let p1 = if events.len() > 0 {
        p0 + param_sep(true) + "events="@ + tag_join(events)
    } else {
        p0
    };
    let p2 = if since is Some {
        p1 + param_sep(events.len() == 0) + "since="@ + dec_rep(since->0 as nat)
    } else {
        p1
    };
    if limit is Some {
        p2 + param_sep(events.len() == 0 && since is None) + "limit="@ + dec_rep(limit->0 as nat)
    } else {
        p2
    }
}

fn append_sep(s: &mut String, c: char)
    requires
        c == '?' || c == '&',
    ensures
        final(s)@ == old(s)@ + seq![c],
{
    proof {
        reveal_strlit("?");
        reveal_strlit("&");
    }
    if c == '?' {
        s.append("?");
        proof {
            assert(final(s)@ =~= old(s)@ + seq![c]);
        }
    } else {
        s.append("&");
        proof {
            assert(final(s)@ =~= old(s)@ + seq![c]);
        }
    }
}

/// Builds the path and query for an event-listing request.
pub fn events_path_and_query(events: &Vec<EventType>, since: Option<u64>, limit: Option<u64>) -> (r:
    String)
    ensures
        r@ == events_query(events@, since, limit),
{
    let mut path = events_path();
    let mut q = QueryChars::new();
    if events.len() > 0 {
        let c = q.next_char();
        append_sep(&mut path, c);
        path.append("events=");
        let ghost prefix = path@;
        let mut i: usize = 0;
        while i < events.len()
            invariant
                0 < events.len(),
                0 <= i <= events.len(),
                path@ == prefix + tag_join(events@.take(i as int)),
            decreases events.len() - i,
        {
            if i > 0 {
                proof {
                    reveal_strlit(",");
                }
                path.append(",");
                proof {
                    assert(path@ =~= prefix + tag_join(events@.take(i as int)) + seq![',']);
                }
            }
            path.append(events[i].tag_str());
            proof {
                let pre = events@.take(i as int);
                let cur = events@.take(i + 1 as int);
                if i == 0 {
                    assert(cur =~= seq![events@[0]]);
                    assert(tag_join(cur) == events@[0].tag());
                    assert(path@ =~= prefix + tag_join(cur));
                } else {
                    assert(cur.drop_last() =~= pre);
                    assert(cur.last() == events@[i as int]);
                    assert(tag_join(cur) == tag_join(pre) + seq![','] + events@[i as int].tag());
                    assert(path@ =~= prefix + tag_join(cur));
                }
            }
            i = i + 1;
        }
        proof {
            assert(events@.take(events@.len() as int) =~= events@);
        }
    }
    if let Some(n) = since {
        let c = q.next_char();
        append_sep(&mut path, c);
        path.append("since=");
        let rendered = u64_to_decimal(n);
        path.append(rendered.as_str());
    }
    if let Some(n) = limit {
        let c = q.next_char();
        append_sep(&mut path, c);
        path.append("limit=");
        let rendered = u64_to_decimal(n);
        path.append(rendered.as_str());
    }
    proof {
        assert(path@ =~= events_query(events@, since, limit));
    }
    path
}

/// The event-listing endpoint.
pub fn events_path() -> (r: String)
    ensures
        r@ == "/rest/events"@,
{
    "/rest/events".to_owned()
}

/// The system connections endpoint.
pub fn system_connections_path() -> (r: String)
    ensures
        r@ == "/rest/system/connections"@,
{
    "/rest/system/connections".to_owned()
}

/// The system debug endpoint.
pub fn system_debug_path() -> (r: String)
    ensures
        r@ == "/rest/system/debug"@,
{
    "/rest/system/debug".to_owned()
}

/// The system discovery endpoint.
pub fn system_discovery_path() -> (r: String)
    ensures
        r@ == "/rest/system/discovery"@,
{
    "/rest/system/discovery".to_owned()
}

/// The system log endpoint.
pub fn system_log_path() -> (r: String)
    ensures
        r@ == "/rest/system/log"@,
{
    "/rest/system/log".to_owned()
}

/// The system error endpoint.
pub fn system_error_path() -> (r: String)
    ensures
        r@ == "/rest/system/error"@,
{
    "/rest/system/error".to_owned()
}

/// The system ping endpoint.
pub fn system_ping_path() -> (r: String)
    ensures
        r@ == "/rest/system/ping"@,
{
    "/rest/system/ping".to_owned()
}

/// The system upgrade endpoint.
pub fn system_upgrade_path() -> (r: String)
    ensures
        r@ == "/rest/system/upgrade"@,
{
    "/rest/system/upgrade".to_owned()
}

/// The system version endpoint.
pub fn system_version_path() -> (r: String)
    ensures
        r@ == "/rest/system/version"@,
{
    "/rest/system/version".to_owned()
}

/// The whole-configuration endpoint.
pub fn config_path() -> (r: String)
    ensures
        r@ == "/rest/config"@,
{
    "/rest/config".to_owned()
}

/// The restart-required endpoint.
pub fn config_restart_required_path() -> (r: String)
    ensures
        r@ == "/rest/config/restart-required"@,
{
    "/rest/config/restart-required".to_owned()
}

/// The folder-collection endpoint.
pub fn config_folders_path() -> (r: String)
    ensures
        r@ == "/rest/config/folders"@,
{
    "/rest/config/folders".to_owned()
}

/// The device-collection endpoint.
pub fn config_devices_path() -> (r: String)
    ensures
        r@ == "/rest/config/devices"@,
{
    "/rest/config/devices".to_owned()
}

/// The endpoint of one folder, by its identifier.
pub fn config_folder_path(id: &str) -> (r: String)
    ensures
        r@ == "/rest/config/folders/"@ + id@,
{
    let mut p = "/rest/config/folders/".to_owned();
    p.append(id);
    p
}

/// The endpoint of one device, by its identifier.
pub fn config_device_path(id: &str) -> (r: String)
    ensures
        r@ == "/rest/config/devices/"@ + id@,
{
    let mut p = "/rest/config/devices/".to_owned();
    p.append(id);
    p
}

/// The default-folder endpoint.
pub fn config_defaults_folder_path() -> (r: String)
    ensures
        r@ == "/rest/config/defaults/folder"@,
{
    "/rest/config/defaults/folder".to_owned()
}

/// The default-device endpoint.
pub fn config_defaults_device_path() -> (r: String)
    ensures
        r@ == "/rest/config/defaults/device"@,
{
    "/rest/config/defaults/device".to_owned()
}

/// The default-ignores endpoint.
pub fn config_defaults_ignores_path() -> (r: String)
    ensures
        r@ == "/rest/config/defaults/ignores"@,
{
    "/rest/config/defaults/ignores".to_owned()
}

/// The options endpoint.
pub fn config_options_path() -> (r: String)
    ensures
        r@ == "/rest/config/options"@,
{
    "/rest/config/options".to_owned()
}

/// The LDAP configuration endpoint.
pub fn config_ldap_path() -> (r: String)
    ensures
        r@ == "/rest/config/ldap"@,
{
    "/rest/config/ldap".to_owned()
}

/// The GUI configuration endpoint.
pub fn config_gui_path() -> (r: String)
    ensures
        r@ == "/rest/config/gui"@,
{
    "/rest/config/gui".to_owned()
}

} // verus!
