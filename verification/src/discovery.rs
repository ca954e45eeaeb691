//! LAN discovery over mDNS: the service record a host announces and the way a scan
//! turns resolved services into device records.

use vstd::prelude::*;

pub mod announcement;

pub use announcement::ServiceAnnouncement;
use announcement::new_service_info;

verus! {

/// Port announced for screen streaming.
pub const DEFAULT_PORT: u16 = 9095;

/// How long a scan keeps listening, in milliseconds.
pub const SCAN_WINDOW_MS: u64 = 3000;

/// How long a scan waits for the next event before it gives up, in milliseconds.
pub const RECEIVE_TIMEOUT_MS: u64 = 500;

/// The mDNS service type of this application.
pub open spec fn service_type_text() -> Seq<char> {
    "_rjremote._tcp.local."@
}

/// The mDNS service type of this application.
pub fn service_type() -> (s: &'static str)
    ensures
        s@ == service_type_text(),
{
    "_rjremote._tcp.local."
}

/// A device found on the local network.
pub struct DeviceInfo {
    pub name: String,
    pub ip: String,
    pub port: u16,
    pub os: String,
}

// ---------------------------------------------------------------------------
// Announcing this device
// ---------------------------------------------------------------------------

/// `s` with every space replaced by a hyphen.
pub open spec fn spaces_to_dashes(s: Seq<char>) -> Seq<char> {
    s.map_values(|c: char| if c == ' ' { '-' } else { c })
}

/// `s` lower-cased as `str::to_lowercase` does it (Unicode `Lowercase` mapping).
pub uninterp spec fn lowercase(s: Seq<char>) -> Seq<char>;

/// Calls `str::to_lowercase`. The contract only ties the result to the name
/// `lowercase`.
#[verifier::external_body]
fn to_lowercase(s: &str) -> (r: String)
    ensures
        r@ == lowercase(s@),
{
    s.to_lowercase()
}

/// Replaces every space of `s` with a hyphen, as `s.replace(' ', "-")` does.
pub fn replace_spaces(s: &str) -> (r: String)
    ensures
        r@ == spaces_to_dashes(s@),
{
    let n = s.unicode_len();
    let mut r = String::new();
    let mut i: usize = 0;
    while i < n
        invariant
            n == s@.len(),
            i <= n,
            r@ == spaces_to_dashes(s@.subrange(0, i as int)),
        decreases n - i,
    {
        let c = s.get_char(i);
        if c == ' ' {
            proof {
                reveal_strlit("-");
            }
            assert("-"@ =~= seq!['-']);
            r.append("-");
        } else {
            let piece = s.substring_char(i, i + 1);
            assert(piece@ =~= seq![c]);
            r.append(piece);
        }
        assert(s@.subrange(0, i + 1) == s@.subrange(0, i as int).push(c));
        assert(spaces_to_dashes(s@.subrange(0, i + 1)) =~= spaces_to_dashes(
            s@.subrange(0, i as int),
        ).push(if c == ' ' { '-' } else { c }));
        i = i + 1;
    }
    assert(s@.subrange(0, n as int) == s@);
    r
}

/// The mDNS instance (and host) name announced for a device called `device_name`.
pub open spec fn instance_name_text(device_name: Seq<char>) -> Seq<char> {
    "rjremote-"@ + lowercase(spaces_to_dashes(device_name))
}

/// The instance name announced for a device called `device_name`.
pub fn instance_name(device_name: &str) -> (name: String)
    ensures
        name@ == instance_name_text(device_name@),
{
    let dashed = replace_spaces(device_name);
    let lowered = to_lowercase(dashed.as_str());
    instance_name_from_lowered(lowered.as_str())
}

/// The instance name once the hyphenated device name has been lower-cased.
pub fn instance_name_from_lowered(lowered: &str) -> (name: String)
    ensures
        name@ == "rjremote-"@ + lowered@,
{
    let mut name = String::from_str("rjremote-");
    name.append(lowered);
    name
}

/// What a host announces: the record registered with the mDNS daemon.
pub struct BroadcastPlan {
    pub service_type: String,
    pub instance_name: String,
    pub host_name: String,
    pub addresses: String,
    pub port: u16,
    pub properties: Vec<(String, String)>,
}

/// Whether `plan` is the record announced for `device_name` on an OS named `os_name`:
/// this service type, the instance name used as host name too, no fixed addresses,
/// the streaming port, and the TXT properties `name`, `os` and `ver` (`1.0.0`).
pub open spec fn is_plan_for(plan: BroadcastPlan, device_name: Seq<char>, os_name: Seq<char>) -> bool {
    &&& plan.service_type@ == service_type_text()
    &&& plan.instance_name@ == instance_name_text(device_name)
    &&& plan.host_name@ == instance_name_text(device_name)
    &&& plan.addresses@ == Seq::<char>::empty()
    &&& plan.port == DEFAULT_PORT
    &&& plan.properties@.len() == 3
    &&& plan.properties@[0].0@ == "name"@ && plan.properties@[0].1@ == device_name
    &&& plan.properties@[1].0@ == "os"@ && plan.properties@[1].1@ == os_name
    &&& plan.properties@[2].0@ == "ver"@ && plan.properties@[2].1@ == "1.0.0"@
}

/// The record to announce for a device called `device_name` running `os_name`.
pub fn broadcast_plan(device_name: String, os_name: String) -> (plan: BroadcastPlan)
    ensures
        is_plan_for(plan, device_name@, os_name@),
{
    let instance = instance_name(device_name.as_str());
    let host = instance.clone();
    let mut properties: Vec<(String, String)> = Vec::new();
    properties.push((String::from_str("name"), device_name));
    properties.push((String::from_str("os"), os_name));
    properties.push((String::from_str("ver"), String::from_str("1.0.0")));
    BroadcastPlan {
        service_type: String::from_str(service_type()),
        instance_name: instance,
        host_name: host,
        addresses: String::new(),
        port: DEFAULT_PORT,
        properties,
    }
}

#[verifier::external_type_specification]
#[verifier::external_body]
pub struct ExServiceInfo(mdns_sd::ServiceInfo);

/// Whether `key` may name a TXT property: ASCII (control characters included) without `=`.
pub open spec fn txt_key_allowed(key: Seq<char>) -> bool {
    forall|i: int| 0 <= i < key.len() ==> (#[trigger] key[i] as u32) < 128 && key[i] != '='
}

/// The mDNS record announcing a device called `device_name` running `os_name`,
/// ready to register: always built, from the plan `broadcast_plan` gives for them.
pub fn broadcast_service(device_name: String, os_name: String) -> (r: Result<ServiceAnnouncement, String>)
    ensures
        r matches Ok(a) && is_plan_for(a.plan_spec(), device_name@, os_name@),
{
    let plan = broadcast_plan(device_name, os_name);
    proof {
        reveal_strlit("name");
        reveal_strlit("os");
        reveal_strlit("ver");
        assert(plan.properties@.len() == 3);
        assert forall|i: int| 0 <= i < plan.properties@.len() implies txt_key_allowed(
            #[trigger] plan.properties@[i].0@,
        ) by {
            assert(i == 0 || i == 1 || i == 2);
        }
    }
    match new_service_info(plan) {
        Ok(a) => Ok(a),
        Err(e) => {
            let mut m = String::from_str("Service info error: ");
            m.append(e.as_str());
            Err(m)
        },
    }
}

// ---------------------------------------------------------------------------
// Scanning
// ---------------------------------------------------------------------------

/// The text of `o`, or `default` when absent.
pub open spec fn text_or(o: Option<String>, default: Seq<char>) -> Seq<char> {
    match o {
        Some(s) => s@,
        None => default,
    }
}

fn take_or(o: Option<String>, default: &str) -> (s: String)
    ensures
        s@ == text_or(o, default@),
{
    match o {
        Some(s) => s,
        None => String::from_str(default),
    }
}

/// Whether `d` records the given name, address, port and OS.
pub open spec fn device_is(d: DeviceInfo, name: Seq<char>, ip: Seq<char>, port: u16, os: Seq<char>) -> bool {
    d.name@ == name && d.ip@ == ip && d.port == port && d.os@ == os
}

/// The fields (name, address, port, OS) of the device record a scan makes of a
/// resolved service, or `None` when the service has no address.
pub open spec fn resolved_device(
    name: Option<String>,
    os: Option<String>,
    address: Option<String>,
    port: u16,
) -> Option<(Seq<char>, Seq<char>, u16, Seq<char>)> {
    if text_or(address, Seq::empty()).len() != 0 {
        Some(
            (
                text_or(name, "Unknown Device"@),
                text_or(address, Seq::empty()),
                port,
                text_or(os, "unknown"@),
            ),
        )
    } else {
        None
    }
}

/// The device record for a resolved service: its `name` and `os` TXT properties
/// (defaulting to `Unknown Device` and `unknown`), its first address and its port.
/// A service without an address yields no record.
pub fn device_from_resolved(
    name: Option<String>,
    os: Option<String>,
    address: Option<String>,
    port: u16,
) -> (d: Option<DeviceInfo>)
    ensures
        match d {
            Some(dev) => text_or(address, Seq::empty()).len() != 0 && device_is(
                dev,
                text_or(name, "Unknown Device"@),
                text_or(address, Seq::empty()),
                port,
                text_or(os, "unknown"@),
            ),
            None => text_or(address, Seq::empty()).len() == 0,
        },
        match d {
            Some(dev) => resolved_device(name, os, address, port) == Some(
                (dev.name@, dev.ip@, dev.port, dev.os@),
            ),
            None => resolved_device(name, os, address, port) is None,
        },
{
    let name = take_or(name, "Unknown Device");
    let os = take_or(os, "unknown");
    let ip = match address {
        Some(a) => a,
        None => String::new(),
    };
    if ip.as_str().is_empty() {
        None
    } else {
        Some(DeviceInfo { name, ip, port, os })
    }
}

/// A scan that resolves the service a device announced, at a non-empty address,
/// records the device under the name and OS it announced, at the announced streaming
/// port and that address: the announced TXT keys are the ones a scan reads.
pub proof fn law_discovered_as_announced(
    plan: BroadcastPlan,
    device_name: Seq<char>,
    os_name: Seq<char>,
    address: String,
)
    requires
        is_plan_for(plan, device_name, os_name),
        address@.len() != 0,
    ensures
        plan.properties@[0].0@ == "name"@,
        plan.properties@[1].0@ == "os"@,
        resolved_device(
            Some(plan.properties@[0].1),
            Some(plan.properties@[1].1),
            Some(address),
            plan.port,
        ) == Some((device_name, address@, DEFAULT_PORT, os_name)),
{
}

/// What a scan hears from the mDNS browser.
pub enum ScanEvent {
    /// A service was resolved, with its `name` and `os` TXT properties, its first
    /// address (as text) and its port.
    Resolved { name: Option<String>, os: Option<String>, address: Option<String>, port: u16 },
    /// Any other browser event.
    Other,
    /// No event arrived in time, or the browser closed.
    ReceiveEnded,
}

/// Whether a scan goes on listening.
pub enum ScanControl {
    Continue,
    Stop,
}

/// A scan in progress: the devices found so far.
pub struct DiscoveryScan {
    devices: Vec<DeviceInfo>,
}

impl DiscoveryScan {
    pub closed spec fn found(&self) -> Seq<DeviceInfo> {
        self.devices@
    }

    /// A scan that has found nothing yet.
    pub fn new() -> (s: DiscoveryScan)
        ensures
            s.found() == Seq::<DeviceInfo>::empty(),
    {
        DiscoveryScan { devices: Vec::new() }
    }

    /// Whether the scan window is still open after `elapsed_ms` milliseconds.
    pub fn keep_listening(elapsed_ms: u64) -> (b: bool)
        ensures
            b == (elapsed_ms < SCAN_WINDOW_MS),
    {
        elapsed_ms < SCAN_WINDOW_MS
    }

    /// Records what the browser reported and says whether to keep listening.
    pub fn on_event(&mut self, event: ScanEvent) -> (c: ScanControl)
        ensures
            match event {
                ScanEvent::Resolved { name, os, address, port } => {
                    &&& c is Continue
                    &&& if text_or(address, Seq::empty()).len() != 0 {
                        &&& final(self).found().len() == old(self).found().len() + 1
                        &&& final(self).found().subrange(0, old(self).found().len() as int)
                            == old(self).found()
                        &&& device_is(
                            final(self).found().last(),
                            text_or(name, "Unknown Device"@),
                            text_or(address, Seq::empty()),
                            port,
                            text_or(os, "unknown"@),
                        )
                    } else {
                        final(self).found() == old(self).found()
                    }
                },
                ScanEvent::Other => c is Continue && final(self).found() == old(self).found(),
                ScanEvent::ReceiveEnded => c is Stop && final(self).found() == old(self).found(),
            },
    {
        match event {
            ScanEvent::Resolved { name, os, address, port } => {
                match device_from_resolved(name, os, address, port) {
                    Some(d) => {
                        self.devices.push(d);
                        assert(self.devices@.subrange(0, self.devices@.len() - 1)
                            =~= old(self).devices@);
                    },
                    None => {},
                }
                ScanControl::Continue
            },
            ScanEvent::Other => ScanControl::Continue,
            ScanEvent::ReceiveEnded => ScanControl::Stop,
        }
    }

    /// The devices found, in the order they were resolved.
    pub fn finish(self) -> (devices: Vec<DeviceInfo>)
        ensures
            devices@ == self.found(),
    {
        self.devices
    }
}

} // verus!
