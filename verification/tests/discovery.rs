use rjremote::text::decimal_string;
use rjremote::discovery::{
    broadcast_plan, broadcast_service, device_from_resolved, instance_name, instance_name_from_lowered, replace_spaces,
    service_type, DiscoveryScan, ScanControl, ScanEvent, DEFAULT_PORT,
};

fn s(x: &str) -> Option<String> {
    Some(x.to_string())
}

#[test]
fn instance_name_is_prefixed_dashed_lowercase() {
    assert_eq!(instance_name("My PC"), "rjremote-my-pc");
    assert_eq!(instance_name("Living Room  TV"), "rjremote-living-room--tv");
    assert_eq!(instance_name("ÄB C"), "rjremote-äb-c");
    assert_eq!(instance_name(""), "rjremote-");
}

#[test]
fn spaces_become_dashes_only() {
    assert_eq!(replace_spaces(" a b\tc "), "-a-b\tc-");
    assert_eq!(replace_spaces("日本 語"), "日本-語");
}

#[test]
fn broadcast_plan_fields() {
    let plan = broadcast_plan("Office Mac".to_string(), "macos".to_string());
    assert_eq!(plan.service_type, "_rjremote._tcp.local.");
    assert_eq!(service_type(), "_rjremote._tcp.local.");
    assert_eq!(plan.instance_name, "rjremote-office-mac");
    assert_eq!(plan.host_name, "rjremote-office-mac");
    assert_eq!(plan.addresses, "");
    assert_eq!(plan.port, DEFAULT_PORT);
    assert_eq!(
        plan.properties,
        vec![
            ("name".to_string(), "Office Mac".to_string()),
            ("os".to_string(), "macos".to_string()),
            ("ver".to_string(), "1.0.0".to_string()),
        ]
    );
}

#[test]
fn broadcast_service_record_is_built() {
    let announcement = match broadcast_service("My PC".to_string(), "linux".to_string()) {
        Ok(a) => a,
        Err(e) => panic!("{}", e),
    };
    assert_eq!(announcement.plan().instance_name, "rjremote-my-pc");
    assert_eq!(announcement.plan().properties[0], ("name".to_string(), "My PC".to_string()));
    let info = announcement.into_info();
    assert_eq!(info.get_fullname(), "rjremote-my-pc._rjremote._tcp.local.");
    assert_eq!(info.get_port(), 9095);
    assert_eq!(info.get_property_val_str("name"), Some("My PC"));
    assert_eq!(info.get_property_val_str("os"), Some("linux"));
    assert_eq!(info.get_property_val_str("ver"), Some("1.0.0"));
}

#[test]
fn resolved_service_defaults_and_address_rule() {
    let d = device_from_resolved(None, None, s("10.0.0.7"), 9095).unwrap();
    assert_eq!(d.name, "Unknown Device");
    assert_eq!(d.os, "unknown");
    assert_eq!(d.ip, "10.0.0.7");
    assert_eq!(d.port, 9095);
    let d = device_from_resolved(s("Desk"), s("windows"), s("fe80::1"), 1).unwrap();
    assert_eq!((d.name.as_str(), d.os.as_str(), d.ip.as_str()), ("Desk", "windows", "fe80::1"));
    assert!(device_from_resolved(s("Desk"), s("windows"), None, 1).is_none());
    assert!(device_from_resolved(s("Desk"), s("windows"), s(""), 1).is_none());
}

#[test]
fn scan_collects_devices_until_receive_ends() {
    assert!(DiscoveryScan::keep_listening(0));
    assert!(DiscoveryScan::keep_listening(2999));
    assert!(!DiscoveryScan::keep_listening(3000));
    let mut scan = DiscoveryScan::new();
    let c = scan.on_event(ScanEvent::Resolved { name: s("A"), os: s("linux"), address: s("10.0.0.1"), port: 9095 });
    assert!(matches!(c, ScanControl::Continue));
    assert!(matches!(scan.on_event(ScanEvent::Other), ScanControl::Continue));
    let c = scan.on_event(ScanEvent::Resolved { name: s("B"), os: None, address: None, port: 9095 });
    assert!(matches!(c, ScanControl::Continue));
    scan.on_event(ScanEvent::Resolved { name: None, os: s("android"), address: s("10.0.0.2"), port: 1 });
    assert!(matches!(scan.on_event(ScanEvent::ReceiveEnded), ScanControl::Stop));
    let found = scan.finish();
    assert_eq!(found.len(), 2);
    assert_eq!(found[0].name, "A");
    assert_eq!(found[1].name, "Unknown Device");
    assert_eq!(found[1].os, "android");
    assert_eq!(found[1].ip, "10.0.0.2");
}

#[test]
fn decimal_rendering_of_ports_and_sizes() {
    assert_eq!(decimal_string(0), "0");
    assert_eq!(decimal_string(9), "9");
    assert_eq!(decimal_string(10), "10");
    assert_eq!(decimal_string(65535), "65535");
    assert_eq!(decimal_string(u64::MAX), u64::MAX.to_string());
}

#[test]
fn instance_name_prefix_after_lowercasing() {
    assert_eq!(instance_name_from_lowered("office-mac"), "rjremote-office-mac");
    assert_eq!(instance_name_from_lowered("MiXed"), "rjremote-MiXed");
}

#[test]
fn resolved_announcement_is_recorded_as_announced() {
    let plan = broadcast_plan("Kitchen PC".to_string(), "windows".to_string());
    let prop = |k: &str| plan.properties.iter().find(|(key, _)| key == k).map(|(_, v)| v.clone());
    let d = device_from_resolved(prop("name"), prop("os"), s("192.168.0.9"), plan.port).unwrap();
    assert_eq!(d.name, "Kitchen PC");
    assert_eq!(d.os, "windows");
    assert_eq!(d.ip, "192.168.0.9");
    assert_eq!(d.port, 9095);
}
