use droplink::devices::{DeviceNotice, DeviceRegistry};
use droplink::discovery::{
    classify, service_registration, BrowseStep, DiscoveryEvent, IpAddress, PortScan, ScanStep,
    ServiceObservation,
};
use droplink::protocol::DeviceInfo;

fn device(name: &str, ip: &str, port: u16) -> DeviceInfo {
    DeviceInfo { name: name.to_string(), ip: ip.to_string(), port }
}

#[test]
fn registration_advertises_the_device() {
    let r = service_registration("MacBook de Léa", "192.168.1.42", 7777);
    assert_eq!(r.service_type, "_droplink._tcp.local.");
    assert_eq!(r.instance_name, "MacBook de Léa");
    assert_eq!(r.host_name, "macbook-de-léa.local.");
    assert_eq!(r.address, "192.168.1.42");
    assert_eq!(r.port, 7777);
    assert_eq!(r.property_key, "name");
    assert_eq!(r.property_value, "MacBook de Léa");
    let info = r.service_info().expect("valid service record");
    assert_eq!(info.get_fullname(), "MacBook de Léa._droplink._tcp.local.");
    assert_eq!(info.get_port(), 7777);
    assert!(service_registration("X", "not-an-ip", 1).service_info().is_err());
    assert!(service_registration("X", "", 1).service_info().is_ok());
    let mut bad_key = service_registration("X", "10.0.0.1", 1);
    bad_key.property_key = "na=me".to_string();
    assert!(bad_key.service_info().is_err());
    bad_key.property_key = "nämé".to_string();
    assert!(bad_key.service_info().is_err());
}

#[test]
fn resolved_device_is_reported_with_its_ipv4_address() {
    let obs = ServiceObservation::Resolved {
        name_property: Some("Bob".to_string()),
        fullname: "Bob._droplink._tcp.local.".to_string(),
        addresses: vec![IpAddress::V6([0xfe80, 0, 0, 0, 0, 0, 0, 1]), IpAddress::V4([192, 168, 1, 7])],
        port: 7778,
    };
    match classify("Alice", obs) {
        BrowseStep::Report(DiscoveryEvent::DeviceFound(d)) => {
            assert_eq!(d.name, "Bob");
            assert_eq!(d.ip, "192.168.1.7");
            assert_eq!(d.port, 7778);
        }
        _ => panic!("expected a found device"),
    }
}

#[test]
fn own_device_and_ipv6_only_devices_are_skipped() {
    let own = ServiceObservation::Resolved {
        name_property: None,
        fullname: "Alice".to_string(),
        addresses: vec![IpAddress::V4([10, 0, 0, 1])],
        port: 1,
    };
    assert!(matches!(classify("Alice", own), BrowseStep::Skip));
    let v6 = ServiceObservation::Resolved {
        name_property: Some("Carol".to_string()),
        fullname: "Carol._droplink._tcp.local.".to_string(),
        addresses: vec![IpAddress::V6([0; 8])],
        port: 1,
    };
    assert!(matches!(classify("Alice", v6), BrowseStep::Skip));
    assert!(matches!(classify("Alice", ServiceObservation::Other), BrowseStep::Skip));
    assert!(matches!(classify("Alice", ServiceObservation::Closed), BrowseStep::Stop));
    match classify("Alice", ServiceObservation::Removed { fullname: "Bob._droplink._tcp.local.".to_string() }) {
        BrowseStep::Report(DiscoveryEvent::DeviceLost(n)) => assert_eq!(n, "Bob._droplink._tcp.local."),
        _ => panic!("expected a lost device"),
    }
}

#[test]
fn port_scan_tries_ports_in_order() {
    let (mut scan, step) = PortScan::start(7777, 7779);
    assert!(matches!(step, ScanStep::Probe(7777)));
    assert!(matches!(scan.on_probe(false), ScanStep::Probe(7778)));
    assert!(matches!(scan.on_probe(true), ScanStep::Found(7778)));

    let (mut scan, _) = PortScan::start(7777, 7778);
    assert!(matches!(scan.on_probe(false), ScanStep::Probe(7778)));
    assert!(matches!(scan.on_probe(false), ScanStep::Fallback(7777)));

    let (_, step) = PortScan::start(7800, 7777);
    assert!(matches!(step, ScanStep::Empty));
    let (mut scan, _) = PortScan::start(65535, 65535);
    assert!(matches!(scan.on_probe(false), ScanStep::Fallback(65535)));
}

#[test]
fn port_scan_falls_back_to_the_first_port() {
    let (mut scan, mut step) = PortScan::start(7777, 7800);
    let mut tried = Vec::new();
    loop {
        match step {
            ScanStep::Probe(p) => {
                tried.push(p);
                step = scan.on_probe(false);
            }
            ScanStep::Found(_) | ScanStep::Empty => panic!("no port was free"),
            ScanStep::Fallback(p) => {
                assert_eq!(p, 7777);
                break;
            }
        }
    }
    assert_eq!(tried, (7777..=7800).collect::<Vec<u16>>());
}

#[test]
fn registry_lists_each_name_once() {
    let mut reg = DeviceRegistry::new();
    let n = reg.apply(DiscoveryEvent::DeviceFound(device("Bob", "192.168.1.7", 7778)));
    match n {
        Some(notice) => {
            assert_eq!(notice.channel(), "device-discovered");
            assert!(matches!(notice, DeviceNotice::Discovered(ref d) if d.name == "Bob"));
        }
        None => panic!("expected a notice"),
    }
    assert!(reg.apply(DiscoveryEvent::DeviceFound(device("Bob", "192.168.1.8", 1))).is_none());
    let list = reg.devices();
    assert_eq!(list.len(), 1);
    assert_eq!(list[0].ip, "192.168.1.7");
}

#[test]
fn lost_service_removes_only_its_device() {
    let mut reg = DeviceRegistry::new();
    reg.apply(DiscoveryEvent::DeviceFound(device("Mac", "10.0.0.1", 1)));
    reg.apply(DiscoveryEvent::DeviceFound(device("MacBook", "10.0.0.2", 2)));
    reg.apply(DiscoveryEvent::DeviceFound(device("PC", "10.0.0.3", 3)));
    let n = reg.apply(DiscoveryEvent::DeviceLost("Mac._droplink._tcp.local.".to_string()));
    match n {
        Some(notice) => {
            assert_eq!(notice.channel(), "device-lost");
            assert!(matches!(notice, DeviceNotice::Lost(ref f) if f == "Mac._droplink._tcp.local."));
        }
        None => panic!("expected a notice"),
    }
    let names: Vec<String> = reg.devices().into_iter().map(|d| d.name).collect();
    assert_eq!(names, vec!["MacBook".to_string(), "PC".to_string()]);
}

#[test]
fn lost_service_matches_the_exact_instance_name() {
    let mut reg = DeviceRegistry::new();
    reg.apply(DiscoveryEvent::DeviceFound(device("Léa", "10.0.0.1", 1)));
    reg.apply(DiscoveryEvent::DeviceFound(device("Léa.2", "10.0.0.2", 2)));
    reg.apply(DiscoveryEvent::DeviceLost("Léa.2._droplink._tcp.local.".to_string()));
    assert_eq!(reg.devices(), vec![device("Léa", "10.0.0.1", 1)]);
    reg.apply(DiscoveryEvent::DeviceLost("Léa._other._tcp.local.".to_string()));
    assert_eq!(reg.devices().len(), 1);
    reg.apply(DiscoveryEvent::DeviceLost("Léa._droplink._tcp.local.".to_string()));
    assert!(reg.devices().is_empty());
}

#[test]
fn found_then_lost_leaves_the_rest() {
    let mut reg = DeviceRegistry::new();
    reg.apply(DiscoveryEvent::DeviceFound(device("PC", "10.0.0.3", 3)));
    reg.apply(DiscoveryEvent::DeviceFound(device("Tablet", "10.0.0.4", 4)));
    reg.apply(DiscoveryEvent::DeviceLost("Tablet._droplink._tcp.local.".to_string()));
    let list = reg.devices();
    assert_eq!(list, vec![device("PC", "10.0.0.3", 3)]);
}
