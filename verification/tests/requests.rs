use bluez_client::Connection;
use bluez_client::adapter::Adapter;
use bluez_client::agent::AgentCapability;
use bluez_client::agent::AgentError;
use bluez_client::common::Request;
use bluez_client::device::Device;
use bluez_client::value::BusValue;

fn adapter() -> Adapter {
    Adapter::new(&Connection::new(2), "/org/bluez/hci0")
}

fn device() -> Device {
    Device::new(&Connection::new(2), "/org/bluez/hci0/dev_AA_BB")
}

fn expect_set(r: Request, path: &str, iface: &str, name: &str) -> BusValue {
    match r {
        Request::SetProperty { object_path, interface, name: n, value, timeout_ms } => {
            assert_eq!(object_path, path);
            assert_eq!(interface, iface);
            assert_eq!(n, name);
            assert_eq!(timeout_ms, 1000);
            value
        },
        _ => panic!("expected a property write"),
    }
}

fn expect_call(r: Request, path: &str, iface: &str, name: &str) -> Vec<BusValue> {
    match r {
        Request::MethodCall { object_path, interface, member, args, timeout_ms } => {
            assert_eq!(object_path, path);
            assert_eq!(interface, iface);
            assert_eq!(member, name);
            assert_eq!(timeout_ms, 60000);
            args
        },
        _ => panic!("expected a method call"),
    }
}

#[test]
fn adapter_setters_build_exact_property_writes() {
    let a = adapter();
    let v = expect_set(a.set_alias("box"), "/org/bluez/hci0", "org.bluez.Adapter1", "Alias");
    assert!(matches!(v, BusValue::Str(s) if s == "box"));
    let v = expect_set(a.set_powered(true), "/org/bluez/hci0", "org.bluez.Adapter1", "Powered");
    assert!(matches!(v, BusValue::Bool(true)));
    let v = expect_set(
        a.set_discoverable(false),
        "/org/bluez/hci0",
        "org.bluez.Adapter1",
        "Discoverable",
    );
    assert!(matches!(v, BusValue::Bool(false)));
    let v = expect_set(
        a.set_discoverable_timeout(180),
        "/org/bluez/hci0",
        "org.bluez.Adapter1",
        "DiscoverableTimeout",
    );
    assert!(matches!(v, BusValue::U32(180)));
    let v = expect_set(a.set_pairable(true), "/org/bluez/hci0", "org.bluez.Adapter1", "Pairable");
    assert!(matches!(v, BusValue::Bool(true)));
    let v = expect_set(
        a.set_pairable_timeout(60),
        "/org/bluez/hci0",
        "org.bluez.Adapter1",
        "PairableTimeout",
    );
    assert!(matches!(v, BusValue::U32(60)));
}

#[test]
fn adapter_methods_build_exact_calls() {
    let a = adapter();
    let args = expect_call(
        a.start_discovery(),
        "/org/bluez/hci0",
        "org.bluez.Adapter1",
        "StartDiscovery",
    );
    assert!(args.is_empty());
    let args = expect_call(
        a.stop_discovery(),
        "/org/bluez/hci0",
        "org.bluez.Adapter1",
        "StopDiscovery",
    );
    assert!(args.is_empty());
    let args = expect_call(
        a.remove_device(&device()),
        "/org/bluez/hci0",
        "org.bluez.Adapter1",
        "RemoveDevice",
    );
    assert_eq!(args.len(), 1);
    assert!(matches!(&args[0], BusValue::Str(s) if s == "/org/bluez/hci0/dev_AA_BB"));
}

#[test]
fn adapter_snapshot_request_reads_all_properties() {
    match adapter().get_properties_request() {
        Request::GetAllProperties { object_path, interface, timeout_ms } => {
            assert_eq!(object_path, "/org/bluez/hci0");
            assert_eq!(interface, "org.bluez.Adapter1");
            assert_eq!(timeout_ms, 1000);
        },
        _ => panic!("expected a property read"),
    }
}

#[test]
fn device_setters_build_exact_property_writes() {
    let d = device();
    let v = expect_set(
        d.set_alias("mine"),
        "/org/bluez/hci0/dev_AA_BB",
        "org.bluez.Device1",
        "Alias",
    );
    assert!(matches!(v, BusValue::Str(s) if s == "mine"));
    let v = expect_set(
        d.set_trusted(true),
        "/org/bluez/hci0/dev_AA_BB",
        "org.bluez.Device1",
        "Trusted",
    );
    assert!(matches!(v, BusValue::Bool(true)));
    let v = expect_set(
        d.set_blocked(false),
        "/org/bluez/hci0/dev_AA_BB",
        "org.bluez.Device1",
        "Blocked",
    );
    assert!(matches!(v, BusValue::Bool(false)));
}

#[test]
fn device_methods_build_exact_calls() {
    let d = device();
    let path = "/org/bluez/hci0/dev_AA_BB";
    assert!(expect_call(d.connect(), path, "org.bluez.Device1", "Connect").is_empty());
    assert!(expect_call(d.disconnect(), path, "org.bluez.Device1", "Disconnect").is_empty());
    assert!(expect_call(d.pair(), path, "org.bluez.Device1", "Pair").is_empty());
    assert!(
        expect_call(d.cancel_pairing(), path, "org.bluez.Device1", "CancelPairing").is_empty()
    );
    let args = expect_call(d.connect_profile("110b"), path, "org.bluez.Device1", "ConnectProfile");
    assert!(matches!(&args[0], BusValue::Str(s) if s == "110b"));
    let args = expect_call(
        d.disconnect_profile("110b"),
        path,
        "org.bluez.Device1",
        "DisconnectProfile",
    );
    assert!(matches!(&args[0], BusValue::Str(s) if s == "110b"));
}

#[test]
fn device_find_matches_address_alias_or_name() {
    let conn = Connection::new(4);
    let devices = vec![
        Device::new(&conn, "/org/bluez/hci0/dev_AA"),
        Device::new(&conn, "/org/bluez/hci0/dev_BB"),
    ];
    let mut p0 = bluez_client::device::DeviceProperties {
        address: "AA:AA:AA:AA:AA:AA".to_string(),
        name: None,
        alias: "first".to_string(),
        icon: None,
        class: None,
        appearance: None,
        uuids: Vec::new(),
        paired: false,
        connected: false,
        trusted: false,
        blocked: false,
        legacy_pairing: false,
        modalias: None,
        rssi: None,
    };
    let mut p1 = p0.clone();
    p1.address = "BB:BB:BB:BB:BB:BB".to_string();
    p1.alias = "second".to_string();
    p1.name = Some("named".to_string());
    p0.name = None;
    let props = vec![p0, p1];
    let hit = Device::find(&devices, &props, "named").unwrap();
    assert_eq!(hit.object_path(), "/org/bluez/hci0/dev_BB");
    let hit = Device::find(&devices, &props, "AA:AA:AA:AA:AA:AA").unwrap();
    assert_eq!(hit.object_path(), "/org/bluez/hci0/dev_AA");
    let hit = Device::find(&devices, &props, "first").unwrap();
    assert_eq!(hit.object_path(), "/org/bluez/hci0/dev_AA");
    assert!(Device::find(&devices, &props, "absent").is_none());
}

#[test]
fn agent_vocabulary_is_exact() {
    assert_eq!(AgentCapability::DisplayOnly.to_str(), "DisplayOnly");
    assert_eq!(AgentCapability::DisplayYesNo.to_str(), "DisplayYesNo");
    assert_eq!(AgentCapability::KeyboardOnly.to_str(), "KeyboardOnly");
    assert_eq!(AgentCapability::NoInputNoOutput.to_str(), "NoInputNoOutput");
    assert_eq!(AgentCapability::KeyboardDisplay.to_str(), "KeyboardDisplay");
    assert_eq!(AgentError::Rejected.bluez_error(), "org.bluez.Error.Rejected");
    assert_eq!(AgentError::Canceled.bluez_error(), "org.bluez.Error.Canceled");
}
