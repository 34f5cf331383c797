use bluez_client::Connection;
use bluez_client::adapter::Adapter;
use bluez_client::adapter::AdapterProperties;
use bluez_client::adapter::find_adapter;
use bluez_client::adapter::get_adapters;
use bluez_client::common::Request;
use bluez_client::common::get_managed_objects_request;
use bluez_client::common::walk_managed_objects;
use bluez_client::device::get_devices;
use bluez_client::error::BtError;
use bluez_client::path::normalize_root;
use bluez_client::path::parent_object_path;
use bluez_client::path::str_eq;
use bluez_client::path::str_starts_with;
use bluez_client::value::BusValue;
use bluez_client::value::PropEntry;

fn tree_entry(path: &str, ifaces: &[&str]) -> BusValue {
    let items = ifaces
        .iter()
        .map(|n| BusValue::DictEntry(n.to_string(), Box::new(BusValue::Array(Vec::new()))))
        .collect();
    BusValue::DictEntry(path.to_string(), Box::new(BusValue::Array(items)))
}

fn sample_tree() -> BusValue {
    BusValue::Array(vec![
        tree_entry("/org/bluez", &["org.bluez.AgentManager1"]),
        tree_entry("/org/bluez/hci0", &["org.bluez.Adapter1"]),
        tree_entry(
            "/org/bluez/hci0/dev_AA_BB_CC_DD_EE_FF",
            &["org.bluez.Device1"],
        ),
        tree_entry("/org/bluez/hci1", &["org.bluez.Adapter1"]),
        tree_entry("/org/bluez/hci1/dev_11_22_33_44_55_66", &["org.bluez.Device1"]),
    ])
}

#[test]
fn enumeration_request_has_bounded_timeout() {
    match get_managed_objects_request() {
        Request::GetManagedObjects { timeout_ms } => assert_eq!(timeout_ms, 1000),
        _ => panic!("wrong request kind"),
    }
}

#[test]
fn single_property_read_request_is_exact() {
    match bluez_client::common::get_property_request(
        "/org/bluez/hci0",
        "org.bluez.Adapter1",
        "Powered",
    ) {
        Request::GetProperty { object_path, interface, name, timeout_ms } => {
            assert_eq!(object_path, "/org/bluez/hci0");
            assert_eq!(interface, "org.bluez.Adapter1");
            assert_eq!(name, "Powered");
            assert_eq!(timeout_ms, 1000);
        },
        _ => panic!("wrong request kind"),
    }
}

#[test]
fn walk_yields_paths_matching_interface_under_root() {
    let paths = walk_managed_objects(&sample_tree(), "/", "org.bluez.Adapter1").unwrap();
    assert_eq!(paths, vec!["/org/bluez/hci0".to_string(), "/org/bluez/hci1".to_string()]);
}

#[test]
fn walk_normalizes_root_so_siblings_with_same_prefix_do_not_match() {
    let tree = BusValue::Array(vec![
        tree_entry("/org/bluez/hci0/dev_AA", &["org.bluez.Device1"]),
        tree_entry("/org/bluez/hci01/dev_BB", &["org.bluez.Device1"]),
    ]);
    let paths = walk_managed_objects(&tree, "/org/bluez/hci0", "org.bluez.Device1").unwrap();
    assert_eq!(paths, vec!["/org/bluez/hci0/dev_AA".to_string()]);
}

#[test]
fn walk_rejects_malformed_top_level_reply() {
    assert!(matches!(
        walk_managed_objects(&BusValue::U32(4), "/", "org.bluez.Adapter1"),
        Err(BtError::MalformedResponse(_))
    ));
    let bad_entry = BusValue::Array(vec![BusValue::Bool(true)]);
    assert!(walk_managed_objects(&bad_entry, "/", "org.bluez.Adapter1").is_err());
}

#[test]
fn get_adapters_builds_one_handle_per_match() {
    let conn = Connection::new(3);
    let adapters = get_adapters(&conn, &sample_tree()).unwrap();
    assert_eq!(adapters.len(), 2);
    assert_eq!(adapters[0].object_path(), "/org/bluez/hci0");
    assert_eq!(adapters[1].object_path(), "/org/bluez/hci1");
    assert_eq!(adapters[0].conn().id(), 3);
}

#[test]
fn get_devices_is_scoped_to_the_adapter() {
    let conn = Connection::new(3);
    let adapter = Adapter::new(&conn, "/org/bluez/hci0");
    let devices = get_devices(&adapter, &sample_tree()).unwrap();
    assert_eq!(devices.len(), 1);
    assert_eq!(devices[0].object_path(), "/org/bluez/hci0/dev_AA_BB_CC_DD_EE_FF");
    assert_eq!(devices[0].adapter_object_path(), "/org/bluez/hci0");
}

fn snapshot(address: &str, name: &str, alias: &str) -> AdapterProperties {
    AdapterProperties {
        address: address.to_string(),
        name: name.to_string(),
        alias: alias.to_string(),
        class: 0,
        powered: true,
        discoverable: false,
        discoverable_timeout: 0,
        pairable: false,
        pairable_timeout: 0,
        discovering: false,
        uuids: Vec::new(),
        modalias: None,
    }
}

#[test]
fn find_adapter_matches_address_alias_or_name() {
    let conn = Connection::new(1);
    let adapters = vec![
        Adapter::new(&conn, "/org/bluez/hci0"),
        Adapter::new(&conn, "/org/bluez/hci1"),
    ];
    let props = vec![
        snapshot("00:11:22:33:44:55", "zero", "alias-zero"),
        snapshot("66:77:88:99:AA:BB", "one", "alias-one"),
    ];
    let by_addr = find_adapter(&adapters, &props, Some("66:77:88:99:AA:BB")).unwrap();
    assert_eq!(by_addr.object_path(), "/org/bluez/hci1");
    let by_name = find_adapter(&adapters, &props, Some("zero")).unwrap();
    assert_eq!(by_name.object_path(), "/org/bluez/hci0");
    let by_alias = find_adapter(&adapters, &props, Some("alias-one")).unwrap();
    assert_eq!(by_alias.object_path(), "/org/bluez/hci1");
    assert!(find_adapter(&adapters, &props, Some("nowhere")).is_none());
}

#[test]
fn find_adapter_without_needle_takes_the_first() {
    let conn = Connection::new(1);
    let adapters = vec![
        Adapter::new(&conn, "/org/bluez/hci0"),
        Adapter::new(&conn, "/org/bluez/hci1"),
    ];
    let props = vec![
        snapshot("a", "b", "c"),
        snapshot("d", "e", "f"),
    ];
    let first = find_adapter(&adapters, &props, None).unwrap();
    assert_eq!(first.object_path(), "/org/bluez/hci0");
    let none: Vec<Adapter> = Vec::new();
    let no_props: Vec<AdapterProperties> = Vec::new();
    assert!(find_adapter(&none, &no_props, None).is_none());
}

#[test]
fn path_helpers_behave_on_edges() {
    assert_eq!(normalize_root("/org/bluez"), "/org/bluez/");
    assert_eq!(normalize_root("/org/bluez/"), "/org/bluez/");
    assert_eq!(normalize_root(""), "/");
    assert_eq!(parent_object_path("/org/bluez/hci0/dev_AA_BB"), "/org/bluez/hci0");
    assert_eq!(parent_object_path("/dev_X"), "");
    assert_eq!(parent_object_path("plain"), "plain");
    assert!(str_eq("abc", "abc"));
    assert!(!str_eq("abc", "abd"));
    assert!(!str_eq("abc", "abcd"));
    assert!(str_starts_with("/org/bluez/hci0", "/org/bluez/"));
    assert!(!str_starts_with("/org/bluezX", "/org/bluez/"));
    assert!(str_starts_with("anything", ""));
}
