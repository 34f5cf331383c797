use bluez_client::Connection;
use bluez_client::adapter::Adapter;
use bluez_client::session::DiscoverySession;
use bluez_client::session::SessionDirective;
use bluez_client::session::SessionOutcome;
use bluez_client::session::Signal;
use bluez_client::session::interfaces_added_filter;
use bluez_client::session::properties_changed_filter;
use bluez_client::value::BusValue;

fn adapter() -> Adapter {
    Adapter::new(&Connection::new(9), "/org/bluez/hci0")
}

fn interfaces_added(path: &str, ifaces: &[&str]) -> Signal {
    let entries = ifaces
        .iter()
        .map(|n| BusValue::DictEntry(n.to_string(), Box::new(BusValue::Array(Vec::new()))))
        .collect();
    Signal {
        member: "InterfacesAdded".to_string(),
        path: "/".to_string(),
        items: vec![
            BusValue::Str(path.to_string()),
            BusValue::Array(entries),
        ],
    }
}

fn properties_changed(path: &str, iface: &str, prop: &str, value: BusValue) -> Signal {
    Signal {
        member: "PropertiesChanged".to_string(),
        path: path.to_string(),
        items: vec![
            BusValue::Str(iface.to_string()),
            BusValue::Array(vec![BusValue::DictEntry(prop.to_string(), Box::new(value))]),
        ],
    }
}

fn fresh_session(duration_secs: u32) -> DiscoverySession {
    let mut s = DiscoverySession::new(&adapter(), duration_secs);
    assert!(!s.subscribed);
    s.note_subscribed();
    assert!(s.subscribed);
    s
}

#[test]
fn filters_name_both_signal_streams() {
    assert_eq!(
        interfaces_added_filter(),
        "sender='org.bluez',interface='org.freedesktop.DBus.ObjectManager',member='InterfacesAdded'"
    );
    assert_eq!(
        properties_changed_filter(),
        "sender='org.bluez',interface='org.freedesktop.DBus.Properties',member='PropertiesChanged'"
    );
}

#[test]
fn device_under_own_adapter_is_reported() {
    let mut s = fresh_session(0);
    let sig = interfaces_added("/org/bluez/hci0/dev_AA_BB", &["org.bluez.Device1"]);
    let step = s.on_event(Some(&sig), 1);
    assert_eq!(step.directive, SessionDirective::Continue);
    assert_eq!(step.found.len(), 1);
    assert_eq!(step.found[0].object_path(), "/org/bluez/hci0/dev_AA_BB");
    assert_eq!(step.found[0].adapter_object_path(), "/org/bluez/hci0");
    assert_eq!(step.found[0].conn.id(), 9);
    assert_eq!(s.outcome, None);
}

#[test]
fn device_under_other_adapter_is_not_reported() {
    let mut s = fresh_session(0);
    let sig = interfaces_added("/org/bluez/hci1/dev_CC_DD", &["org.bluez.Device1"]);
    let step = s.on_event(Some(&sig), 1);
    assert_eq!(step.directive, SessionDirective::Continue);
    assert!(step.found.is_empty());
    assert_eq!(s.outcome, None);
}

#[test]
fn non_device_interfaces_are_not_reported() {
    let mut s = fresh_session(0);
    let sig = interfaces_added(
        "/org/bluez/hci0/dev_AA_BB",
        &["org.freedesktop.DBus.Introspectable", "org.bluez.MediaControl1"],
    );
    let step = s.on_event(Some(&sig), 1);
    assert!(step.found.is_empty());
    assert_eq!(step.directive, SessionDirective::Continue);
}

#[test]
fn adapter_stop_signal_finishes_the_session() {
    let mut s = fresh_session(0);
    let sig = properties_changed(
        "/org/bluez/hci0",
        "org.bluez.Adapter1",
        "Discovering",
        BusValue::Bool(false),
    );
    let step = s.on_event(Some(&sig), 3);
    assert_eq!(step.directive, SessionDirective::Finish);
    assert!(step.found.is_empty());
    assert_eq!(s.outcome, Some(SessionOutcome::AdapterStopped));
    s.note_unsubscribed();
    assert!(!s.subscribed);
}

#[test]
fn discovering_true_does_not_finish_the_session() {
    let mut s = fresh_session(0);
    let sig = properties_changed(
        "/org/bluez/hci0",
        "org.bluez.Adapter1",
        "Discovering",
        BusValue::Bool(true),
    );
    let step = s.on_event(Some(&sig), 3);
    assert_eq!(step.directive, SessionDirective::Continue);
    assert_eq!(s.outcome, None);
}

#[test]
fn stop_signal_from_another_path_is_ignored() {
    let mut s = fresh_session(0);
    let sig = properties_changed(
        "/org/bluez/hci1",
        "org.bluez.Adapter1",
        "Discovering",
        BusValue::Bool(false),
    );
    let step = s.on_event(Some(&sig), 3);
    assert_eq!(step.directive, SessionDirective::Continue);
    assert_eq!(s.outcome, None);
}

#[test]
fn unbounded_session_never_times_out_on_elapsed_time() {
    let mut s = fresh_session(0);
    let step = s.on_event(None, u64::MAX);
    assert_eq!(step.directive, SessionDirective::Continue);
    assert_eq!(s.outcome, None);
}

#[test]
fn bounded_session_times_out_at_the_bound() {
    let mut s = fresh_session(5);
    let early = s.on_event(None, 4);
    assert_eq!(early.directive, SessionDirective::Continue);
    assert_eq!(s.outcome, None);
    let at_bound = s.on_event(None, 5);
    assert_eq!(at_bound.directive, SessionDirective::StopDiscovery);
    assert_eq!(s.outcome, Some(SessionOutcome::TimedOut));
    s.note_unsubscribed();
    assert!(!s.subscribed);
}

#[test]
fn devices_are_still_reported_on_the_timed_out_step() {
    let mut s = fresh_session(2);
    let sig = interfaces_added("/org/bluez/hci0/dev_AA_BB", &["org.bluez.Device1"]);
    let step = s.on_event(Some(&sig), 2);
    assert_eq!(step.found.len(), 1);
    assert_eq!(step.directive, SessionDirective::StopDiscovery);
    assert_eq!(s.outcome, Some(SessionOutcome::TimedOut));
}

#[test]
fn malformed_signal_is_ignored_not_fatal() {
    let mut s = fresh_session(0);
    let sig = Signal {
        member: "PropertiesChanged".to_string(),
        path: "/org/bluez/hci0".to_string(),
        items: vec![BusValue::U32(1)],
    };
    let step = s.on_event(Some(&sig), 1);
    assert_eq!(step.directive, SessionDirective::Continue);
    assert_eq!(s.outcome, None);
}
