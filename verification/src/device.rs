//! The remote-object handle of one device, and its typed property snapshot.

use vstd::prelude::*;
use crate::Connection;
use crate::common::Request;
use crate::error::BtError;
use crate::path::parent_path;
use crate::path::parent_object_path;
use crate::value::PropEntry;
use crate::value::all_strings;
use crate::value::decode_string_list;
use crate::value::dict_get;
use crate::value::dict_get_bool;
use crate::value::dict_get_i16;
use crate::value::dict_get_string;
use crate::value::dict_get_u16;
use crate::value::dict_get_u32;
use crate::value::lookup_array;
use crate::value::lookup_bool;
use crate::value::lookup_i16;
use crate::value::lookup_str;
use crate::value::lookup_u16;
use crate::value::lookup_u32;
use crate::value::string_views;

verus! {

/// The interface under which the managing service exposes a device.
pub const DEVICE_INTERFACE: &'static str = "org.bluez.Device1";

/// A point-in-time, fully typed snapshot of one device's property set.
/// Required fields decode successfully whenever construction succeeds;
/// optional fields default to absent — and the UUID list to empty —
/// without failing the whole snapshot.
#[derive(Clone, Debug)]
pub struct DeviceProperties {
    pub address: String,
    pub name: Option<String>,
    pub alias: String,
    pub icon: Option<String>,
    pub class: Option<u32>,
    pub appearance: Option<u16>,
    pub uuids: Vec<String>,
    pub paired: bool,
    pub connected: bool,
    pub trusted: bool,
    pub blocked: bool,
    pub legacy_pairing: bool,
    pub modalias: Option<String>,
    pub rssi: Option<i16>,
}

/// Whether the dictionary `d` carries every required device property with
/// its declared type — and, when a UUID list is present, only string
/// elements in it — so that a snapshot can be built from it.
pub open spec fn device_props_wf(d: Seq<PropEntry>) -> bool {
    &&& lookup_str(d, "Address"@) is Some
    &&& lookup_str(d, "Alias"@) is Some
    &&& lookup_bool(d, "Paired"@) is Some
    &&& lookup_bool(d, "Connected"@) is Some
    &&& lookup_bool(d, "Trusted"@) is Some
    &&& lookup_bool(d, "Blocked"@) is Some
    &&& lookup_bool(d, "LegacyPairing"@) is Some
    &&& (match lookup_array(d, "UUIDs"@) {
        Some(a) => all_strings(a),
        None => true,
    })
}

/// Whether the snapshot `p` is exactly the projection of the dictionary
/// `d`: every required field holds the decoded value stored under its
/// name, each optional field is present exactly when the dictionary
/// carries it with the right type, and the UUID list is the decoded list
/// when one is carried and empty otherwise.
pub open spec fn is_device_projection(d: Seq<PropEntry>, p: DeviceProperties) -> bool {
    &&& lookup_str(d, "Address"@) == Some(p.address@)
    &&& lookup_str(d, "Alias"@) == Some(p.alias@)
    &&& lookup_bool(d, "Paired"@) == Some(p.paired)
    &&& lookup_bool(d, "Connected"@) == Some(p.connected)
    &&& lookup_bool(d, "Trusted"@) == Some(p.trusted)
    &&& lookup_bool(d, "Blocked"@) == Some(p.blocked)
    &&& lookup_bool(d, "LegacyPairing"@) == Some(p.legacy_pairing)
    &&& (match lookup_str(d, "Name"@) {
        Some(m) => p.name matches Some(pm) && pm@ == m,
        None => p.name is None,
    })
    &&& (match lookup_str(d, "Icon"@) {
        Some(m) => p.icon matches Some(pm) && pm@ == m,
        None => p.icon is None,
    })
    &&& lookup_u32(d, "Class"@) == p.class
    &&& lookup_u16(d, "Appearance"@) == p.appearance
    &&& (match lookup_str(d, "Modalias"@) {
        Some(m) => p.modalias matches Some(pm) && pm@ == m,
        None => p.modalias is None,
    })
    &&& lookup_i16(d, "RSSI"@) == p.rssi
    &&& (match lookup_array(d, "UUIDs"@) {
        Some(a) => all_strings(a) && p.uuids.deep_view() == string_views(a),
        None => p.uuids@ == Seq::<String>::empty(),
    })
}

impl DeviceProperties {
    /// Projects a flat property dictionary into a typed device snapshot.
    ///
    /// Succeeds exactly when every required field is present with its
    /// declared type; optional fields that are missing or ill-typed decode
    /// as absent.  A UUID list that is present must hold only strings —
    /// one ill-formed element fails the whole projection.  No partial
    /// snapshot is ever returned.
    pub fn new(d: &Vec<PropEntry>) -> (r: Result<DeviceProperties, BtError>)
        ensures
            r is Ok <==> device_props_wf(d@),
            (r matches Ok(p) ==> is_device_projection(d@, p)),
            (r matches Err(e) ==> e is MalformedResponse),
    {
        let address = match dict_get_string(d, "Address") {
            Some(v) => v,
            None => {
                return Err(BtError::MalformedResponse("device property Address missing or ill-typed".to_owned()));
            },
        };
        let alias = match dict_get_string(d, "Alias") {
            Some(v) => v,
            None => {
                return Err(BtError::MalformedResponse("device property Alias missing or ill-typed".to_owned()));
            },
        };
        let paired = match dict_get_bool(d, "Paired") {
            Some(v) => v,
            None => {
                return Err(BtError::MalformedResponse("device property Paired missing or ill-typed".to_owned()));
            },
        };
        let connected = match dict_get_bool(d, "Connected") {
            Some(v) => v,
            None => {
                return Err(BtError::MalformedResponse("device property Connected missing or ill-typed".to_owned()));
            },
        };
        let trusted = match dict_get_bool(d, "Trusted") {
            Some(v) => v,
            None => {
                return Err(BtError::MalformedResponse("device property Trusted missing or ill-typed".to_owned()));
            },
        };
        let blocked = match dict_get_bool(d, "Blocked") {
            Some(v) => v,
            None => {
                return Err(BtError::MalformedResponse("device property Blocked missing or ill-typed".to_owned()));
            },
        };
        let legacy_pairing = match dict_get_bool(d, "LegacyPairing") {
            Some(v) => v,
            None => {
                return Err(BtError::MalformedResponse("device property LegacyPairing missing or ill-typed".to_owned()));
            },
        };
        let uuids = match dict_get(d, "UUIDs") {
            Some(v) => match v.as_array() {
                Some(a) => match decode_string_list(a) {
                    Some(list) => list,
                    None => {
                        return Err(BtError::MalformedResponse("device property UUIDs holds a non-string element".to_owned()));
                    },
                },
                None => Vec::new(),
            },
            None => Vec::new(),
        };
        let name = dict_get_string(d, "Name");
        let icon = dict_get_string(d, "Icon");
        let class = dict_get_u32(d, "Class");
        let appearance = dict_get_u16(d, "Appearance");
        let modalias = dict_get_string(d, "Modalias");
        let rssi = dict_get_i16(d, "RSSI");
        Ok(DeviceProperties {
            address,
            name,
            alias,
            icon,
            class,
            appearance,
            uuids,
            paired,
            connected,
            trusted,
            blocked,
            legacy_pairing,
            modalias,
            rssi,
        })
    }
}

/// A dictionary missing an optional device field still satisfies the
/// projection's success condition — which never mentions the optional
/// fields — and the projected snapshot carries the field as absent, with
/// a missing UUID list decoding as empty.  A dictionary missing a
/// required field fails the whole projection: no snapshot is its
/// projection, partial or otherwise.
pub proof fn lemma_device_field_policy(d: Seq<PropEntry>, p: DeviceProperties)
    ensures
        (device_props_wf(d) && is_device_projection(d, p) && lookup_str(d, "Name"@) is None)
            ==> p.name is None,
        (device_props_wf(d) && is_device_projection(d, p) && lookup_i16(d, "RSSI"@) is None)
            ==> p.rssi is None,
        (device_props_wf(d) && is_device_projection(d, p) && lookup_array(d, "UUIDs"@) is None)
            ==> p.uuids@ == Seq::<String>::empty(),
        lookup_str(d, "Address"@) is None ==> !device_props_wf(d),
        lookup_bool(d, "Paired"@) is None ==> !device_props_wf(d),
{
}

/// Setting a scalar device property and immediately re-reading the full
/// property snapshot reflects the written value, provided the service
/// applied the write synchronously: a re-read dictionary that carries the
/// written value under the written name projects to a snapshot whose
/// field equals that value.
pub proof fn lemma_device_write_read_back(
    d: Seq<PropEntry>,
    p: DeviceProperties,
    s: Seq<char>,
    b: bool,
)
    requires
        is_device_projection(d, p),
    ensures
        lookup_str(d, "Alias"@) == Some(s) ==> p.alias@ == s,
        lookup_bool(d, "Trusted"@) == Some(b) ==> p.trusted == b,
        lookup_bool(d, "Blocked"@) == Some(b) ==> p.blocked == b,
{
}

/// A lightweight handle to one remote device: a shared connection handle
/// plus the device's object path.  Clones refer to the same remote entity;
/// a handle is never destroyed — one that names a now-gone object simply
/// fails its next operation.
#[derive(Clone, Debug)]
pub struct Device {
    pub conn: Connection,
    pub object_path: String,
}

impl Device {
    /// Wraps a connection handle and an object path as a device handle.
    pub fn new(conn: &Connection, object_path: &str) -> (r: Self)
        ensures
            r.conn == *conn,
            r.object_path@ == object_path@,
    {
        Device { conn: *conn, object_path: object_path.to_owned() }
    }

    /// The object path of the remote device.
    pub fn object_path(&self) -> (r: &str)
        ensures
            r@ == self.object_path@,
    {
        self.object_path.as_str()
    }

    /// The object path of the adapter this device hangs under: the portion
    /// of the device's path before its last separator.
    pub fn adapter_object_path(&self) -> (r: String)
        ensures
            r@ == parent_path(self.object_path@),
    {
        parent_object_path(self.object_path.as_str())
    }

    /// Builds the write of this device's `Alias` property.
    pub fn set_alias(&self, val: &str) -> (r: Request)
        ensures
            (r matches Request::SetProperty { object_path, interface, name, value, timeout_ms }
                && object_path@ == self.object_path@
                && interface@ == "org.bluez.Device1"@
                && name@ == "Alias"@
                && (value matches crate::value::BusValue::Str(s) && s@ == val@)
                && timeout_ms == 1000),
    {
        Request::SetProperty {
            object_path: self.object_path.clone(),
            interface: "org.bluez.Device1".to_owned(),
            name: "Alias".to_owned(),
            value: crate::value::BusValue::Str(val.to_owned()),
            timeout_ms: crate::common::PROPERTY_CALL_TIMEOUT_MS,
        }
    }

    /// Builds the write of this device's `Trusted` property.
    pub fn set_trusted(&self, val: bool) -> (r: Request)
        ensures
            (r matches Request::SetProperty { object_path, interface, name, value, timeout_ms }
                && object_path@ == self.object_path@
                && interface@ == "org.bluez.Device1"@
                && name@ == "Trusted"@
                && value == crate::value::BusValue::Bool(val)
                && timeout_ms == 1000),
    {
        Request::SetProperty {
            object_path: self.object_path.clone(),
            interface: "org.bluez.Device1".to_owned(),
            name: "Trusted".to_owned(),
            value: crate::value::BusValue::Bool(val),
            timeout_ms: crate::common::PROPERTY_CALL_TIMEOUT_MS,
        }
    }

    /// Builds the write of this device's `Blocked` property.
    pub fn set_blocked(&self, val: bool) -> (r: Request)
        ensures
            (r matches Request::SetProperty { object_path, interface, name, value, timeout_ms }
                && object_path@ == self.object_path@
                && interface@ == "org.bluez.Device1"@
                && name@ == "Blocked"@
                && value == crate::value::BusValue::Bool(val)
                && timeout_ms == 1000),
    {
        Request::SetProperty {
            object_path: self.object_path.clone(),
            interface: "org.bluez.Device1".to_owned(),
            name: "Blocked".to_owned(),
            value: crate::value::BusValue::Bool(val),
            timeout_ms: crate::common::PROPERTY_CALL_TIMEOUT_MS,
        }
    }

    /// Builds the read of this device's full property set.
    pub fn get_properties_request(&self) -> (r: Request)
        ensures
            (r matches Request::GetAllProperties { object_path, interface, timeout_ms }
                && object_path@ == self.object_path@
                && interface@ == "org.bluez.Device1"@
                && timeout_ms == 1000),
    {
        Request::GetAllProperties {
            object_path: self.object_path.clone(),
            interface: "org.bluez.Device1".to_owned(),
            timeout_ms: crate::common::PROPERTY_CALL_TIMEOUT_MS,
        }
    }

    /// Builds the `Connect` method call on this device.
    pub fn connect(&self) -> (r: Request)
        ensures
            (r matches Request::MethodCall { object_path, interface, member, args, timeout_ms }
                && object_path@ == self.object_path@
                && interface@ == "org.bluez.Device1"@
                && member@ == "Connect"@
                && args@ == Seq::<crate::value::BusValue>::empty()
                && timeout_ms == 60000),
    {
        self.method_call("Connect")
    }

    /// Builds the `Disconnect` method call on this device.
    pub fn disconnect(&self) -> (r: Request)
        ensures
            (r matches Request::MethodCall { object_path, interface, member, args, timeout_ms }
                && object_path@ == self.object_path@
                && interface@ == "org.bluez.Device1"@
                && member@ == "Disconnect"@
                && args@ == Seq::<crate::value::BusValue>::empty()
                && timeout_ms == 60000),
    {
        self.method_call("Disconnect")
    }

    /// Builds the `ConnectProfile` method call for one profile UUID.
    pub fn connect_profile(&self, uuid: &str) -> (r: Request)
        ensures
            (r matches Request::MethodCall { object_path, interface, member, args, timeout_ms }
                && object_path@ == self.object_path@
                && interface@ == "org.bluez.Device1"@
                && member@ == "ConnectProfile"@
                && args@.len() == 1
                && (args@[0] matches crate::value::BusValue::Str(s) && s@ == uuid@)
                && timeout_ms == 60000),
    {
        self.method_call1("ConnectProfile", uuid)
    }

    /// Builds the `DisconnectProfile` method call for one profile UUID.
    pub fn disconnect_profile(&self, uuid: &str) -> (r: Request)
        ensures
            (r matches Request::MethodCall { object_path, interface, member, args, timeout_ms }
                && object_path@ == self.object_path@
                && interface@ == "org.bluez.Device1"@
                && member@ == "DisconnectProfile"@
                && args@.len() == 1
                && (args@[0] matches crate::value::BusValue::Str(s) && s@ == uuid@)
                && timeout_ms == 60000),
    {
        self.method_call1("DisconnectProfile", uuid)
    }

    /// Builds the `Pair` method call on this device.
    pub fn pair(&self) -> (r: Request)
        ensures
            (r matches Request::MethodCall { object_path, interface, member, args, timeout_ms }
                && object_path@ == self.object_path@
                && interface@ == "org.bluez.Device1"@
                && member@ == "Pair"@
                && args@ == Seq::<crate::value::BusValue>::empty()
                && timeout_ms == 60000),
    {
        self.method_call("Pair")
    }

    /// Builds the `CancelPairing` method call on this device.
    pub fn cancel_pairing(&self) -> (r: Request)
        ensures
            (r matches Request::MethodCall { object_path, interface, member, args, timeout_ms }
                && object_path@ == self.object_path@
                && interface@ == "org.bluez.Device1"@
                && member@ == "CancelPairing"@
                && args@ == Seq::<crate::value::BusValue>::empty()
                && timeout_ms == 60000),
    {
        self.method_call("CancelPairing")
    }

    /// Builds a device-interface method call with no arguments.
    fn method_call(&self, member: &str) -> (r: Request)
        ensures
            (r matches Request::MethodCall { object_path, interface, member: m, args, timeout_ms }
                && object_path@ == self.object_path@
                && interface@ == "org.bluez.Device1"@
                && m@ == member@
                && args@ == Seq::<crate::value::BusValue>::empty()
                && timeout_ms == 60000),
    {
        Request::MethodCall {
            object_path: self.object_path.clone(),
            interface: "org.bluez.Device1".to_owned(),
            member: member.to_owned(),
            args: Vec::new(),
            timeout_ms: crate::common::METHOD_CALL_TIMEOUT_MS,
        }
    }

    /// Builds a device-interface method call with one string argument.
    fn method_call1(&self, member: &str, arg: &str) -> (r: Request)
        ensures
            (r matches Request::MethodCall { object_path, interface, member: m, args, timeout_ms }
                && object_path@ == self.object_path@
                && interface@ == "org.bluez.Device1"@
                && m@ == member@
                && args@.len() == 1
                && (args@[0] matches crate::value::BusValue::Str(s) && s@ == arg@)
                && timeout_ms == 60000),
    {
        let mut args: Vec<crate::value::BusValue> = Vec::new();
        args.push(crate::value::BusValue::Str(arg.to_owned()));
        Request::MethodCall {
            object_path: self.object_path.clone(),
            interface: "org.bluez.Device1".to_owned(),
            member: member.to_owned(),
            args,
            timeout_ms: crate::common::METHOD_CALL_TIMEOUT_MS,
        }
    }
}

/// Whether the snapshot `p` answers to the name or address `needle`: its
/// address, its alias, or its name when one is present, equals it exactly.
pub open spec fn device_matches(p: DeviceProperties, needle: Seq<char>) -> bool {
    p.address@ == needle || p.alias@ == needle || (p.name matches Some(nm) && nm@ == needle)
}

impl Device {
    /// Picks the first device whose snapshot answers to `name_or_addr`,
    /// and absent when none does.
    ///
    /// `props` holds, position by position, the property snapshot of each
    /// device of `devices`.
    pub fn find(devices: &Vec<Device>, props: &Vec<DeviceProperties>, name_or_addr: &str) -> (r:
        Option<Device>)
        requires
            props@.len() == devices@.len(),
        ensures
            (match r {
                Some(d) => exists|i: int|
                    #![auto]
                    0 <= i < devices@.len() && device_matches(props@[i], name_or_addr@) && d.conn
                        == devices@[i].conn && d.object_path@ == devices@[i].object_path@ && (
                    forall|j: int| 0 <= j < i ==> !device_matches(props@[j], name_or_addr@)),
                None => forall|i: int|
                    0 <= i < devices@.len() ==> !device_matches(
                        #[trigger] props@[i],
                        name_or_addr@,
                    ),
            }),
    {
        let mut i: usize = 0;
        while i < devices.len()
            invariant
                i <= devices@.len(),
                props@.len() == devices@.len(),
                forall|j: int| 0 <= j < i ==> !device_matches(#[trigger] props@[j], name_or_addr@),
            decreases devices@.len() - i,
        {
            let p = &props[i];
            let name_hits = match &p.name {
                Some(nm) => crate::path::str_eq(nm.as_str(), name_or_addr),
                None => false,
            };
            if crate::path::str_eq(p.address.as_str(), name_or_addr) || crate::path::str_eq(
                p.alias.as_str(),
                name_or_addr,
            ) || name_hits {
                assert(device_matches(props@[i as int], name_or_addr@));
                let d = Device::new(&devices[i].conn, devices[i].object_path.as_str());
                assert(d.conn == devices@[i as int].conn && d.object_path@ == devices@[
                    i as int
                ].object_path@);
                return Some(d);
            }
            i = i + 1;
        }
        None
    }
}

/// Builds one device handle per entry of the managed-object tree that
/// lists the device interface under the adapter's own path, in the order
/// the bus returned them.
///
/// `reply` is what the enumeration call built by
/// [`crate::common::get_managed_objects_request`] returned.  A malformed
/// tree aborts the whole enumeration; it never partially succeeds.
pub fn get_devices(adapter: &crate::adapter::Adapter, reply: &crate::value::BusValue) -> (r:
    Result<Vec<Device>, BtError>)
    ensures
        (match *reply {
            crate::value::BusValue::Array(entries) => {
                &&& (r is Ok <==> crate::common::tree_wf(entries@))
                &&& (r matches Ok(v) ==> {
                    let ps = crate::common::matched_paths(
                        entries@,
                        crate::path::normalized_root(adapter.object_path@),
                        "org.bluez.Device1"@,
                    );
                    &&& v@.len() == ps.len()
                    &&& forall|k: int|
                        0 <= k < v@.len() ==> (#[trigger] v@[k]).conn == adapter.conn && v@[
                            k
                        ].object_path@ == ps[k]
                })
            },
            _ => r is Err,
        }),
        r matches Err(e) ==> e is MalformedResponse,
{
    let paths = match crate::common::walk_managed_objects(
        reply,
        adapter.object_path.as_str(),
        "org.bluez.Device1",
    ) {
        Ok(p) => p,
        Err(e) => {
            return Err(e);
        },
    };
    assert(forall|k: int| 0 <= k < paths@.len() ==> #[trigger] paths@[k]@ == paths.deep_view()[k]);
    let conn = adapter.conn();
    let mut v: Vec<Device> = Vec::new();
    let mut i: usize = 0;
    while i < paths.len()
        invariant
            i <= paths@.len(),
            v@.len() == i,
            *conn == adapter.conn,
            forall|k: int|
                0 <= k < i ==> (#[trigger] v@[k]).conn == adapter.conn && v@[k].object_path@
                    == paths@[k]@,
        decreases paths@.len() - i,
    {
        v.push(Device::new(conn, paths[i].as_str()));
        i = i + 1;
    }
    Ok(v)
}

} // verus!
