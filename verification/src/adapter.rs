//! The remote-object handle of one adapter, and its typed property snapshot.

use vstd::prelude::*;
use crate::Connection;
use crate::common::Request;
use crate::device::Device;
use crate::error::BtError;
use crate::value::BusValue;
use crate::value::PropEntry;
use crate::value::all_strings;
use crate::value::decode_string_list;
use crate::value::dict_get;
use crate::value::dict_get_bool;
use crate::value::dict_get_string;
use crate::value::dict_get_u32;
use crate::value::lookup_array;
use crate::value::lookup_bool;
use crate::value::lookup_str;
use crate::value::lookup_u32;
use crate::value::string_views;

verus! {

/// The interface under which the managing service exposes an adapter.
pub const ADAPTER_INTERFACE: &'static str = "org.bluez.Adapter1";

/// A point-in-time, fully typed snapshot of one adapter's property set.
/// Required fields decode successfully whenever construction succeeds;
/// the one optional field defaults to absent without failing the whole
/// snapshot.
#[derive(Clone, Debug)]
pub struct AdapterProperties {
    pub address: String,
    pub name: String,
    pub alias: String,
    pub class: u32,
    pub powered: bool,
    pub discoverable: bool,
    pub discoverable_timeout: u32,
    pub pairable: bool,
    pub pairable_timeout: u32,
    pub discovering: bool,
    pub uuids: Vec<String>,
    pub modalias: Option<String>,
}

/// Whether the dictionary `d` carries every required adapter property with
/// its declared type, so that a snapshot can be built from it.
pub open spec fn adapter_props_wf(d: Seq<PropEntry>) -> bool {
    &&& lookup_str(d, "Address"@) is Some
    &&& lookup_str(d, "Name"@) is Some
    &&& lookup_str(d, "Alias"@) is Some
    &&& lookup_u32(d, "Class"@) is Some
    &&& lookup_bool(d, "Powered"@) is Some
    &&& lookup_bool(d, "Discoverable"@) is Some
    &&& lookup_u32(d, "DiscoverableTimeout"@) is Some
    &&& lookup_bool(d, "Pairable"@) is Some
    &&& lookup_u32(d, "PairableTimeout"@) is Some
    &&& lookup_bool(d, "Discovering"@) is Some
    &&& (lookup_array(d, "UUIDs"@) matches Some(a) && all_strings(a))
}

/// Whether the snapshot `p` is exactly the projection of the dictionary
/// `d`: every required field holds the decoded value stored under its
/// name, and the optional field is present exactly when the dictionary
/// carries it with the right type.
pub open spec fn is_adapter_projection(d: Seq<PropEntry>, p: AdapterProperties) -> bool {
    &&& lookup_str(d, "Address"@) == Some(p.address@)
    &&& lookup_str(d, "Name"@) == Some(p.name@)
    &&& lookup_str(d, "Alias"@) == Some(p.alias@)
    &&& lookup_u32(d, "Class"@) == Some(p.class)
    &&& lookup_bool(d, "Powered"@) == Some(p.powered)
    &&& lookup_bool(d, "Discoverable"@) == Some(p.discoverable)
    &&& lookup_u32(d, "DiscoverableTimeout"@) == Some(p.discoverable_timeout)
    &&& lookup_bool(d, "Pairable"@) == Some(p.pairable)
    &&& lookup_u32(d, "PairableTimeout"@) == Some(p.pairable_timeout)
    &&& lookup_bool(d, "Discovering"@) == Some(p.discovering)
    &&& (lookup_array(d, "UUIDs"@) matches Some(a) && all_strings(a) && p.uuids.deep_view()
        == string_views(a))
    &&& (match lookup_str(d, "Modalias"@) {
        Some(m) => p.modalias matches Some(pm) && pm@ == m,
        None => p.modalias is None,
    })
}

impl AdapterProperties {
    /// Projects a flat property dictionary into a typed adapter snapshot.
    ///
    /// Succeeds exactly when every required field is present with its
    /// declared type and, the UUID list being required here, every element
    /// of it is a string.  No partial snapshot is ever returned: a missing
    /// or ill-typed required field fails the whole projection.
    pub fn new(d: &Vec<PropEntry>) -> (r: Result<AdapterProperties, BtError>)
        ensures
            r is Ok <==> adapter_props_wf(d@),
            (r matches Ok(p) ==> is_adapter_projection(d@, p)),
            (r matches Err(e) ==> e is MalformedResponse),
    {
        let address = match dict_get_string(d, "Address") {
            Some(v) => v,
            None => {
                return Err(BtError::MalformedResponse("adapter property Address missing or ill-typed".to_owned()));
            },
        };
        let name = match dict_get_string(d, "Name") {
            Some(v) => v,
            None => {
                return Err(BtError::MalformedResponse("adapter property Name missing or ill-typed".to_owned()));
            },
        };
        let alias = match dict_get_string(d, "Alias") {
            Some(v) => v,
            None => {
                return Err(BtError::MalformedResponse("adapter property Alias missing or ill-typed".to_owned()));
            },
        };
        let class = match dict_get_u32(d, "Class") {
            Some(v) => v,
            None => {
                return Err(BtError::MalformedResponse("adapter property Class missing or ill-typed".to_owned()));
            },
        };
        let powered = match dict_get_bool(d, "Powered") {
            Some(v) => v,
            None => {
                return Err(BtError::MalformedResponse("adapter property Powered missing or ill-typed".to_owned()));
            },
        };
        let discoverable = match dict_get_bool(d, "Discoverable") {
            Some(v) => v,
            None => {
                return Err(BtError::MalformedResponse("adapter property Discoverable missing or ill-typed".to_owned()));
            },
        };
        let discoverable_timeout = match dict_get_u32(d, "DiscoverableTimeout") {
            Some(v) => v,
            None => {
                return Err(BtError::MalformedResponse("adapter property DiscoverableTimeout missing or ill-typed".to_owned()));
            },
        };
        let pairable = match dict_get_bool(d, "Pairable") {
            Some(v) => v,
            None => {
                return Err(BtError::MalformedResponse("adapter property Pairable missing or ill-typed".to_owned()));
            },
        };
        let pairable_timeout = match dict_get_u32(d, "PairableTimeout") {
            Some(v) => v,
            None => {
                return Err(BtError::MalformedResponse("adapter property PairableTimeout missing or ill-typed".to_owned()));
            },
        };
        let discovering = match dict_get_bool(d, "Discovering") {
            Some(v) => v,
            None => {
                return Err(BtError::MalformedResponse("adapter property Discovering missing or ill-typed".to_owned()));
            },
        };
        let uuids = match dict_get(d, "UUIDs") {
            Some(v) => match v.as_array() {
                Some(a) => match decode_string_list(a) {
                    Some(list) => list,
                    None => {
                        return Err(BtError::MalformedResponse("adapter property UUIDs holds a non-string element".to_owned()));
                    },
                },
                None => {
                    return Err(BtError::MalformedResponse("adapter property UUIDs missing or ill-typed".to_owned()));
                },
            },
            None => {
                return Err(BtError::MalformedResponse("adapter property UUIDs missing or ill-typed".to_owned()));
            },
        };
        let modalias = dict_get_string(d, "Modalias");
        Ok(AdapterProperties {
            address,
            name,
            alias,
            class,
            powered,
            discoverable,
            discoverable_timeout,
            pairable,
            pairable_timeout,
            discovering,
            uuids,
            modalias,
        })
    }
}

/// A dictionary missing the optional adapter field still satisfies the
/// projection's success condition — which never mentions it — and the
/// projected snapshot carries the field as absent.  A dictionary missing
/// a required field fails the whole projection: no snapshot is its
/// projection, partial or otherwise.
pub proof fn lemma_adapter_field_policy(d: Seq<PropEntry>, p: AdapterProperties)
    ensures
        (adapter_props_wf(d) && is_adapter_projection(d, p) && lookup_str(d, "Modalias"@) is None)
            ==> p.modalias is None,
        lookup_str(d, "Address"@) is None ==> !adapter_props_wf(d),
        lookup_bool(d, "Powered"@) is None ==> !adapter_props_wf(d),
{
}

/// Setting a scalar adapter property and immediately re-reading the full
/// property snapshot reflects the written value, provided the service
/// applied the write synchronously: a re-read dictionary that carries the
/// written value under the written name projects to a snapshot whose
/// field equals that value.
pub proof fn lemma_adapter_write_read_back(
    d: Seq<PropEntry>,
    p: AdapterProperties,
    s: Seq<char>,
    b: bool,
    u: u32,
)
    requires
        is_adapter_projection(d, p),
    ensures
        lookup_str(d, "Alias"@) == Some(s) ==> p.alias@ == s,
        lookup_bool(d, "Powered"@) == Some(b) ==> p.powered == b,
        lookup_bool(d, "Discoverable"@) == Some(b) ==> p.discoverable == b,
        lookup_u32(d, "DiscoverableTimeout"@) == Some(u) ==> p.discoverable_timeout == u,
        lookup_bool(d, "Pairable"@) == Some(b) ==> p.pairable == b,
        lookup_u32(d, "PairableTimeout"@) == Some(u) ==> p.pairable_timeout == u,
{
}

/// A lightweight handle to one remote adapter: a shared connection handle
/// plus the adapter's object path.  Clones refer to the same remote entity.
#[derive(Clone, Debug)]
pub struct Adapter {
    pub conn: Connection,
    pub object_path: String,
}

impl Adapter {
    /// Wraps a connection handle and an object path as an adapter handle.
    pub fn new(conn: &Connection, object_path: &str) -> (r: Self)
        ensures
            r.conn == *conn,
            r.object_path@ == object_path@,
    {
        Adapter { conn: *conn, object_path: object_path.to_owned() }
    }

    /// The connection handle this adapter was discovered through.
    pub fn conn(&self) -> (r: &Connection)
        ensures
            *r == self.conn,
    {
        &self.conn
    }

    /// The object path of the remote adapter.
    pub fn object_path(&self) -> (r: &str)
        ensures
            r@ == self.object_path@,
    {
        self.object_path.as_str()
    }

    /// Builds the read of this adapter's full property set.
    pub fn get_properties_request(&self) -> (r: Request)
        ensures
            (r matches Request::GetAllProperties { object_path, interface, timeout_ms }
                && object_path@ == self.object_path@
                && interface@ == "org.bluez.Adapter1"@
                && timeout_ms == 1000),
    {
        Request::GetAllProperties {
            object_path: self.object_path.clone(),
            interface: "org.bluez.Adapter1".to_owned(),
            timeout_ms: crate::common::PROPERTY_CALL_TIMEOUT_MS,
        }
    }

    /// Builds the write of this adapter's `Alias` property.
    pub fn set_alias(&self, val: &str) -> (r: Request)
        ensures
            (r matches Request::SetProperty { object_path, interface, name, value, timeout_ms }
                && object_path@ == self.object_path@
                && interface@ == "org.bluez.Adapter1"@
                && name@ == "Alias"@
                && (value matches BusValue::Str(s) && s@ == val@)
                && timeout_ms == 1000),
    {
        Request::SetProperty {
            object_path: self.object_path.clone(),
            interface: "org.bluez.Adapter1".to_owned(),
            name: "Alias".to_owned(),
            value: BusValue::Str(val.to_owned()),
            timeout_ms: crate::common::PROPERTY_CALL_TIMEOUT_MS,
        }
    }

    /// Builds the write of this adapter's `Powered` property.
    pub fn set_powered(&self, val: bool) -> (r: Request)
        ensures
            (r matches Request::SetProperty { object_path, interface, name, value, timeout_ms }
                && object_path@ == self.object_path@
                && interface@ == "org.bluez.Adapter1"@
                && name@ == "Powered"@
                && value == BusValue::Bool(val)
                && timeout_ms == 1000),
    {
        self.set_bool_property("Powered", val)
    }

    /// Builds the write of this adapter's `Discoverable` property.
    pub fn set_discoverable(&self, val: bool) -> (r: Request)
        ensures
            (r matches Request::SetProperty { object_path, interface, name, value, timeout_ms }
                && object_path@ == self.object_path@
                && interface@ == "org.bluez.Adapter1"@
                && name@ == "Discoverable"@
                && value == BusValue::Bool(val)
                && timeout_ms == 1000),
    {
        self.set_bool_property("Discoverable", val)
    }

    /// Builds the write of this adapter's `DiscoverableTimeout` property.
    pub fn set_discoverable_timeout(&self, val: u32) -> (r: Request)
        ensures
            (r matches Request::SetProperty { object_path, interface, name, value, timeout_ms }
                && object_path@ == self.object_path@
                && interface@ == "org.bluez.Adapter1"@
                && name@ == "DiscoverableTimeout"@
                && value == BusValue::U32(val)
                && timeout_ms == 1000),
    {
        self.set_u32_property("DiscoverableTimeout", val)
    }

    /// Builds the write of this adapter's `Pairable` property.
    pub fn set_pairable(&self, val: bool) -> (r: Request)
        ensures
            (r matches Request::SetProperty { object_path, interface, name, value, timeout_ms }
                && object_path@ == self.object_path@
                && interface@ == "org.bluez.Adapter1"@
                && name@ == "Pairable"@
                && value == BusValue::Bool(val)
                && timeout_ms == 1000),
    {
        self.set_bool_property("Pairable", val)
    }

    /// Builds the write of this adapter's `PairableTimeout` property.
    pub fn set_pairable_timeout(&self, val: u32) -> (r: Request)
        ensures
            (r matches Request::SetProperty { object_path, interface, name, value, timeout_ms }
                && object_path@ == self.object_path@
                && interface@ == "org.bluez.Adapter1"@
                && name@ == "PairableTimeout"@
                && value == BusValue::U32(val)
                && timeout_ms == 1000),
    {
        self.set_u32_property("PairableTimeout", val)
    }

    /// Builds the `StartDiscovery` method call on this adapter.
    pub fn start_discovery(&self) -> (r: Request)
        ensures
            (r matches Request::MethodCall { object_path, interface, member, args, timeout_ms }
                && object_path@ == self.object_path@
                && interface@ == "org.bluez.Adapter1"@
                && member@ == "StartDiscovery"@
                && args@ == Seq::<BusValue>::empty()
                && timeout_ms == 60000),
    {
        Request::MethodCall {
            object_path: self.object_path.clone(),
            interface: "org.bluez.Adapter1".to_owned(),
            member: "StartDiscovery".to_owned(),
            args: Vec::new(),
            timeout_ms: crate::common::METHOD_CALL_TIMEOUT_MS,
        }
    }

    /// Builds the `StopDiscovery` method call on this adapter.
    pub fn stop_discovery(&self) -> (r: Request)
        ensures
            (r matches Request::MethodCall { object_path, interface, member, args, timeout_ms }
                && object_path@ == self.object_path@
                && interface@ == "org.bluez.Adapter1"@
                && member@ == "StopDiscovery"@
                && args@ == Seq::<BusValue>::empty()
                && timeout_ms == 60000),
    {
        Request::MethodCall {
            object_path: self.object_path.clone(),
            interface: "org.bluez.Adapter1".to_owned(),
            member: "StopDiscovery".to_owned(),
            args: Vec::new(),
            timeout_ms: crate::common::METHOD_CALL_TIMEOUT_MS,
        }
    }

    /// Builds the `RemoveDevice` method call naming the given device.
    pub fn remove_device(&self, device: &Device) -> (r: Request)
        ensures
            (r matches Request::MethodCall { object_path, interface, member, args, timeout_ms }
                && object_path@ == self.object_path@
                && interface@ == "org.bluez.Adapter1"@
                && member@ == "RemoveDevice"@
                && args@.len() == 1
                && (args@[0] matches BusValue::Str(s) && s@ == device.object_path@)
                && timeout_ms == 60000),
    {
        let mut args: Vec<BusValue> = Vec::new();
        args.push(BusValue::Str(device.object_path.clone()));
        Request::MethodCall {
            object_path: self.object_path.clone(),
            interface: "org.bluez.Adapter1".to_owned(),
            member: "RemoveDevice".to_owned(),
            args,
            timeout_ms: crate::common::METHOD_CALL_TIMEOUT_MS,
        }
    }

    /// Builds the write of one boolean adapter property.
    fn set_bool_property(&self, name: &str, val: bool) -> (r: Request)
        ensures
            (r matches Request::SetProperty { object_path, interface, name: n, value, timeout_ms }
                && object_path@ == self.object_path@
                && interface@ == "org.bluez.Adapter1"@
                && n@ == name@
                && value == BusValue::Bool(val)
                && timeout_ms == 1000),
    {
        Request::SetProperty {
            object_path: self.object_path.clone(),
            interface: "org.bluez.Adapter1".to_owned(),
            name: name.to_owned(),
            value: BusValue::Bool(val),
            timeout_ms: crate::common::PROPERTY_CALL_TIMEOUT_MS,
        }
    }

    /// Builds the write of one unsigned 32-bit adapter property.
    fn set_u32_property(&self, name: &str, val: u32) -> (r: Request)
        ensures
            (r matches Request::SetProperty { object_path, interface, name: n, value, timeout_ms }
                && object_path@ == self.object_path@
                && interface@ == "org.bluez.Adapter1"@
                && n@ == name@
                && value == BusValue::U32(val)
                && timeout_ms == 1000),
    {
        Request::SetProperty {
            object_path: self.object_path.clone(),
            interface: "org.bluez.Adapter1".to_owned(),
            name: name.to_owned(),
            value: BusValue::U32(val),
            timeout_ms: crate::common::PROPERTY_CALL_TIMEOUT_MS,
        }
    }
}

/// Builds one adapter handle per entry of the managed-object tree that
/// lists the adapter interface, in the order the bus returned them.
///
/// `reply` is what the enumeration call built by
/// [`crate::common::get_managed_objects_request`] returned.  A malformed
/// tree aborts the whole enumeration; it never partially succeeds.
pub fn get_adapters(conn: &Connection, reply: &BusValue) -> (r: Result<Vec<Adapter>, BtError>)
    ensures
        (match *reply {
            BusValue::Array(entries) => {
                &&& (r is Ok <==> crate::common::tree_wf(entries@))
                &&& (r matches Ok(v) ==> {
                    let ps = crate::common::matched_paths(
                        entries@,
                        crate::path::normalized_root("/"@),
                        "org.bluez.Adapter1"@,
                    );
                    &&& v@.len() == ps.len()
                    &&& forall|k: int|
                        0 <= k < v@.len() ==> (#[trigger] v@[k]).conn == *conn && v@[
                            k
                        ].object_path@ == ps[k]
                })
            },
            _ => r is Err,
        }),
        r matches Err(e) ==> e is MalformedResponse,
{
    let paths = match crate::common::walk_managed_objects(reply, "/", "org.bluez.Adapter1") {
        Ok(p) => p,
        Err(e) => {
            return Err(e);
        },
    };
    assert(forall|k: int| 0 <= k < paths@.len() ==> #[trigger] paths@[k]@ == paths.deep_view()[k]);
    let mut v: Vec<Adapter> = Vec::new();
    let mut i: usize = 0;
    while i < paths.len()
        invariant
            i <= paths@.len(),
            v@.len() == i,
            forall|k: int|
                0 <= k < i ==> (#[trigger] v@[k]).conn == *conn && v@[k].object_path@
                    == paths@[k]@,
        decreases paths@.len() - i,
    {
        v.push(Adapter::new(conn, paths[i].as_str()));
        i = i + 1;
    }
    Ok(v)
}

/// Whether the snapshot `p` answers to the name or address `needle`: its
/// address, alias or name equals it exactly.
pub open spec fn adapter_matches(p: AdapterProperties, needle: Seq<char>) -> bool {
    p.address@ == needle || p.alias@ == needle || p.name@ == needle
}

/// Picks an adapter: with a name or address given, the first adapter whose
/// snapshot answers to it, and absent when none does; with none given, the
/// first adapter of the list, and absent when the list is empty.
///
/// `props` holds, position by position, the property snapshot of each
/// adapter of `adapters`.
pub fn find_adapter(adapters: &Vec<Adapter>, props: &Vec<AdapterProperties>, name_or_addr: Option<
    &str,
>) -> (r: Option<Adapter>)
    requires
        props@.len() == adapters@.len(),
    ensures
        (match name_or_addr {
            Some(n) => (match r {
                Some(a) => exists|i: int|
                    #![auto]
                    0 <= i < adapters@.len() && adapter_matches(props@[i], n@) && a.conn
                        == adapters@[i].conn && a.object_path@ == adapters@[i].object_path@ && (
                    forall|j: int| 0 <= j < i ==> !adapter_matches(props@[j], n@)),
                None => forall|i: int|
                    0 <= i < adapters@.len() ==> !adapter_matches(#[trigger] props@[i], n@),
            }),
            None => (match r {
                Some(a) => adapters@.len() > 0 && a.conn == adapters@[0].conn && a.object_path@
                    == adapters@[0].object_path@,
                None => adapters@.len() == 0,
            }),
        }),
{
    match name_or_addr {
        Some(n) => {
            let mut i: usize = 0;
            while i < adapters.len()
                invariant
                    i <= adapters@.len(),
                    props@.len() == adapters@.len(),
                    (name_or_addr matches Some(m) && m@ == n@),
                    forall|j: int| 0 <= j < i ==> !adapter_matches(#[trigger] props@[j], n@),
                decreases adapters@.len() - i,
            {
                let p = &props[i];
                if crate::path::str_eq(p.address.as_str(), n) || crate::path::str_eq(
                    p.alias.as_str(),
                    n,
                ) || crate::path::str_eq(p.name.as_str(), n) {
                    assert(adapter_matches(props@[i as int], n@));
                    let a = Adapter::new(&adapters[i].conn, adapters[i].object_path.as_str());
                    assert(a.conn == adapters@[i as int].conn && a.object_path@ == adapters@[
                        i as int
                    ].object_path@);
                    return Some(a);
                }
                i = i + 1;
            }
            None
        },
        None => {
            if adapters.len() > 0 {
                Some(Adapter::new(&adapters[0].conn, adapters[0].object_path.as_str()))
            } else {
                None
            }
        },
    }
}

} // verus!
