//! The requests the library hands to the bus transport, and the fixed
//! protocol names it consumes.
//!
//! The transport is a collaborator outside this crate.  Every operation of
//! a remote-object handle that needs the bus is expressed as a [`Request`]
//! value: the caller performs it against the managing service and hands the
//! reply back as plain values.  All requests are addressed to the managing
//! service, [`SERVICE_NAME`].

use vstd::prelude::*;
use crate::error::BtError;
use crate::path::normalize_root;
use crate::path::normalized_root;
use crate::path::starts_with;
use crate::path::str_eq;
use crate::path::str_starts_with;
use crate::value::BusValue;

verus! {

/// The well-known bus name of the managing service.
pub const SERVICE_NAME: &'static str = "org.bluez";

/// The object-manager interface that exposes the managed-object tree.
pub const OBJECT_MANAGER_INTERFACE: &'static str = "org.freedesktop.DBus.ObjectManager";

/// The properties interface whose `PropertiesChanged` signal reports
/// property updates.
pub const PROPERTIES_INTERFACE: &'static str = "org.freedesktop.DBus.Properties";

/// The timeout, in milliseconds, of one enumeration or property call.
pub const PROPERTY_CALL_TIMEOUT_MS: u32 = 1000;

/// The timeout, in milliseconds, of one remote method call.
pub const METHOD_CALL_TIMEOUT_MS: u32 = 60000;

/// One blocking call for the transport to perform against the managing
/// service, built by this crate and executed outside it.
#[derive(Debug)]
pub enum Request {
    /// The single "get all managed objects" enumeration call, issued on the
    /// object-manager interface at the root of the service's tree.
    GetManagedObjects { timeout_ms: u32 },
    /// A read of one object's full property set on one interface.
    GetAllProperties { object_path: String, interface: String, timeout_ms: u32 },
    /// A read of one property of one object.
    GetProperty { object_path: String, interface: String, name: String, timeout_ms: u32 },
    /// A write of one scalar property of one object.
    SetProperty {
        object_path: String,
        interface: String,
        name: String,
        value: BusValue,
        timeout_ms: u32,
    },
    /// An invocation of one remote method with its ordered argument list.
    MethodCall {
        object_path: String,
        interface: String,
        member: String,
        args: Vec<BusValue>,
        timeout_ms: u32,
    },
}

/// Builds the single enumeration call that returns the whole managed-object
/// tree of the service.
pub fn get_managed_objects_request() -> (r: Request)
    ensures
        r matches Request::GetManagedObjects { timeout_ms } && timeout_ms == 1000,
{
    Request::GetManagedObjects { timeout_ms: PROPERTY_CALL_TIMEOUT_MS }
}

/// Builds the read of one property of one object.
pub fn get_property_request(object_path: &str, interface: &str, name: &str) -> (r: Request)
    ensures
        (r matches Request::GetProperty { object_path: p, interface: i, name: n, timeout_ms }
            && p@ == object_path@
            && i@ == interface@
            && n@ == name@
            && timeout_ms == 1000),
{
    Request::GetProperty {
        object_path: object_path.to_owned(),
        interface: interface.to_owned(),
        name: name.to_owned(),
        timeout_ms: PROPERTY_CALL_TIMEOUT_MS,
    }
}

/// Whether one entry of the managed-object tree has the shape the protocol
/// promises: a (path, interface list) pair whose interface list is an array
/// of (interface name, property dictionary) pairs.
pub open spec fn entry_wf(e: BusValue) -> bool {
    e matches BusValue::DictEntry(_path, ifs) && (*ifs matches BusValue::Array(items)
        && forall|j: int| 0 <= j < items@.len() ==> items@[j] is DictEntry)
}

/// Whether a whole managed-object tree is well shaped.
pub open spec fn tree_wf(entries: Seq<BusValue>) -> bool {
    forall|i: int| 0 <= i < entries.len() ==> entry_wf(#[trigger] entries[i])
}

/// How many entries of one interface list carry the interface `iface`.
pub open spec fn iface_matches(items: Seq<BusValue>, iface: Seq<char>) -> nat
    decreases items.len(),
{
    if items.len() == 0 {
        0
    } else {
        iface_matches(items.drop_last(), iface) + (if items.last() matches BusValue::DictEntry(
            n,
            _,
        ) && n@ == iface {
            1nat
        } else {
            0nat
        })
    }
}

/// The paths one tree entry contributes to an enumeration scoped to the
/// normalized root `nroot` and the interface `iface`: its path once per
/// matching interface entry when the path lies under the root, and nothing
/// otherwise.
pub open spec fn entry_paths(e: BusValue, nroot: Seq<char>, iface: Seq<char>) -> Seq<Seq<char>> {
    match e {
        BusValue::DictEntry(p, ifs) => match *ifs {
            BusValue::Array(items) => if starts_with(p@, nroot) {
                Seq::new(iface_matches(items@, iface), |i: int| p@)
            } else {
                Seq::empty()
            },
            _ => Seq::empty(),
        },
        _ => Seq::empty(),
    }
}

/// The paths a whole tree contributes, in the order the bus returned them.
pub open spec fn matched_paths(entries: Seq<BusValue>, nroot: Seq<char>, iface: Seq<char>) -> Seq<
    Seq<char>,
>
    decreases entries.len(),
{
    if entries.len() == 0 {
        Seq::empty()
    } else {
        matched_paths(entries.drop_last(), nroot, iface) + entry_paths(
            entries.last(),
            nroot,
            iface,
        )
    }
}

/// Walks the reply of the enumeration call: for each (path, interfaces)
/// entry, for each interface entry naming `iface`, yields the path when it
/// lies under `root` normalized to end with the separator.  Any malformed
/// top-level shape aborts the walk; it never partially succeeds.
pub fn walk_managed_objects(reply: &BusValue, root: &str, iface: &str) -> (r: Result<
    Vec<String>,
    BtError,
>)
    ensures
        (match *reply {
            BusValue::Array(entries) => {
                &&& (r is Ok <==> tree_wf(entries@))
                &&& (r matches Ok(paths) ==> paths.deep_view() == matched_paths(
                    entries@,
                    normalized_root(root@),
                    iface@,
                ))
            },
            _ => r is Err,
        }),
        r matches Err(e) ==> e is MalformedResponse,
{
    let nroot = normalize_root(root);
    let entries = match reply.as_array() {
        Some(a) => a,
        None => {
            return Err(BtError::MalformedResponse("managed-object reply is not an array".to_owned()));
        },
    };
    let ghost es = entries@;
    let mut out: Vec<String> = Vec::new();
    let ghost mut outv = Seq::<Seq<char>>::empty();
    let mut i: usize = 0;
    assert(es.subrange(0, 0) =~= Seq::<BusValue>::empty());
    while i < entries.len()
        invariant
            i <= es.len(),
            entries@ == es,
            (*reply matches BusValue::Array(ent) && ent@ == es),
            nroot@ == normalized_root(root@),
            forall|k: int| 0 <= k < i ==> entry_wf(#[trigger] es[k]),
            out@.len() == outv.len(),
            forall|k: int| 0 <= k < outv.len() ==> out@[k]@ == outv[k],
            outv == matched_paths(es.subrange(0, i as int), nroot@, iface@),
        decreases es.len() - i,
    {
        let ghost prev = matched_paths(es.subrange(0, i as int), nroot@, iface@);
        let (path, ifs) = match &entries[i] {
            BusValue::DictEntry(p, ifs) => (p, ifs),
            _ => {
                assert(!entry_wf(es[i as int]));
                assert(!tree_wf(es));
                return Err(BtError::MalformedResponse("managed-object entry is not a dictionary entry".to_owned()));
            },
        };
        let items = match (&**ifs).as_array() {
            Some(a) => a,
            None => {
                assert(!entry_wf(es[i as int]));
                assert(!tree_wf(es));
                return Err(BtError::MalformedResponse("managed-object interface list is not an array".to_owned()));
            },
        };
        let under = str_starts_with(path.as_str(), nroot.as_str());
        let mut j: usize = 0;
        assert(items@.subrange(0, 0) =~= Seq::<BusValue>::empty());
        while j < items.len()
            invariant
                j <= items@.len(),
                i < es.len(),
                (*reply matches BusValue::Array(ent) && ent@ == es),
                nroot@ == normalized_root(root@),
                es[i as int] matches BusValue::DictEntry(p, f) && p@ == path@ && (*f
                    matches BusValue::Array(a) && a@ == items@),
                under == starts_with(path@, nroot@),
                forall|k: int| 0 <= k < j ==> items@[k] is DictEntry,
                out@.len() == outv.len(),
                forall|k: int| 0 <= k < outv.len() ==> out@[k]@ == outv[k],
                outv == prev + (if under {
                    Seq::new(iface_matches(items@.subrange(0, j as int), iface@), |t: int| path@)
                } else {
                    Seq::<Seq<char>>::empty()
                }),
            decreases items@.len() - j,
        {
            let ghost pre_items = items@.subrange(0, j as int);
            let name = match &items[j] {
                BusValue::DictEntry(n, _) => n,
                _ => {
                    assert(!(items@[j as int] is DictEntry));
                    assert(!entry_wf(es[i as int]));
                    assert(!tree_wf(es));
                    return Err(BtError::MalformedResponse("managed-object interface entry is not a dictionary entry".to_owned()));
                },
            };
            proof {
                assert(items@.subrange(0, j + 1 as int).drop_last() =~= pre_items);
                assert(items@.subrange(0, j + 1 as int).last() == items@[j as int]);
            }
            let matched = str_eq(name.as_str(), iface);
            if matched && under {
                out.push(path.clone());
                proof {
                    outv = outv.push(path@);
                    let c = iface_matches(items@.subrange(0, j + 1 as int), iface@);
                    assert(c == iface_matches(pre_items, iface@) + 1);
                    assert(outv =~= prev + Seq::new(c, |t: int| path@));
                }
            } else {
                proof {
                    if under {
                        let c = iface_matches(items@.subrange(0, j + 1 as int), iface@);
                        assert(c == iface_matches(pre_items, iface@));
                        assert(outv =~= prev + Seq::new(c, |t: int| path@));
                    }
                }
            }
            j = j + 1;
        }
        proof {
            assert(items@.subrange(0, items@.len() as int) =~= items@);
            assert(entry_wf(es[i as int]));
            assert(es.subrange(0, i + 1 as int).drop_last() =~= es.subrange(0, i as int));
            assert(es.subrange(0, i + 1 as int).last() == es[i as int]);
            assert(entry_paths(es[i as int], nroot@, iface@) == (if under {
                Seq::new(iface_matches(items@, iface@), |t: int| path@)
            } else {
                Seq::<Seq<char>>::empty()
            }));
            assert(outv =~= matched_paths(es.subrange(0, i + 1 as int), nroot@, iface@));
        }
        i = i + 1;
    }
    proof {
        assert(es.subrange(0, es.len() as int) =~= es);
        assert(out.deep_view() =~= outv);
    }
    Ok(out)
}

/// Whether the tree entry `e` names the object at path `p` and lists the
/// interface `iface` among that object's interfaces.
pub open spec fn entry_has(e: BusValue, p: Seq<char>, iface: Seq<char>) -> bool {
    e matches BusValue::DictEntry(q, ifs) && q@ == p && (*ifs matches BusValue::Array(items)
        && exists|j: int|
        0 <= j < items@.len() && (#[trigger] items@[j] matches BusValue::DictEntry(n, _) && n@
            == iface))
}

/// An interface list with a positive match count holds an entry naming the
/// interface.
proof fn lemma_iface_matches_witness(items: Seq<BusValue>, iface: Seq<char>)
    requires
        iface_matches(items, iface) > 0,
    ensures
        exists|j: int|
            0 <= j < items.len() && (#[trigger] items[j] matches BusValue::DictEntry(n, _) && n@
                == iface),
    decreases items.len(),
{
    if items.last() matches BusValue::DictEntry(n, _) && n@ == iface {
        assert(items[items.len() - 1] matches BusValue::DictEntry(n, _) && n@ == iface);
    } else {
        lemma_iface_matches_witness(items.drop_last(), iface);
        let j = choose|j: int|
            0 <= j < items.drop_last().len() && (#[trigger] items.drop_last()[j]
                matches BusValue::DictEntry(n, _) && n@ == iface);
        assert(items[j] == items.drop_last()[j]);
    }
}

/// Soundness of the enumeration: every path it yields lies under the
/// normalized root, and comes from a tree entry at that very path whose
/// interface list names the requested interface.
pub proof fn lemma_matched_paths_sound(
    entries: Seq<BusValue>,
    nroot: Seq<char>,
    iface: Seq<char>,
    k: int,
)
    requires
        0 <= k < matched_paths(entries, nroot, iface).len(),
    ensures
        starts_with(matched_paths(entries, nroot, iface)[k], nroot),
        exists|i: int|
            0 <= i < entries.len() && entry_has(
                #[trigger] entries[i],
                matched_paths(entries, nroot, iface)[k],
                iface,
            ),
    decreases entries.len(),
{
    let m = matched_paths(entries, nroot, iface);
    let prevm = matched_paths(entries.drop_last(), nroot, iface);
    if k < prevm.len() {
        lemma_matched_paths_sound(entries.drop_last(), nroot, iface, k);
        assert(m[k] == prevm[k]);
        let i = choose|i: int|
            0 <= i < entries.drop_last().len() && entry_has(
                #[trigger] entries.drop_last()[i],
                prevm[k],
                iface,
            );
        assert(entries[i] == entries.drop_last()[i]);
        assert(entry_has(entries[i], m[k], iface));
    } else {
        let e = entries.last();
        let ep = entry_paths(e, nroot, iface);
        assert(m[k] == ep[k - prevm.len()]);
        match e {
            BusValue::DictEntry(p, ifs) => {
                match *ifs {
                    BusValue::Array(items) => {
                        assert(starts_with(p@, nroot));
                        assert(m[k] == p@);
                        lemma_iface_matches_witness(items@, iface);
                        assert(entry_has(entries[entries.len() - 1], m[k], iface));
                    },
                    _ => {
                        assert(false);
                    },
                }
            },
            _ => {
                assert(false);
            },
        }
    }
}

} // verus!
