//! Dynamically typed bus values and the one-shot decoder over them.
//!
//! A [`BusValue`] is one unit of wire data: a tagged variant over the
//! primitive, string, array and dictionary-entry payloads the protocol
//! carries.  Decoding is a pure type-tag check plus payload extraction —
//! a value of the wrong tag decodes as absent, never as a coerced value
//! and never as a failure that aborts the caller.

use vstd::prelude::*;

verus! {

/// One dynamically typed unit of bus wire data.
#[derive(Debug)]
pub enum BusValue {
    Bool(bool),
    Byte(u8),
    U16(u16),
    U32(u32),
    U64(u64),
    I16(i16),
    I32(i32),
    I64(i64),
    Str(String),
    Array(Vec<BusValue>),
    DictEntry(String, Box<BusValue>),
}

impl BusValue {
    /// Reads this value as a boolean; absent unless the tag is `Bool`.
    pub fn as_bool(&self) -> (r: Option<bool>)
        ensures
            r == (match *self {
                BusValue::Bool(b) => Some(b),
                _ => None::<bool>,
            }),
    {
        match self {
            BusValue::Bool(b) => Some(*b),
            _ => None,
        }
    }

    /// Reads this value as a byte; absent on any other tag.
    pub fn as_u8(&self) -> (r: Option<u8>)
        ensures
            r == (match *self {
                BusValue::Byte(v) => Some(v),
                _ => None::<u8>,
            }),
    {
        match self {
            BusValue::Byte(v) => Some(*v),
            _ => None,
        }
    }

    /// Reads this value as an unsigned 16-bit integer; absent on any other tag.
    pub fn as_u16(&self) -> (r: Option<u16>)
        ensures
            r == (match *self {
                BusValue::U16(v) => Some(v),
                _ => None::<u16>,
            }),
    {
        match self {
            BusValue::U16(v) => Some(*v),
            _ => None,
        }
    }

    /// Reads this value as an unsigned 32-bit integer; absent on any other tag.
    pub fn as_u32(&self) -> (r: Option<u32>)
        ensures
            r == (match *self {
                BusValue::U32(v) => Some(v),
                _ => None::<u32>,
            }),
    {
        match self {
            BusValue::U32(v) => Some(*v),
            _ => None,
        }
    }

    /// Reads this value as an unsigned 64-bit integer; absent on any other tag.
    pub fn as_u64(&self) -> (r: Option<u64>)
        ensures
            r == (match *self {
                BusValue::U64(v) => Some(v),
                _ => None::<u64>,
            }),
    {
        match self {
            BusValue::U64(v) => Some(*v),
            _ => None,
        }
    }

    /// Reads this value as a signed 16-bit integer; absent on any other tag.
    pub fn as_i16(&self) -> (r: Option<i16>)
        ensures
            r == (match *self {
                BusValue::I16(v) => Some(v),
                _ => None::<i16>,
            }),
    {
        match self {
            BusValue::I16(v) => Some(*v),
            _ => None,
        }
    }

    /// Reads this value as a signed 32-bit integer; absent on any other tag.
    pub fn as_i32(&self) -> (r: Option<i32>)
        ensures
            r == (match *self {
                BusValue::I32(v) => Some(v),
                _ => None::<i32>,
            }),
    {
        match self {
            BusValue::I32(v) => Some(*v),
            _ => None,
        }
    }

    /// Reads this value as a signed 64-bit integer; absent on any other tag.
    pub fn as_i64(&self) -> (r: Option<i64>)
        ensures
            r == (match *self {
                BusValue::I64(v) => Some(v),
                _ => None::<i64>,
            }),
    {
        match self {
            BusValue::I64(v) => Some(*v),
            _ => None,
        }
    }

    /// Reads this value as a string; absent unless the tag is `Str`.
    /// The content returned is exactly the content carried.
    pub fn as_str(&self) -> (r: Option<&String>)
        ensures
            (match *self {
                BusValue::Str(s) => r matches Some(rs) && rs@ == s@,
                _ => r is None,
            }),
    {
        match self {
            BusValue::Str(s) => Some(s),
            _ => None,
        }
    }

    /// Reads this value as an array of bus values; absent on any other tag.
    pub fn as_array(&self) -> (r: Option<&Vec<BusValue>>)
        ensures
            (match *self {
                BusValue::Array(a) => r matches Some(ra) && ra@ == a@,
                _ => r is None,
            }),
    {
        match self {
            BusValue::Array(a) => Some(a),
            _ => None,
        }
    }
}

/// One entry of a flat name-to-value property dictionary.
#[derive(Debug)]
pub struct PropEntry {
    pub name: String,
    pub value: BusValue,
}

/// The value stored under `name` in the dictionary `d`: the value of the
/// first entry whose name matches, or absent when no entry matches.
pub open spec fn dict_lookup(d: Seq<PropEntry>, name: Seq<char>) -> Option<BusValue>
    decreases d.len(),
{
    if d.len() == 0 {
        None
    } else if d[0].name@ == name {
        Some(d[0].value)
    } else {
        dict_lookup(d.subrange(1, d.len() as int), name)
    }
}

/// The boolean stored under `name`, when the entry exists and carries one.
pub open spec fn lookup_bool(d: Seq<PropEntry>, name: Seq<char>) -> Option<bool> {
    match dict_lookup(d, name) {
        Some(BusValue::Bool(b)) => Some(b),
        _ => None,
    }
}

/// The unsigned 16-bit integer stored under `name`, when the entry exists
/// and carries one.
pub open spec fn lookup_u16(d: Seq<PropEntry>, name: Seq<char>) -> Option<u16> {
    match dict_lookup(d, name) {
        Some(BusValue::U16(v)) => Some(v),
        _ => None,
    }
}

/// The unsigned 32-bit integer stored under `name`, when the entry exists
/// and carries one.
pub open spec fn lookup_u32(d: Seq<PropEntry>, name: Seq<char>) -> Option<u32> {
    match dict_lookup(d, name) {
        Some(BusValue::U32(v)) => Some(v),
        _ => None,
    }
}

/// The signed 16-bit integer stored under `name`, when the entry exists
/// and carries one.
pub open spec fn lookup_i16(d: Seq<PropEntry>, name: Seq<char>) -> Option<i16> {
    match dict_lookup(d, name) {
        Some(BusValue::I16(v)) => Some(v),
        _ => None,
    }
}

/// The string content stored under `name`, when the entry exists and
/// carries a string.
pub open spec fn lookup_str(d: Seq<PropEntry>, name: Seq<char>) -> Option<Seq<char>> {
    match dict_lookup(d, name) {
        Some(BusValue::Str(s)) => Some(s@),
        _ => None,
    }
}

/// The array elements stored under `name`, when the entry exists and
/// carries an array.
pub open spec fn lookup_array(d: Seq<PropEntry>, name: Seq<char>) -> Option<Seq<BusValue>> {
    match dict_lookup(d, name) {
        Some(BusValue::Array(a)) => Some(a@),
        _ => None,
    }
}

/// Whether every element of `a` is a string value.
pub open spec fn all_strings(a: Seq<BusValue>) -> bool {
    forall|i: int| 0 <= i < a.len() ==> a[i] is Str
}

/// The string contents of the elements of `a`; meaningful when every
/// element is a string value.
pub open spec fn string_views(a: Seq<BusValue>) -> Seq<Seq<char>> {
    Seq::new(a.len(), |i: int| a[i]->Str_0@)
}

/// Looks `name` up in the dictionary `d`; the first matching entry wins.
pub fn dict_get<'a>(d: &'a Vec<PropEntry>, name: &str) -> (r: Option<&'a BusValue>)
    ensures
        (match dict_lookup(d@, name@) {
            Some(v) => r matches Some(rv) && *rv == v,
            None => r is None,
        }),
{
    let mut i: usize = 0;
    assert(d@.subrange(0, d@.len() as int) =~= d@);
    while i < d.len()
        invariant
            i <= d@.len(),
            dict_lookup(d@, name@) == dict_lookup(d@.subrange(i as int, d@.len() as int), name@),
        decreases d@.len() - i,
    {
        let ghost pre = d@.subrange(i as int, d@.len() as int);
        if crate::path::str_eq(d[i].name.as_str(), name) {
            assert(pre[0].name@ == name@);
            return Some(&d[i].value);
        }
        proof {
            assert(pre[0].name@ != name@);
            assert(pre.subrange(1, pre.len() as int) =~= d@.subrange(
                i + 1 as int,
                d@.len() as int,
            ));
        }
        i = i + 1;
    }
    assert(d@.subrange(i as int, d@.len() as int).len() == 0);
    None
}

/// Looks up and decodes a boolean property.
pub fn dict_get_bool(d: &Vec<PropEntry>, name: &str) -> (r: Option<bool>)
    ensures
        r == lookup_bool(d@, name@),
{
    match dict_get(d, name) {
        Some(v) => v.as_bool(),
        None => None,
    }
}

/// Looks up and decodes an unsigned 16-bit property.
pub fn dict_get_u16(d: &Vec<PropEntry>, name: &str) -> (r: Option<u16>)
    ensures
        r == lookup_u16(d@, name@),
{
    match dict_get(d, name) {
        Some(v) => v.as_u16(),
        None => None,
    }
}

/// Looks up and decodes an unsigned 32-bit property.
pub fn dict_get_u32(d: &Vec<PropEntry>, name: &str) -> (r: Option<u32>)
    ensures
        r == lookup_u32(d@, name@),
{
    match dict_get(d, name) {
        Some(v) => v.as_u32(),
        None => None,
    }
}

/// Looks up and decodes a signed 16-bit property.
pub fn dict_get_i16(d: &Vec<PropEntry>, name: &str) -> (r: Option<i16>)
    ensures
        r == lookup_i16(d@, name@),
{
    match dict_get(d, name) {
        Some(v) => v.as_i16(),
        None => None,
    }
}

/// Looks up and decodes a string property, copying its content.
pub fn dict_get_string(d: &Vec<PropEntry>, name: &str) -> (r: Option<String>)
    ensures
        (match lookup_str(d@, name@) {
            Some(t) => r matches Some(s) && s@ == t,
            None => r is None,
        }),
{
    match dict_get(d, name) {
        Some(v) => match v.as_str() {
            Some(s) => Some(s.clone()),
            None => None,
        },
        None => None,
    }
}

/// Decodes every element of `a` as a string.  Succeeds exactly when every
/// element is a string value; one ill-formed element fails the whole list,
/// with no silent truncation.
pub fn decode_string_list(a: &Vec<BusValue>) -> (r: Option<Vec<String>>)
    ensures
        all_strings(a@) ==> (r matches Some(v) && v.deep_view() == string_views(a@)),
        !all_strings(a@) ==> r is None,
{
    let mut out: Vec<String> = Vec::new();
    let mut i: usize = 0;
    while i < a.len()
        invariant
            i <= a@.len(),
            out@.len() == i,
            forall|j: int| 0 <= j < i ==> a@[j] is Str,
            forall|j: int| 0 <= j < i ==> out@[j]@ == a@[j]->Str_0@,
        decreases a@.len() - i,
    {
        match a[i].as_str() {
            Some(s) => out.push(s.clone()),
            None => {
                assert(!(a@[i as int] is Str));
                return None;
            },
        }
        i = i + 1;
    }
    assert(all_strings(a@));
    assert(out.deep_view() =~= string_views(a@));
    Some(out)
}

} // verus!
