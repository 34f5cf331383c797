use bluez_client::value::BusValue;
use bluez_client::value::PropEntry;
use bluez_client::value::decode_string_list;
use bluez_client::value::dict_get;
use bluez_client::value::dict_get_bool;
use bluez_client::value::dict_get_i16;
use bluez_client::value::dict_get_string;
use bluez_client::value::dict_get_u16;
use bluez_client::value::dict_get_u32;

fn entry(name: &str, value: BusValue) -> PropEntry {
    PropEntry { name: name.to_string(), value }
}

#[test]
fn string_value_does_not_decode_as_integer() {
    let v = BusValue::Str("42".to_string());
    assert_eq!(v.as_u32(), None);
    assert_eq!(v.as_u16(), None);
    assert_eq!(v.as_i16(), None);
    assert_eq!(v.as_bool(), None);
}

#[test]
fn string_value_decodes_as_exact_string() {
    let v = BusValue::Str("hci0 ready".to_string());
    assert_eq!(v.as_str().map(|s| s.as_str()), Some("hci0 ready"));
}

#[test]
fn integer_value_does_not_decode_as_string() {
    let v = BusValue::U32(42);
    assert!(v.as_str().is_none());
    assert_eq!(v.as_u32(), Some(42));
}

#[test]
fn no_cross_width_integer_coercion() {
    let v = BusValue::U16(7);
    assert_eq!(v.as_u32(), None);
    assert_eq!(v.as_u16(), Some(7));
    let w = BusValue::I16(-3);
    assert_eq!(w.as_u16(), None);
    assert_eq!(w.as_i16(), Some(-3));
}

#[test]
fn every_integer_width_decodes_only_itself() {
    assert_eq!(BusValue::Byte(5).as_u8(), Some(5));
    assert_eq!(BusValue::U16(5).as_u8(), None);
    assert_eq!(BusValue::U64(1 << 40).as_u64(), Some(1 << 40));
    assert_eq!(BusValue::U32(5).as_u64(), None);
    assert_eq!(BusValue::I32(-9).as_i32(), Some(-9));
    assert_eq!(BusValue::I16(-9).as_i32(), None);
    assert_eq!(BusValue::I64(-1 << 40).as_i64(), Some(-1 << 40));
    assert_eq!(BusValue::I32(-9).as_i64(), None);
}

#[test]
fn bool_value_decodes_only_as_bool() {
    let v = BusValue::Bool(true);
    assert_eq!(v.as_bool(), Some(true));
    assert_eq!(v.as_u32(), None);
    assert!(v.as_array().is_none());
}

#[test]
fn array_value_decodes_only_as_array() {
    let v = BusValue::Array(vec![BusValue::U32(1), BusValue::U32(2)]);
    assert_eq!(v.as_array().map(|a| a.len()), Some(2));
    assert_eq!(v.as_u32(), None);
}

#[test]
fn dict_get_finds_first_matching_entry() {
    let d = vec![
        entry("Powered", BusValue::Bool(false)),
        entry("Class", BusValue::U32(0x1f00)),
        entry("Powered", BusValue::Bool(true)),
    ];
    assert_eq!(dict_get_bool(&d, "Powered"), Some(false));
    assert_eq!(dict_get_u32(&d, "Class"), Some(0x1f00));
    assert!(dict_get(&d, "Missing").is_none());
}

#[test]
fn typed_lookup_fails_soft_on_wrong_tag() {
    let d = vec![entry("Powered", BusValue::Str("true".to_string()))];
    assert_eq!(dict_get_bool(&d, "Powered"), None);
    assert_eq!(dict_get_string(&d, "Powered"), Some("true".to_string()));
    assert_eq!(dict_get_u16(&d, "Powered"), None);
    assert_eq!(dict_get_i16(&d, "Powered"), None);
}

#[test]
fn string_list_decodes_all_elements() {
    let a = vec![
        BusValue::Str("110a".to_string()),
        BusValue::Str("110b".to_string()),
    ];
    assert_eq!(
        decode_string_list(&a),
        Some(vec!["110a".to_string(), "110b".to_string()])
    );
}

#[test]
fn string_list_fails_whole_on_one_bad_element() {
    let a = vec![
        BusValue::Str("110a".to_string()),
        BusValue::U32(9),
        BusValue::Str("110b".to_string()),
    ];
    assert_eq!(decode_string_list(&a), None);
}

#[test]
fn empty_string_list_decodes_as_empty() {
    let a: Vec<BusValue> = Vec::new();
    assert_eq!(decode_string_list(&a), Some(Vec::new()));
}
