use miniblink::error::MBError;
use miniblink::serde::de::{
    check_bool, check_map, check_seq, check_unit, is_none, plan_any, plan_enum, AnyPlan, Asked,
    EnumPlan, MBMapAccess, MBSeqAccess,
};
use miniblink::serde::ser::{narrow_i64, narrow_u64, seq_length, MBSerializeMap, MBSerializeSeq};
use miniblink::value::JsType;

#[test]
fn plan_any_for_each_type() {
    let any = Asked::Anything;
    assert_eq!(plan_any(JsType::Number, any), AnyPlan::Int);
    assert_eq!(plan_any(JsType::String, any), AnyPlan::Str);
    assert_eq!(plan_any(JsType::Boolean, any), AnyPlan::Bool);
    assert_eq!(plan_any(JsType::Object, any), AnyPlan::MapEntries);
    assert_eq!(plan_any(JsType::Array, any), AnyPlan::SeqElements);
    assert_eq!(plan_any(JsType::Null, any), AnyPlan::Nothing);
    assert_eq!(plan_any(JsType::Undefined, any), AnyPlan::Nothing);
}

#[test]
fn float_asked_reads_numbers_as_doubles() {
    assert_eq!(plan_any(JsType::Number, Asked::Float), AnyPlan::Double);
    assert_eq!(plan_any(JsType::String, Asked::Float), AnyPlan::Str);
    assert_eq!(plan_any(JsType::Null, Asked::Float), AnyPlan::Nothing);
}

fn refused_with(r: Result<(), MBError>, t: JsType) -> bool {
    matches!(r, Err(MBError::UnsupportedType(JsType::Object, got)) if got == t)
}

#[test]
fn checks_accept_their_type_and_refuse_others() {
    assert!(check_bool(JsType::Boolean).is_ok());
    assert!(refused_with(check_bool(JsType::Number), JsType::Number));
    assert!(check_unit(JsType::Null).is_ok());
    assert!(check_unit(JsType::Undefined).is_ok());
    assert!(refused_with(check_unit(JsType::String), JsType::String));
    assert!(check_seq(JsType::Array).is_ok());
    assert!(refused_with(check_seq(JsType::Object), JsType::Object));
    assert!(check_map(JsType::Object).is_ok());
    assert!(refused_with(check_map(JsType::Array), JsType::Array));
}

#[test]
fn option_sees_none_in_null_and_undefined() {
    assert!(is_none(JsType::Null));
    assert!(is_none(JsType::Undefined));
    assert!(!is_none(JsType::Number));
    assert!(!is_none(JsType::Object));
}

#[test]
fn enum_plans() {
    assert_eq!(plan_enum(JsType::Object).unwrap(), EnumPlan::FirstKey);
    assert_eq!(plan_enum(JsType::String).unwrap(), EnumPlan::Name);
    match plan_enum(JsType::Number) {
        Err(MBError::UnsupportedType(JsType::Object, JsType::Number)) => {}
        _ => panic!("wrong result"),
    }
}

#[test]
fn seq_walk_reads_each_index_once() {
    let mut walk = MBSeqAccess::new(3);
    assert_eq!(walk.next_element_index(), Some(0));
    assert_eq!(walk.next_element_index(), Some(1));
    assert_eq!(walk.next_element_index(), Some(2));
    assert_eq!(walk.next_element_index(), None);
    assert_eq!(walk.next_element_index(), None);
    let mut empty = MBSeqAccess::new(0);
    assert_eq!(empty.next_element_index(), None);
}

#[test]
fn map_walk_reads_value_under_last_key() {
    let mut walk = MBMapAccess::new(vec!["name".to_string(), "age".to_string()]);
    assert_eq!(walk.next_key(), Some("name".to_string()));
    assert_eq!(walk.value_key(), "name");
    assert_eq!(walk.next_key(), Some("age".to_string()));
    assert_eq!(walk.value_key(), "age");
    assert_eq!(walk.next_key(), None);
    assert_eq!(walk.value_key(), "age");
}

#[test]
fn narrowing_to_i32() {
    assert_eq!(narrow_i64(-5).unwrap(), -5);
    assert_eq!(narrow_i64(i32::MAX as i64).unwrap(), i32::MAX);
    assert_eq!(narrow_i64(i32::MIN as i64).unwrap(), i32::MIN);
    match narrow_i64(i32::MAX as i64 + 1) {
        Err(e) => assert_eq!(e.to_string(), "Failed to convert from i32 to i64"),
        Ok(_) => panic!("should not fit"),
    }
    assert!(narrow_i64(i64::MIN).is_err());
    assert_eq!(narrow_u64(7).unwrap(), 7);
    match narrow_u64(1u64 << 31) {
        Err(e) => assert_eq!(e.to_string(), "Failed to convert from i32 to u64"),
        Ok(_) => panic!("should not fit"),
    }
}

#[test]
fn array_lengths() {
    assert_eq!(seq_length(Some(4)), 4);
    assert_eq!(seq_length(None), 0);
    assert_eq!(seq_length(Some(1usize << 32)), 0);
}

#[test]
fn element_positions_in_order() {
    let mut writer = MBSerializeSeq::new();
    assert_eq!(writer.serialize_element(), 0);
    assert_eq!(writer.serialize_element(), 1);
    assert_eq!(writer.serialize_element(), 2);
    let mut variant = MBSerializeSeq::new_with_wrapper("Point");
    assert_eq!(variant.serialize_element(), 0);
    assert_eq!(variant.end_variant(), "Point");
}

#[test]
fn struct_variant_keeps_its_name() {
    let variant = MBSerializeMap::new_with_wrapper("Circle");
    assert_eq!(variant.end_variant(), "Circle");
    let _plain = MBSerializeMap::new();
}
