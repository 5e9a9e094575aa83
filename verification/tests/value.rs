use miniblink::error::MBError;
use miniblink::value::{arg_result, check_type, check_value, kind_accepts, JsType, JsValue, ValueKind};

const ALL: [JsType; 8] = [
    JsType::Number,
    JsType::String,
    JsType::Boolean,
    JsType::Object,
    JsType::Function,
    JsType::Undefined,
    JsType::Array,
    JsType::Null,
];

#[test]
fn js_type_codes_round_trip() {
    for (i, t) in ALL.iter().enumerate() {
        assert_eq!(t.code(), i as i32);
        assert_eq!(JsType::from_code(i as i32), *t);
    }
}

#[test]
fn js_type_names() {
    assert_eq!(JsType::Number.as_str(), "NUMBER");
    assert_eq!(JsType::String.as_str(), "STRING");
    assert_eq!(JsType::Boolean.as_str(), "BOOLEAN");
    assert_eq!(JsType::Object.as_str(), "OBJECT");
    assert_eq!(JsType::Function.as_str(), "FUNCTION");
    assert_eq!(JsType::Undefined.as_str(), "UNDEFINED");
    assert_eq!(JsType::Array.as_str(), "ARRAY");
    assert_eq!(JsType::Null.as_str(), "NULL");
}

#[test]
fn text_accepts_scalars_only() {
    let accepted: Vec<JsType> =
        ALL.iter().copied().filter(|t| kind_accepts(ValueKind::Text, *t)).collect();
    assert_eq!(
        accepted,
        vec![JsType::Number, JsType::String, JsType::Boolean, JsType::Undefined, JsType::Null]
    );
}

#[test]
fn check_type_errors_name_wanted_and_found() {
    assert!(check_type(ValueKind::Number, JsType::Number).is_ok());
    match check_type(ValueKind::Number, JsType::String) {
        Err(MBError::UnsupportedType(JsType::Number, JsType::String)) => {}
        _ => panic!("wrong result"),
    }
    match check_type(ValueKind::Boolean, JsType::Null) {
        Err(MBError::UnsupportedType(JsType::Boolean, JsType::Null)) => {}
        _ => panic!("wrong result"),
    }
    match check_type(ValueKind::Text, JsType::Object) {
        Err(MBError::UnsupportedType(JsType::Boolean, JsType::Object)) => {}
        _ => panic!("wrong result"),
    }
    match check_type(ValueKind::Unit, JsType::Null) {
        Err(MBError::UnsupportedType(JsType::Undefined, JsType::Null)) => {}
        _ => panic!("wrong result"),
    }
    assert!(check_type(ValueKind::Unit, JsType::Undefined).is_ok());
    assert!(check_type(ValueKind::Text, JsType::Null).is_ok());
}

#[test]
fn check_value_error_carries_value() {
    let v = JsValue::from_ptr(5);
    assert!(check_value(ValueKind::Boolean, v, JsType::Boolean).is_ok());
    match check_value(ValueKind::Boolean, v, JsType::Number) {
        Err(MBError::FromJsValueFailed(got)) => assert_eq!(got.as_ptr(), 5),
        _ => panic!("wrong result"),
    }
}

#[test]
fn arg_result_maps_errors_to_index() {
    assert_eq!(arg_result::<i32>(3, Ok(41)).unwrap(), 41);
    match arg_result::<i32>(3, Err(MBError::NotInitialized)) {
        Err(MBError::TypeError(3)) => {}
        _ => panic!("wrong result"),
    }
}

#[test]
fn engine_codes_without_js_type() {
    assert_eq!(JsType::try_from_code(2), Some(JsType::Boolean));
    assert_eq!(JsType::try_from_code(8), None);
    assert_eq!(JsType::try_from_code(9), None);
    assert_eq!(JsType::try_from_code(-1), None);
}
