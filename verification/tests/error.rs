use miniblink::error::{push_decimal, MBError};
use miniblink::value::{JsType, JsValue};

#[test]
fn error_messages() {
    assert_eq!(
        MBError::UnsupportedPlatform.to_string(),
        "Failed to create as child window. Only windows is supported!"
    );
    assert_eq!(MBError::NotInitialized.to_string(), "The miniblink is not initialized");
    assert_eq!(
        MBError::LibraryUnloaded("no such file".to_string()).to_string(),
        "Failed to load miniblink! no such file"
    );
    assert_eq!(
        MBError::FromJsValueFailed(JsValue::from_ptr(12345)).to_string(),
        "Failed to convert jsValue `JsValue { inner: 12345 }`!"
    );
    assert_eq!(MBError::TypeError(2).to_string(), "TypeError: param of index `2`");
    assert_eq!(MBError::TypeError(-3).to_string(), "TypeError: param of index `-3`");
    assert_eq!(
        MBError::UnsupportedType(JsType::Number, JsType::Null).to_string(),
        "Except NUMBER, but NULL provided!"
    );
    assert_eq!(
        MBError::SerdeMessage("missing field `age`".to_string()).to_string(),
        "SerdeMessage: missing field `age`"
    );
    assert_eq!(
        MBError::FailedToConvert("i32".to_string(), "i64".to_string()).to_string(),
        "Failed to convert from i32 to i64"
    );
}

#[test]
fn error_message_of_negative_handle() {
    assert_eq!(
        MBError::FromJsValueFailed(JsValue::from_ptr(-7)).to_string(),
        "Failed to convert jsValue `JsValue { inner: -7 }`!"
    );
}

#[test]
fn decimal_matches_display() {
    for v in [0i64, 9, 10, -1, 1234567890, i64::MAX, i64::MIN, -1000] {
        let mut s = String::from("n=");
        push_decimal(&mut s, v);
        assert_eq!(s, format!("n={}", v));
    }
}

#[test]
fn js_value_handle_round_trip() {
    let v = JsValue::from_ptr(99);
    assert_eq!(v.as_ptr(), 99);
}
