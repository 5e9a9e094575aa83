use vstd::prelude::*;

use crate::error::{MBError, MBResult};

verus! {

/// The type of a JavaScript value.
#[derive(Debug, Clone, Copy, PartialEq, Eq)]
pub enum JsType {
    Number,
    String,
    Boolean,
    Object,
    Function,
    Undefined,
    Array,
    Null,
}

impl JsType {
    /// The type code of the engine (`jsType`).
    pub open spec fn spec_code(self) -> i32 {
        match self {
            JsType::Number => 0,
            JsType::String => 1,
            JsType::Boolean => 2,
            JsType::Object => 3,
            JsType::Function => 4,
            JsType::Undefined => 5,
            JsType::Array => 6,
            JsType::Null => 7,
        }
    }

    /// The type that has the engine's code `code`, if any.
    pub open spec fn spec_from_code(code: i32) -> Option<Self> {
        if code == 0 {
            Some(JsType::Number)
        } else if code == 1 {
            Some(JsType::String)
        } else if code == 2 {
            Some(JsType::Boolean)
        } else if code == 3 {
            Some(JsType::Object)
        } else if code == 4 {
            Some(JsType::Function)
        } else if code == 5 {
            Some(JsType::Undefined)
        } else if code == 6 {
            Some(JsType::Array)
        } else if code == 7 {
            Some(JsType::Null)
        } else {
            None
        }
    }

    /// The type code of the engine.
    pub fn code(&self) -> (r: i32)
        ensures
            r == self.spec_code(),
    {
        match self {
            JsType::Number => 0,
            JsType::String => 1,
            JsType::Boolean => 2,
            JsType::Object => 3,
            JsType::Function => 4,
            JsType::Undefined => 5,
            JsType::Array => 6,
            JsType::Null => 7,
        }
    }

    /// The type that has the code `code`; none for a code the engine reports
    /// for values that have no JavaScript type here.
    pub fn try_from_code(code: i32) -> (r: Option<Self>)
        ensures
            r == Self::spec_from_code(code),
    {
        if 0 <= code && code <= 7 {
            Some(Self::from_code(code))
        } else {
            None
        }
    }

    /// The type the engine reports with `code`; the engine knows no other codes.
    pub fn from_code(code: i32) -> (r: Self)
        requires
            Self::spec_from_code(code) is Some,
        ensures
            Self::spec_from_code(code) == Some(r),
            r.spec_code() == code,
    {
        if code == 0 {
            JsType::Number
        } else if code == 1 {
            JsType::String
        } else if code == 2 {
            JsType::Boolean
        } else if code == 3 {
            JsType::Object
        } else if code == 4 {
            JsType::Function
        } else if code == 5 {
            JsType::Undefined
        } else if code == 6 {
            JsType::Array
        } else {
            JsType::Null
        }
    }

    /// The name of the type, as messages print it.
    pub open spec fn spec_as_str(self) -> Seq<char> {
        match self {
            JsType::Number => "NUMBER"@,
            JsType::String => "STRING"@,
            JsType::Boolean => "BOOLEAN"@,
            JsType::Object => "OBJECT"@,
            JsType::Function => "FUNCTION"@,
            JsType::Undefined => "UNDEFINED"@,
            JsType::Array => "ARRAY"@,
            JsType::Null => "NULL"@,
        }
    }

    /// The name of the type, as messages print it.
    pub fn as_str(&self) -> (r: &'static str)
        ensures
            r@ == self.spec_as_str(),
    {
        match self {
            JsType::Number => "NUMBER",
            JsType::String => "STRING",
            JsType::Boolean => "BOOLEAN",
            JsType::Object => "OBJECT",
            JsType::Function => "FUNCTION",
            JsType::Undefined => "UNDEFINED",
            JsType::Array => "ARRAY",
            JsType::Null => "NULL",
        }
    }
}

/// A JavaScript value: the engine's handle of a JavaScript value, never zero.
#[derive(Debug, Clone, Copy)]
pub struct JsValue {
    pub(crate) inner: i64,
}

impl JsValue {
    /// The engine's handle.
    pub closed spec fn spec_ptr(&self) -> i64 {
        self.inner
    }

    /// Get the inner handle of [`JsValue`].
    pub fn as_ptr(&self) -> (r: i64)
        ensures
            r == self.spec_ptr(),
    {
        self.inner
    }

    /// Create [`JsValue`] from a handle, which must not be 0.
    pub fn from_ptr(ptr: i64) -> (r: Self)
        requires
            ptr != 0,
        ensures
            r.spec_ptr() == ptr,
    {
        Self { inner: ptr }
    }
}

/// Each JavaScript type has its own code: the code gives the type back.
pub proof fn lemma_js_type_code_round_trip(t: JsType)
    ensures
        JsType::spec_from_code(t.spec_code()) == Some(t),
{
}

/// The Rust value a JavaScript value is read as.
#[derive(Debug, Clone, Copy, PartialEq, Eq)]
pub enum ValueKind {
    /// An `i32` or an `f64`.
    Number,
    /// A `bool`.
    Boolean,
    /// A `String`.
    Text,
    /// The unit value `()`.
    Unit,
}

/// The JavaScript types a value of each kind is read from: numbers from a
/// number, booleans from a boolean, the unit from `undefined`, and text from
/// any of a boolean, `null`, a number, a string and `undefined`.
pub open spec fn accepts(kind: ValueKind, t: JsType) -> bool {
    match kind {
        ValueKind::Number => t == JsType::Number,
        ValueKind::Boolean => t == JsType::Boolean,
        ValueKind::Text => t == JsType::Boolean || t == JsType::Null || t == JsType::Number || t
            == JsType::String || t == JsType::Undefined,
        ValueKind::Unit => t == JsType::Undefined,
    }
}

/// The type an error names as the one wanted for each kind. Text names
/// `BOOLEAN`, as the reading of a string does.
pub open spec fn wanted_type(kind: ValueKind) -> JsType {
    match kind {
        ValueKind::Number => JsType::Number,
        ValueKind::Boolean => JsType::Boolean,
        ValueKind::Text => JsType::Boolean,
        ValueKind::Unit => JsType::Undefined,
    }
}

/// Whether a value of type `t` can be read as `kind`.
pub fn kind_accepts(kind: ValueKind, t: JsType) -> (r: bool)
    ensures
        r == accepts(kind, t),
        kind == ValueKind::Number ==> (r <==> t == JsType::Number),
        kind == ValueKind::Boolean ==> (r <==> t == JsType::Boolean),
        kind == ValueKind::Unit ==> (r <==> t == JsType::Undefined),
        kind == ValueKind::Text ==> (r <==> (t == JsType::Boolean || t == JsType::Null || t
            == JsType::Number || t == JsType::String || t == JsType::Undefined)),
{
    match kind {
        ValueKind::Number => match t {
            JsType::Number => true,
            _ => false,
        },
        ValueKind::Boolean => match t {
            JsType::Boolean => true,
            _ => false,
        },
        ValueKind::Text => match t {
            JsType::Boolean | JsType::Null | JsType::Number | JsType::String
            | JsType::Undefined => true,
            _ => false,
        },
        ValueKind::Unit => match t {
            JsType::Undefined => true,
            _ => false,
        },
    }
}

/// The check made before a value of type `t` is read as `kind`: the error
/// names the wanted type and the type found.
pub fn check_type(kind: ValueKind, t: JsType) -> (r: MBResult<()>)
    ensures
        accepts(kind, t) ==> r is Ok,
        !accepts(kind, t) ==> r == Err::<(), MBError>(MBError::UnsupportedType(wanted_type(kind), t)),
{
    if kind_accepts(kind, t) {
        Ok(())
    } else {
        let wanted = match kind {
            ValueKind::Number => JsType::Number,
            ValueKind::Boolean => JsType::Boolean,
            ValueKind::Text => JsType::Boolean,
            ValueKind::Unit => JsType::Undefined,
        };
        Err(MBError::UnsupportedType(wanted, t))
    }
}

/// A value is read as a number exactly when it is a number, as a boolean
/// exactly when it is a boolean, and as the unit value exactly when it is
/// `undefined`. A refusal names the type wanted: `NUMBER` for numbers,
/// `BOOLEAN` for booleans and for text, `UNDEFINED` for the unit value.
pub proof fn lemma_reading_accepts_own_type(t: JsType)
    ensures
        accepts(ValueKind::Number, t) <==> t == JsType::Number,
        accepts(ValueKind::Boolean, t) <==> t == JsType::Boolean,
        accepts(ValueKind::Unit, t) <==> t == JsType::Undefined,
        wanted_type(ValueKind::Number) == JsType::Number,
        wanted_type(ValueKind::Boolean) == JsType::Boolean,
        wanted_type(ValueKind::Text) == JsType::Boolean,
        wanted_type(ValueKind::Unit) == JsType::Undefined,
{
}

/// The name each JavaScript type is printed with in messages.
pub proof fn lemma_js_type_names()
    ensures
        JsType::Number.spec_as_str() == "NUMBER"@,
        JsType::String.spec_as_str() == "STRING"@,
        JsType::Boolean.spec_as_str() == "BOOLEAN"@,
        JsType::Object.spec_as_str() == "OBJECT"@,
        JsType::Function.spec_as_str() == "FUNCTION"@,
        JsType::Undefined.spec_as_str() == "UNDEFINED"@,
        JsType::Array.spec_as_str() == "ARRAY"@,
        JsType::Null.spec_as_str() == "NULL"@,
{
}

/// A value is read as text exactly when it is a boolean, `null`, a number, a
/// string or `undefined`; an object, a function or an array is refused (and
/// `check_type` then names the type found in its error).
pub proof fn lemma_text_reading_accepts_scalars(t: JsType)
    ensures
        accepts(ValueKind::Text, t) <==> (t == JsType::Boolean || t == JsType::Null || t
            == JsType::Number || t == JsType::String || t == JsType::Undefined),
        (t == JsType::Object || t == JsType::Function || t == JsType::Array) ==> !accepts(
            ValueKind::Text,
            t,
        ),
{
}

/// The check made before `value`, of type `t`, is converted to `kind`: the
/// error carries the value itself.
pub fn check_value(kind: ValueKind, value: JsValue, t: JsType) -> (r: MBResult<()>)
    ensures
        accepts(kind, t) ==> r is Ok,
        !accepts(kind, t) ==> r == Err::<(), MBError>(MBError::FromJsValueFailed(value)),
{
    if kind_accepts(kind, t) {
        Ok(())
    } else {
        Err(MBError::FromJsValueFailed(value))
    }
}

/// The result of reading argument `index`: the value when it was read, a type
/// error naming the index otherwise.
pub fn arg_result<T>(index: i32, read: MBResult<T>) -> (r: MBResult<T>)
    ensures
        match read {
            Ok(v) => r == Ok::<T, MBError>(v),
            Err(_) => r == Err::<T, MBError>(MBError::TypeError(index)),
        },
{
    match read {
        Ok(v) => Ok(v),
        Err(_) => Err(MBError::TypeError(index)),
    }
}

/// The engine's JavaScript type codes: number 0, string 1, boolean 2, object
/// 3, function 4, undefined 5, array 6, null 7, and no other code.
pub proof fn lemma_js_type_engine_codes()
    ensures
        JsType::Number.spec_code() == 0i32,
        JsType::String.spec_code() == 1i32,
        JsType::Boolean.spec_code() == 2i32,
        JsType::Object.spec_code() == 3i32,
        JsType::Function.spec_code() == 4i32,
        JsType::Undefined.spec_code() == 5i32,
        JsType::Array.spec_code() == 6i32,
        JsType::Null.spec_code() == 7i32,
        forall|c: i32| #[trigger] JsType::spec_from_code(c) matches Some(v) ==> v.spec_code() == c,
{
}

} // verus!
