use vstd::prelude::*;
use vstd::string::StringExecFns;

use crate::value::{JsType, JsValue};

verus! {

/// The character of a decimal digit.
pub open spec fn digit_char(d: nat) -> char {
    if d == 0 {
        '0'
    } else if d == 1 {
        '1'
    } else if d == 2 {
        '2'
    } else if d == 3 {
        '3'
    } else if d == 4 {
        '4'
    } else if d == 5 {
        '5'
    } else if d == 6 {
        '6'
    } else if d == 7 {
        '7'
    } else if d == 8 {
        '8'
    } else {
        '9'
    }
}

/// The decimal digits of `n`, most significant first, without leading zeros.
pub open spec fn decimal_digits(n: nat) -> Seq<char>
    decreases n,
{
    if n < 10 {
        seq![digit_char(n)]
    } else {
        decimal_digits(n / 10) + seq![digit_char(n % 10)]
    }
}

/// The decimal form of `v`, as `Display` prints an integer.
pub open spec fn decimal(v: int) -> Seq<char> {
    if v < 0 {
        seq!['-'] + decimal_digits((-v) as nat)
    } else {
        decimal_digits(v as nat)
    }
}

/// The string of one decimal digit.
fn digit_str(d: u64) -> (r: &'static str)
    requires
        d < 10,
    ensures
        r@ == seq![digit_char(d as nat)],
{
    proof {
        reveal_strlit("0");
        reveal_strlit("1");
        reveal_strlit("2");
        reveal_strlit("3");
        reveal_strlit("4");
        reveal_strlit("5");
        reveal_strlit("6");
        reveal_strlit("7");
        reveal_strlit("8");
        reveal_strlit("9");
    }
    if d == 0 {
        "0"
    } else if d == 1 {
        "1"
    } else if d == 2 {
        "2"
    } else if d == 3 {
        "3"
    } else if d == 4 {
        "4"
    } else if d == 5 {
        "5"
    } else if d == 6 {
        "6"
    } else if d == 7 {
        "7"
    } else if d == 8 {
        "8"
    } else {
        "9"
    }
}

/// Appends the decimal digits of `n` to `s`.
fn push_decimal_digits(s: &mut String, n: u64)
    ensures
        final(s)@ == old(s)@ + decimal_digits(n as nat),
    decreases n,
{
    if n >= 10 {
        push_decimal_digits(s, n / 10);
    }
    s.append(digit_str(n % 10));
    assert(final(s)@ =~= old(s)@ + decimal_digits(n as nat));
}

/// Appends the decimal form of `v` to `s`.
pub fn push_decimal(s: &mut String, v: i64)
    ensures
        final(s)@ == old(s)@ + decimal(v as int),
{
    if v < 0 {
        s.append("-");
        proof {
            reveal_strlit("-");
        }
        let magnitude: u64 = if v == i64::MIN {
            9223372036854775808u64
        } else {
            (-v) as u64
        };
        push_decimal_digits(s, magnitude);
        assert(final(s)@ =~= old(s)@ + decimal(v as int));
    } else {
        push_decimal_digits(s, v as u64);
    }
}

/// Convenient type alias of Result type for miniblink.
pub type MBResult<T> = Result<T, MBError>;

/// Errors returned by miniblink.
#[derive(Debug)]
pub enum MBError {
    UnsupportedPlatform,
    NotInitialized,
    LibraryUnloaded(String),
    FromJsValueFailed(JsValue),
    TypeError(i32),
    UnsupportedType(JsType, JsType),
    SerdeMessage(String),
    FailedToConvert(String, String),
}

/// How `Debug` prints a [`JsValue`].
pub open spec fn js_value_debug(value: JsValue) -> Seq<char> {
    "JsValue { inner: "@ + decimal(value.spec_ptr() as int) + " }"@
}

impl MBError {
    /// The message of the error.
    pub open spec fn spec_message(&self) -> Seq<char> {
        match self {
            MBError::UnsupportedPlatform => "Failed to create as child window. Only windows is supported!"@,
            MBError::NotInitialized => "The miniblink is not initialized"@,
            MBError::LibraryUnloaded(error) => "Failed to load miniblink! "@ + error@,
            MBError::FromJsValueFailed(value) => "Failed to convert jsValue `"@ + js_value_debug(
                *value,
            ) + "`!"@,
            MBError::TypeError(index) => "TypeError: param of index `"@ + decimal(*index as int)
                + "`"@,
            MBError::UnsupportedType(expected, but) => "Except "@ + expected.spec_as_str()
                + ", but "@ + but.spec_as_str() + " provided!"@,
            MBError::SerdeMessage(msg) => "SerdeMessage: "@ + msg@,
            MBError::FailedToConvert(from, to) => "Failed to convert from "@ + from@ + " to "@
                + to@,
        }
    }

    /// The message of the error, as `Display` prints it.
    pub fn to_string(&self) -> (r: String)
        ensures
            r@ == self.spec_message(),
    {
        match self {
            MBError::UnsupportedPlatform => String::from_str(
                "Failed to create as child window. Only windows is supported!",
            ),
            MBError::NotInitialized => String::from_str("The miniblink is not initialized"),
            MBError::LibraryUnloaded(error) => {
                let mut s = String::from_str("Failed to load miniblink! ");
                s.append(error.as_str());
                s
            },
            MBError::FromJsValueFailed(value) => {
                let mut s = String::from_str("Failed to convert jsValue `");
                s.append("JsValue { inner: ");
                push_decimal(&mut s, value.as_ptr());
                s.append(" }");
                s.append("`!");
                assert(s@ =~= self.spec_message());
                s
            },
            MBError::TypeError(index) => {
                let mut s = String::from_str("TypeError: param of index `");
                push_decimal(&mut s, *index as i64);
                s.append("`");
                s
            },
            MBError::UnsupportedType(expected, but) => {
                let mut s = String::from_str("Except ");
                s.append(expected.as_str());
                s.append(", but ");
                s.append(but.as_str());
                s.append(" provided!");
                s
            },
            MBError::SerdeMessage(msg) => {
                let mut s = String::from_str("SerdeMessage: ");
                s.append(msg.as_str());
                s
            },
            MBError::FailedToConvert(from, to) => {
                let mut s = String::from_str("Failed to convert from ");
                s.append(from.as_str());
                s.append(" to ");
                s.append(to.as_str());
                s
            },
        }
    }
}

/// Each digit is printed as its character: `0` for 0 up to `9` for 9.
pub proof fn lemma_digit_chars(d: nat)
    requires
        d < 10,
    ensures
        digit_char(d) as u32 == '0' as u32 + d,
{
}

/// The number a string of decimal digits stands for, most significant first.
pub open spec fn digits_value(s: Seq<char>) -> int
    decreases s.len(),
{
    if s.len() == 0 {
        0
    } else {
        digits_value(s.drop_last()) * 10 + (s.last() as u32 - '0' as u32)
    }
}

/// The decimal form of `n` stands for `n`, has at least one digit, every
/// character of it is a digit, and it starts with a zero only when it is `0`.
pub proof fn lemma_decimal_digits_value(n: nat)
    ensures
        digits_value(decimal_digits(n)) == n,
        decimal_digits(n).len() >= 1,
        forall|i: int|
            0 <= i < decimal_digits(n).len() ==> '0' <= #[trigger] decimal_digits(n)[i] <= '9',
        decimal_digits(n)[0] == '0' ==> n == 0,
    decreases n,
{
    if n >= 10 {
        lemma_decimal_digits_value(n / 10);
        lemma_digit_chars(n % 10);
        let s = decimal_digits(n);
        assert(s.drop_last() =~= decimal_digits(n / 10));
        assert(s.last() == digit_char(n % 10));
        assert(digits_value(s) == digits_value(s.drop_last()) * 10 + (s.last() as u32 - '0' as u32));
        assert(digits_value(s.drop_last()) == n / 10);
        assert(s.last() as u32 - '0' as u32 == n % 10);
        assert((n / 10) * 10 + n % 10 == n);
        assert(s[0] == decimal_digits(n / 10)[0]);
        assert forall|i: int| 0 <= i < s.len() implies '0' <= #[trigger] s[i] <= '9' by {
            if i < s.len() - 1 {
                assert(s[i] == decimal_digits(n / 10)[i]);
            }
        }
    } else {
        lemma_digit_chars(n);
        let s = decimal_digits(n);
        assert(s.drop_last() =~= Seq::<char>::empty());
        assert(digits_value(s) == digits_value(s.drop_last()) * 10 + (s.last() as u32 - '0' as u32));
        assert(digits_value(s.drop_last()) == 0);
    }
}

/// The decimal form of an integer is a minus sign followed by the digits of its
/// magnitude for a negative one, and its digits alone otherwise.
pub proof fn lemma_decimal_sign(v: int)
    ensures
        v < 0 ==> decimal(v)[0] == '-' && decimal(v).drop_first() == decimal_digits((-v) as nat),
        v >= 0 ==> decimal(v) == decimal_digits(v as nat) && digits_value(decimal(v)) == v,
{
    if v < 0 {
        assert(decimal(v).drop_first() =~= decimal_digits((-v) as nat));
    } else {
        lemma_decimal_digits_value(v as nat);
    }
}

/// The message of each error: fixed text for the platform and initialisation
/// errors, and the given text, value, index or types placed in fixed text
/// for the others.
pub proof fn lemma_error_messages(e: MBError)
    ensures
        e is UnsupportedPlatform ==> e.spec_message()
            == "Failed to create as child window. Only windows is supported!"@,
        e is NotInitialized ==> e.spec_message() == "The miniblink is not initialized"@,
        e matches MBError::LibraryUnloaded(s) ==> e.spec_message() == "Failed to load miniblink! "@
            + s@,
        e matches MBError::FromJsValueFailed(v) ==> e.spec_message()
            == "Failed to convert jsValue `JsValue { inner: "@ + decimal(v.spec_ptr() as int)
            + " }`!"@,
        e matches MBError::TypeError(i) ==> e.spec_message() == "TypeError: param of index `"@
            + decimal(i as int) + "`"@,
        e matches MBError::UnsupportedType(a, b) ==> e.spec_message() == "Except "@
            + a.spec_as_str() + ", but "@ + b.spec_as_str() + " provided!"@,
        e matches MBError::SerdeMessage(m) ==> e.spec_message() == "SerdeMessage: "@ + m@,
        e matches MBError::FailedToConvert(a, b) ==> e.spec_message()
            == "Failed to convert from "@ + a@ + " to "@ + b@,
{
    match e {
        MBError::FromJsValueFailed(v) => {
            reveal_strlit("Failed to convert jsValue `");
            reveal_strlit("JsValue { inner: ");
            reveal_strlit(" }");
            reveal_strlit("`!");
            reveal_strlit("Failed to convert jsValue `JsValue { inner: ");
            reveal_strlit(" }`!");
            assert(e.spec_message() =~= "Failed to convert jsValue `JsValue { inner: "@ + decimal(
                v.spec_ptr() as int,
            ) + " }`!"@);
        },
        _ => {},
    }
}

} // verus!
