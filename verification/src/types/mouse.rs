use vstd::prelude::*;
use vstd::std_specs::convert::FromSpecImpl;

verus! {

/// Bit of the control key in the engine's mouse flags.
pub const MOUSE_CONTROL_BIT: u32 = 0x08;
/// Bit of the shift key in the engine's mouse flags.
pub const MOUSE_SHIFT_BIT: u32 = 0x04;
/// Bit of the left button in the engine's mouse flags.
pub const MOUSE_LEFT_BUTTON_BIT: u32 = 0x01;
/// Bit of the middle button in the engine's mouse flags.
pub const MOUSE_MIDDLE_BUTTON_BIT: u32 = 0x10;
/// Bit of the right button in the engine's mouse flags.
pub const MOUSE_RIGHT_BUTTON_BIT: u32 = 0x02;

/// The mouse event.
#[derive(Debug, Copy, Clone, Hash, PartialEq, Eq)]
pub struct MouseFlags {
    /// The control key is pressed.
    pub control: bool,
    /// The shift key is pressed.
    pub shift: bool,
    /// The left button is pressed.
    pub left_button: bool,
    /// The middle button is pressed.
    pub middle_button: bool,
    /// The right button is pressed.
    pub right_button: bool,
}

/// The bit `bit` if `set`, else no bit.
pub open spec fn bit_if(set: bool, bit: u32) -> u32 {
    if set {
        bit
    } else {
        0
    }
}

/// The engine's mouse flags: the bit of each pressed key or button.
pub open spec fn mouse_flags_bits(value: MouseFlags) -> u32 {
    bit_if(value.control, MOUSE_CONTROL_BIT) | bit_if(value.shift, MOUSE_SHIFT_BIT) | bit_if(
        value.left_button,
        MOUSE_LEFT_BUTTON_BIT,
    ) | bit_if(value.middle_button, MOUSE_MIDDLE_BUTTON_BIT) | bit_if(
        value.right_button,
        MOUSE_RIGHT_BUTTON_BIT,
    )
}

impl From<MouseFlags> for u32 {
    fn from(value: MouseFlags) -> (flags: u32) {
        let mut flags: u32 = 0;
        let ghost f0 = flags;
        if value.control {
            flags = flags | MOUSE_CONTROL_BIT;
        }
        proof { lemma_or_step(f0, flags, value.control, MOUSE_CONTROL_BIT); }
        let ghost f1 = flags;
        if value.shift {
            flags = flags | MOUSE_SHIFT_BIT;
        }
        proof { lemma_or_step(f1, flags, value.shift, MOUSE_SHIFT_BIT); }
        let ghost f2 = flags;
        if value.left_button {
            flags = flags | MOUSE_LEFT_BUTTON_BIT;
        }
        proof { lemma_or_step(f2, flags, value.left_button, MOUSE_LEFT_BUTTON_BIT); }
        let ghost f3 = flags;
        if value.middle_button {
            flags = flags | MOUSE_MIDDLE_BUTTON_BIT;
        }
        proof { lemma_or_step(f3, flags, value.middle_button, MOUSE_MIDDLE_BUTTON_BIT); }
        let ghost f4 = flags;
        if value.right_button {
            flags = flags | MOUSE_RIGHT_BUTTON_BIT;
        }
        proof {
            lemma_or_step(f4, flags, value.right_button, MOUSE_RIGHT_BUTTON_BIT);
            lemma_or_chain(value);
        }
        flags
    }
}

impl FromSpecImpl<MouseFlags> for u32 {
    open spec fn obeys_from_spec() -> bool {
        true
    }

    open spec fn from_spec(v: MouseFlags) -> u32 {
        mouse_flags_bits(v)
    }
}

/// Setting a bit when `set` holds, and keeping the flags otherwise, gives the
/// flags with `bit_if(set, bit)` added.
proof fn lemma_or_step(before: u32, after: u32, set: bool, bit: u32)
    requires
        after == (if set {
            before | bit
        } else {
            before
        }),
    ensures
        after == before | bit_if(set, bit),
{
    assert(before | 0u32 == before) by (bit_vector);
}

/// Setting the bits one after another, starting from zero, gives the flags.
proof fn lemma_or_chain(value: MouseFlags)
    ensures
        ((((0u32 | bit_if(value.control, 0x08)) | bit_if(value.shift, 0x04)) | bit_if(
            value.left_button,
            0x01,
        )) | bit_if(value.middle_button, 0x10)) | bit_if(value.right_button, 0x02)
            == mouse_flags_bits(value),
{
    let c = bit_if(value.control, 0x08);
    let s = bit_if(value.shift, 0x04);
    let l = bit_if(value.left_button, 0x01);
    let m = bit_if(value.middle_button, 0x10);
    let r = bit_if(value.right_button, 0x02);
    assert(((((0u32 | c) | s) | l) | m) | r == c | s | l | m | r) by (bit_vector);
}

/// Each key or button has a bit of its own in the flags, set exactly when it
/// is pressed, and no other bit is set.
pub proof fn lemma_mouse_flags_bits(value: MouseFlags)
    ensures
        (mouse_flags_bits(value) & MOUSE_CONTROL_BIT != 0) == value.control,
        (mouse_flags_bits(value) & MOUSE_SHIFT_BIT != 0) == value.shift,
        (mouse_flags_bits(value) & MOUSE_LEFT_BUTTON_BIT != 0) == value.left_button,
        (mouse_flags_bits(value) & MOUSE_MIDDLE_BUTTON_BIT != 0) == value.middle_button,
        (mouse_flags_bits(value) & MOUSE_RIGHT_BUTTON_BIT != 0) == value.right_button,
        mouse_flags_bits(value) < 0x20,
{
    let c = value.control;
    let s = value.shift;
    let l = value.left_button;
    let m = value.middle_button;
    let r = value.right_button;
    let bits = mouse_flags_bits(value);
    assert(bits == (if c { 8u32 } else { 0u32 }) | (if s { 4u32 } else { 0u32 }) | (if l {
        1u32
    } else {
        0u32
    }) | (if m { 16u32 } else { 0u32 }) | (if r { 2u32 } else { 0u32 }));
    assert({
        let b = (if c { 8u32 } else { 0u32 }) | (if s { 4u32 } else { 0u32 }) | (if l {
            1u32
        } else {
            0u32
        }) | (if m { 16u32 } else { 0u32 }) | (if r { 2u32 } else { 0u32 });
        &&& (b & 8 != 0) == c
        &&& (b & 4 != 0) == s
        &&& (b & 1 != 0) == l
        &&& (b & 16 != 0) == m
        &&& (b & 2 != 0) == r
        &&& b < 32
    }) by (bit_vector);
}

/// Different flags give different codes: the code determines the flags.
pub proof fn lemma_mouse_flags_injective(a: MouseFlags, b: MouseFlags)
    requires
        mouse_flags_bits(a) == mouse_flags_bits(b),
    ensures
        a == b,
{
    lemma_mouse_flags_bits(a);
    lemma_mouse_flags_bits(b);
}

/// The engine's mouse flags: control 0x08, shift 0x04, left button 0x01,
/// middle button 0x10, right button 0x02, each set exactly when its key or
/// button is pressed.
pub proof fn lemma_mouse_flag_values(value: MouseFlags)
    ensures
        MOUSE_CONTROL_BIT == 0x08u32,
        MOUSE_SHIFT_BIT == 0x04u32,
        MOUSE_LEFT_BUTTON_BIT == 0x01u32,
        MOUSE_MIDDLE_BUTTON_BIT == 0x10u32,
        MOUSE_RIGHT_BUTTON_BIT == 0x02u32,
        (mouse_flags_bits(value) & 0x08u32 != 0) == value.control,
        (mouse_flags_bits(value) & 0x04u32 != 0) == value.shift,
        (mouse_flags_bits(value) & 0x01u32 != 0) == value.left_button,
        (mouse_flags_bits(value) & 0x10u32 != 0) == value.middle_button,
        (mouse_flags_bits(value) & 0x02u32 != 0) == value.right_button,
        mouse_flags_bits(value) < 0x20u32,
{
    lemma_mouse_flags_bits(value);
}

} // verus!
