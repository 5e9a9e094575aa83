//! The decisions of turning a JavaScript value into a Rust value.

use vstd::prelude::*;

use crate::error::{MBError, MBResult};
use crate::value::JsType;

verus! {

/// What the Rust side asks a JavaScript value to be read as: a floating-point
/// number, or anything the value itself describes.
#[derive(Debug, Clone, Copy, PartialEq, Eq)]
pub enum Asked {
    /// An `f32` or an `f64`.
    Float,
    /// Any other Rust value: the JavaScript type decides.
    Anything,
}

/// What the visitor is handed for a JavaScript value.
#[derive(Debug, Clone, Copy, PartialEq, Eq)]
pub enum AnyPlan {
    /// The value read as an `i32`.
    Int,
    /// The value read as an `f64`.
    Double,
    /// The value read as a string.
    Str,
    /// The value read as a boolean.
    Bool,
    /// The value walked as a map, key by key.
    MapEntries,
    /// The value walked as a sequence, element by element.
    SeqElements,
    /// No value (`visit_none`).
    Nothing,
}

/// The visit for a value of each JavaScript type: a number is read as an
/// `f64` when a float is asked for, and as an `i32` otherwise. Functions have
/// no visit.
pub open spec fn spec_plan_any(t: JsType, asked: Asked) -> Option<AnyPlan> {
    match t {
        JsType::Number => if asked == Asked::Float {
            Some(AnyPlan::Double)
        } else {
            Some(AnyPlan::Int)
        },
        JsType::String => Some(AnyPlan::Str),
        JsType::Boolean => Some(AnyPlan::Bool),
        JsType::Object => Some(AnyPlan::MapEntries),
        JsType::Array => Some(AnyPlan::SeqElements),
        JsType::Null | JsType::Undefined => Some(AnyPlan::Nothing),
        JsType::Function => None,
    }
}

/// The visit made for a value of type `t` when the Rust side asks for `asked`.
pub fn plan_any(t: JsType, asked: Asked) -> (r: AnyPlan)
    requires
        t != JsType::Function,
    ensures
        spec_plan_any(t, asked) == Some(r),
{
    match t {
        JsType::Number => match asked {
            Asked::Float => AnyPlan::Double,
            Asked::Anything => AnyPlan::Int,
        },
        JsType::String => AnyPlan::Str,
        JsType::Boolean => AnyPlan::Bool,
        JsType::Object => AnyPlan::MapEntries,
        JsType::Array => AnyPlan::SeqElements,
        _ => AnyPlan::Nothing,
    }
}

/// A number asked for as a float is read as a float, so its fraction is kept;
/// a float is asked for of nothing but numbers.
pub proof fn lemma_float_asked_reads_double(t: JsType)
    ensures
        t == JsType::Number <==> spec_plan_any(t, Asked::Float) == Some(AnyPlan::Double),
        t == JsType::Number ==> spec_plan_any(t, Asked::Anything) == Some(AnyPlan::Int),
{
}

/// The error for a value of type `t` where the bridge wanted another one: it
/// always names `OBJECT` as the type it wanted.
pub open spec fn refused(t: JsType) -> MBError {
    MBError::UnsupportedType(JsType::Object, t)
}

/// `t` is one of the two JavaScript types that stand for no value.
pub open spec fn is_nothing(t: JsType) -> bool {
    t == JsType::Null || t == JsType::Undefined
}

/// Reading a boolean accepts only a boolean.
pub fn check_bool(t: JsType) -> (r: MBResult<()>)
    ensures
        t == JsType::Boolean ==> r is Ok,
        t != JsType::Boolean ==> r == Err::<(), MBError>(refused(t)),
{
    match t {
        JsType::Boolean => Ok(()),
        other => Err(MBError::UnsupportedType(JsType::Object, other)),
    }
}

/// Reading an option sees no value in `null` and `undefined`, and some value
/// in anything else.
pub fn is_none(t: JsType) -> (r: bool)
    ensures
        r == is_nothing(t),
        r == (t == JsType::Null || t == JsType::Undefined),
{
    match t {
        JsType::Null | JsType::Undefined => true,
        _ => false,
    }
}

/// Reading the unit value accepts only `null` and `undefined`.
pub fn check_unit(t: JsType) -> (r: MBResult<()>)
    ensures
        is_nothing(t) ==> r is Ok,
        !is_nothing(t) ==> r == Err::<(), MBError>(refused(t)),
        r is Ok <==> (t == JsType::Null || t == JsType::Undefined),
        r is Err ==> r == Err::<(), MBError>(MBError::UnsupportedType(JsType::Object, t)),
{
    match t {
        JsType::Null | JsType::Undefined => Ok(()),
        other => Err(MBError::UnsupportedType(JsType::Object, other)),
    }
}

/// Reading a sequence (or a tuple) accepts only an array.
pub fn check_seq(t: JsType) -> (r: MBResult<()>)
    ensures
        t == JsType::Array ==> r is Ok,
        t != JsType::Array ==> r == Err::<(), MBError>(refused(t)),
{
    match t {
        JsType::Array => Ok(()),
        other => Err(MBError::UnsupportedType(JsType::Object, other)),
    }
}

/// Reading a map (or a struct) accepts only an object.
pub fn check_map(t: JsType) -> (r: MBResult<()>)
    ensures
        t == JsType::Object ==> r is Ok,
        t != JsType::Object ==> r == Err::<(), MBError>(refused(t)),
{
    match t {
        JsType::Object => Ok(()),
        other => Err(MBError::UnsupportedType(JsType::Object, other)),
    }
}

/// How the variant of an enum is found in a JavaScript value.
#[derive(Debug, Clone, Copy, PartialEq, Eq)]
pub enum EnumPlan {
    /// An object: the variant is its first key, its content the value there.
    FirstKey,
    /// A string: the string names a unit variant.
    Name,
}

/// The way an enum is read from a value of type `t`: objects by their
/// first key, strings by name; anything else is refused.
pub fn plan_enum(t: JsType) -> (r: MBResult<EnumPlan>)
    ensures
        t == JsType::Object ==> r == Ok::<EnumPlan, MBError>(EnumPlan::FirstKey),
        t == JsType::String ==> r == Ok::<EnumPlan, MBError>(EnumPlan::Name),
        t != JsType::Object && t != JsType::String ==> r == Err::<EnumPlan, MBError>(refused(t)),
{
    match t {
        JsType::Object => Ok(EnumPlan::FirstKey),
        JsType::String => Ok(EnumPlan::Name),
        other => Err(MBError::UnsupportedType(JsType::Object, other)),
    }
}

/// Only `null` and `undefined` stand for no value; every other type, booleans
/// and numbers among them, holds one. Refusals always name `OBJECT` as the type
/// wanted and the type found.
pub proof fn lemma_nothing_is_null_or_undefined(t: JsType)
    ensures
        is_nothing(t) <==> (t == JsType::Null || t == JsType::Undefined),
        refused(t) == MBError::UnsupportedType(JsType::Object, t),
{
}

/// The visit for each JavaScript type, whatever is asked: strings as strings,
/// booleans as booleans, objects walked as maps, arrays walked as sequences,
/// `null` and `undefined` as no value, and numbers as an `f64` when a float is
/// asked for and as an `i32` otherwise; functions have no visit.
pub proof fn lemma_plan_for_each_type(asked: Asked)
    ensures
        spec_plan_any(JsType::Number, Asked::Float) == Some(AnyPlan::Double),
        spec_plan_any(JsType::Number, Asked::Anything) == Some(AnyPlan::Int),
        spec_plan_any(JsType::String, asked) == Some(AnyPlan::Str),
        spec_plan_any(JsType::Boolean, asked) == Some(AnyPlan::Bool),
        spec_plan_any(JsType::Object, asked) == Some(AnyPlan::MapEntries),
        spec_plan_any(JsType::Array, asked) == Some(AnyPlan::SeqElements),
        spec_plan_any(JsType::Null, asked) == Some(AnyPlan::Nothing),
        spec_plan_any(JsType::Undefined, asked) == Some(AnyPlan::Nothing),
        spec_plan_any(JsType::Function, asked) is None,
{
}

/// One step of the walk over an array of `len` elements standing at `pos`: the
/// position it moves to and the index it reads, none once past the end.
pub open spec fn seq_step(pos: nat, len: nat) -> (nat, Option<nat>) {
    if pos < len {
        ((pos + 1) as nat, Some(pos))
    } else {
        (pos, None)
    }
}

/// The indices that `k` successive steps from `pos` read.
pub open spec fn seq_run(pos: nat, len: nat, k: nat) -> Seq<Option<nat>>
    decreases k,
{
    if k == 0 {
        Seq::empty()
    } else {
        let (next, out) = seq_step(pos, len);
        seq![out] + seq_run(next, len, (k - 1) as nat)
    }
}

/// The cursor that walks the elements of an array.
pub struct MBSeqAccess {
    pos: usize,
    len: usize,
}

impl MBSeqAccess {
    /// The next position to read.
    pub closed spec fn pos(&self) -> nat {
        self.pos as nat
    }

    /// The number of elements.
    pub closed spec fn len(&self) -> nat {
        self.len as nat
    }

    /// A cursor at the start of an array whose length the engine reported as
    /// `len` (a negative length read as an unsigned one).
    pub fn new(len: i32) -> (r: Self)
        ensures
            r.pos() == 0,
            r.len() == len as usize,
    {
        MBSeqAccess { pos: 0, len: len as usize }
    }

    /// The index of the next element to read, if any, and the cursor moves past
    /// it.
    pub fn next_element_index(&mut self) -> (r: Option<i32>)
        ensures
            final(self).len() == old(self).len(),
            final(self).pos() == seq_step(old(self).pos(), old(self).len()).0,
            match seq_step(old(self).pos(), old(self).len()).1 {
                Some(i) => r == Some((i as usize) as i32),
                None => r is None,
            },
    {
        if self.pos < self.len {
            let v = self.pos as i32;
            self.pos = self.pos + 1;
            Some(v)
        } else {
            None
        }
    }
}

/// A walk over an array of `len` elements reads every index once, in order,
/// and then reads nothing.
pub proof fn lemma_seq_walk_reads_each_index(len: nat, extra: nat)
    ensures
        seq_run(0, len, len + extra) == Seq::new(len, |i: int| Some(i as nat)) + Seq::new(
            extra,
            |i: int| None::<nat>,
        ),
{
    lemma_seq_run_from(0, len, len + extra);
}

/// From position `pos`, `k` steps read the indices from `pos` up to the end,
/// then nothing.
proof fn lemma_seq_run_from(pos: nat, len: nat, k: nat)
    requires
        pos <= len,
        len - pos <= k,
    ensures
        seq_run(pos, len, k) == Seq::new((len - pos) as nat, |i: int| Some((pos + i) as nat))
            + Seq::new((k - (len - pos)) as nat, |i: int| None::<nat>),
    decreases k,
{
    let expected = Seq::new((len - pos) as nat, |i: int| Some((pos + i) as nat)) + Seq::new(
        (k - (len - pos)) as nat,
        |i: int| None::<nat>,
    );
    if k == 0 {
        assert(seq_run(pos, len, k) =~= expected);
    } else if pos < len {
        lemma_seq_run_from((pos + 1) as nat, len, (k - 1) as nat);
        assert(seq_run(pos, len, k) =~= expected);
    } else {
        lemma_seq_run_from(pos, len, (k - 1) as nat);
        assert(seq_run(pos, len, k) =~= expected);
    }
}

/// The key the walk over an object hands out at position `pos`, none once
/// past the last key.
pub open spec fn map_next_key(keys: Seq<Seq<char>>, pos: nat) -> Option<Seq<char>> {
    if pos < keys.len() {
        Some(keys[pos as int])
    } else {
        None
    }
}

/// The key whose value the walk over an object reads after handing out `pos`
/// keys: the one handed out last.
pub open spec fn map_value_key(keys: Seq<Seq<char>>, pos: nat) -> Seq<char> {
    keys[pos - 1]
}

/// The cursor that walks the keys of an object, reading each value under the
/// key handed out last.
pub struct MBMapAccess {
    pos: usize,
    keys: Vec<String>,
}

impl MBMapAccess {
    /// The number of keys handed out so far.
    pub closed spec fn pos(&self) -> nat {
        self.pos as nat
    }

    /// The keys of the object, in the order the engine listed them.
    pub closed spec fn keys(&self) -> Seq<Seq<char>> {
        self.keys@.map_values(|k: String| k@)
    }

    /// A cursor at the first of `keys`.
    pub fn new(keys: Vec<String>) -> (r: Self)
        ensures
            r.pos() == 0,
            r.keys() == keys@.map_values(|k: String| k@),
    {
        MBMapAccess { pos: 0, keys }
    }

    /// The next key, if any, and the cursor moves past it.
    pub fn next_key(&mut self) -> (r: Option<String>)
        ensures
            final(self).keys() == old(self).keys(),
            match map_next_key(old(self).keys(), old(self).pos()) {
                Some(k) => r matches Some(s) && s@ == k && final(self).pos() == old(self).pos()
                    + 1,
                None => r is None && final(self).pos() == old(self).pos(),
            },
    {
        if self.pos < self.keys.len() {
            let key = self.keys[self.pos].clone();
            self.pos = self.pos + 1;
            Some(key)
        } else {
            None
        }
    }

    /// The key whose value is read next: the one handed out last. Before any
    /// key was handed out there is none, and the walk fails.
    pub fn value_key(&self) -> (r: &str)
        requires
            0 < self.pos() <= self.keys().len(),
        ensures
            r@ == map_value_key(self.keys(), self.pos()),
    {
        self.keys[self.pos - 1].as_str()
    }
}

/// The value read after a key is handed out is the value under that very key.
pub proof fn lemma_value_follows_key(keys: Seq<Seq<char>>, pos: nat)
    requires
        pos < keys.len(),
    ensures
        map_next_key(keys, pos) == Some(map_value_key(keys, pos + 1)),
{
}

/// The walk over an object hands out the keys in the order the engine listed
/// them, the key at position `pos` while there is one and nothing after the
/// last; the value read then is the one under the key handed out last.
pub proof fn lemma_map_walk_keys(keys: Seq<Seq<char>>, pos: nat)
    ensures
        pos < keys.len() ==> map_next_key(keys, pos) == Some(keys[pos as int]),
        pos >= keys.len() ==> map_next_key(keys, pos) is None,
        0 < pos <= keys.len() ==> map_value_key(keys, pos) == keys[pos - 1],
{
}

} // verus!
