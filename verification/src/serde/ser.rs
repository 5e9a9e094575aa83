//! The decisions of turning a Rust value into a JavaScript value.

use vstd::prelude::*;
use vstd::string::StringExecFns;

use crate::error::{MBError, MBResult};

verus! {

/// `v` fits in an `i32`, the only integer the engine builds.
pub open spec fn fits_i32(v: int) -> bool {
    i32::MIN <= v <= i32::MAX
}

/// The error for an integer of type `from` that does not fit in an `i32`.
pub open spec fn is_narrowing_error(e: MBError, from: Seq<char>) -> bool {
    e matches MBError::FailedToConvert(to, source) && to@ == "i32"@ && source@ == from
}

/// The `i32` an `i64` is written to the engine as: the value itself when
/// it fits, an error naming both types otherwise.
pub fn narrow_i64(v: i64) -> (r: MBResult<i32>)
    ensures
        fits_i32(v as int) ==> r == Ok::<i32, MBError>(v as i32),
        !fits_i32(v as int) ==> (r matches Err(e) && is_narrowing_error(e, "i64"@)),
{
    if i32::MIN as i64 <= v && v <= i32::MAX as i64 {
        Ok(v as i32)
    } else {
        Err(MBError::FailedToConvert(String::from_str("i32"), String::from_str("i64")))
    }
}

/// The `i32` a `u64` is written to the engine as: the value itself when
/// it fits, an error naming both types otherwise.
pub fn narrow_u64(v: u64) -> (r: MBResult<i32>)
    ensures
        fits_i32(v as int) ==> r == Ok::<i32, MBError>(v as i32),
        !fits_i32(v as int) ==> (r matches Err(e) && is_narrowing_error(e, "u64"@)),
{
    if v <= i32::MAX as u64 {
        Ok(v as i32)
    } else {
        Err(MBError::FailedToConvert(String::from_str("i32"), String::from_str("u64")))
    }
}

/// The length an array is created with for a sequence of announced length
/// `len`: the length (0 when none is announced), cut to an `i32` as a cast
/// does.
pub fn seq_length(len: Option<usize>) -> (r: i32)
    ensures
        r == (match len {
            Some(n) => n,
            None => 0,
        }) as i32,
{
    match len {
        Some(n) => n as i32,
        None => 0,
    }
}

/// The writer of the elements of an array: it hands out the positions 0, 1, 2,
/// ... in turn. For a tuple variant it also keeps the variant's name, under
/// which the finished array is stored.
pub struct MBSerializeSeq {
    pos: i32,
    wrapper: Option<String>,
}

impl MBSerializeSeq {
    /// The number of elements written so far.
    pub closed spec fn pos(&self) -> int {
        self.pos as int
    }

    /// The name of the variant the array belongs to, for a tuple variant.
    pub closed spec fn wrapper(&self) -> Option<Seq<char>> {
        match self.wrapper {
            Some(w) => Some(w@),
            None => None,
        }
    }

    /// A writer for a plain array.
    pub fn new() -> (r: Self)
        ensures
            r.pos() == 0,
            r.wrapper() is None,
    {
        MBSerializeSeq { pos: 0, wrapper: None }
    }

    /// A writer for the array of the tuple variant `variant`.
    pub fn new_with_wrapper(variant: &str) -> (r: Self)
        ensures
            r.pos() == 0,
            r.wrapper() == Some(variant@),
    {
        MBSerializeSeq { pos: 0, wrapper: Some(variant.to_string()) }
    }

    /// The position of the element written now; the next one goes after it.
    pub fn serialize_element(&mut self) -> (r: i32)
        requires
            old(self).pos() < i32::MAX,
        ensures
            r == old(self).pos(),
            final(self).pos() == old(self).pos() + 1,
            final(self).wrapper() == old(self).wrapper(),
    {
        let p = self.pos;
        self.pos = self.pos + 1;
        p
    }

    /// The name under which a tuple variant's array is stored when it ends.
    pub fn end_variant(&self) -> (r: &str)
        requires
            self.wrapper() is Some,
        ensures
            Some(r@) == self.wrapper(),
    {
        match &self.wrapper {
            Some(w) => w.as_str(),
            None => "",
        }
    }
}

/// The writer of the fields of an object. For a struct variant it also keeps
/// the variant's name, under which the finished object is stored.
pub struct MBSerializeMap {
    wrapper: Option<String>,
}

impl MBSerializeMap {
    /// The name of the variant the object belongs to, for a struct variant.
    pub closed spec fn wrapper(&self) -> Option<Seq<char>> {
        match self.wrapper {
            Some(w) => Some(w@),
            None => None,
        }
    }

    /// A writer for a plain object.
    pub fn new() -> (r: Self)
        ensures
            r.wrapper() is None,
    {
        MBSerializeMap { wrapper: None }
    }

    /// A writer for the object of the struct variant `variant`.
    pub fn new_with_wrapper(variant: &str) -> (r: Self)
        ensures
            r.wrapper() == Some(variant@),
    {
        MBSerializeMap { wrapper: Some(variant.to_string()) }
    }

    /// The name under which a struct variant's object is stored when it ends.
    pub fn end_variant(&self) -> (r: &str)
        requires
            self.wrapper() is Some,
        ensures
            Some(r@) == self.wrapper(),
    {
        match &self.wrapper {
            Some(w) => w.as_str(),
            None => "",
        }
    }
}

} // verus!
