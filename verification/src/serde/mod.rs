//! The decisions of the serde bridge between JavaScript values and Rust values:
//! which visit a JavaScript type leads to, which types are refused, and the
//! cursors that walk arrays and objects.

pub mod de;
pub mod ser;
