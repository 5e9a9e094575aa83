//! The operations a web view offers, as traits its handle types implement.

pub mod traits;
