//! Safe, verified core of a binding to the miniblink web view library.
//!
//! This crate holds the data types and the decisions of the binding: the
//! keyboard, mouse and window codes handed to the engine, the C layout of proxy
//! settings, the plans that turn JavaScript values into Rust values, and the
//! replies that callbacks give back to the engine.

pub mod callback;
pub mod content;
pub mod error;
pub mod params;
pub mod proxy;
pub mod serde;
pub mod types;
pub mod util;
pub mod value;
pub mod webview;
