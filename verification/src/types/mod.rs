//! Plain types exchanged with the web view engine.

pub mod cookie;
pub mod info;
pub mod keyboard;
pub mod mouse;
pub mod navigation;
pub mod net;
pub mod proxy;
pub mod request;
pub mod webview;
pub mod window;
