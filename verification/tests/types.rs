use miniblink::params::{
    CreateViewParameters, GetCookieParameters, NavigationParameters, UrlChangedParameters,
};
use miniblink::proxy::{ProxyConfig, ProxyEndpoint, CREDENTIAL_CAPACITY, HOSTNAME_CAPACITY};
use miniblink::types::cookie::CookieCommand;
use miniblink::types::info::{HttpBodyElementType, ResourceType};
use miniblink::types::keyboard::{KeyboardFlags, VirtualKeyCode};
use miniblink::types::mouse::MouseFlags;
use miniblink::types::navigation::NavigationType;
use miniblink::types::proxy::{Proxy, ProxyType};
use miniblink::types::request::{AsynRequestState, RequestType};
use miniblink::types::webview::{Handle, MenuItemId, Rect};
use miniblink::types::window::{RawWindowFeatures, WindowFeatures, WindowMessage, WindowType};
use miniblink::util::{fill_fixed_buffer, header_field_units, safe_c_bytes, wide_c_path};

fn flags(control: bool, shift: bool, left: bool, middle: bool, right: bool) -> MouseFlags {
    MouseFlags { control, shift, left_button: left, middle_button: middle, right_button: right }
}

#[test]
fn mouse_flags_bits() {
    assert_eq!(u32::from(flags(false, false, false, false, false)), 0);
    assert_eq!(u32::from(flags(true, false, false, false, false)), 0x08);
    assert_eq!(u32::from(flags(false, true, false, false, false)), 0x04);
    assert_eq!(u32::from(flags(false, false, true, false, false)), 0x01);
    assert_eq!(u32::from(flags(false, false, false, true, false)), 0x10);
    assert_eq!(u32::from(flags(false, false, false, false, true)), 0x02);
    assert_eq!(u32::from(flags(true, true, true, true, true)), 0x1f);
}

#[test]
fn mouse_flags_codes_are_distinct() {
    let mut seen = std::collections::HashSet::new();
    for i in 0..32u32 {
        let f = flags(i & 1 != 0, i & 2 != 0, i & 4 != 0, i & 8 != 0, i & 16 != 0);
        assert!(seen.insert(u32::from(f)));
    }
}

#[test]
fn keyboard_codes() {
    assert_eq!(KeyboardFlags::Repeat.code(), 0);
    assert_eq!(KeyboardFlags::Extended.code(), 1);
    assert_eq!(VirtualKeyCode::Enter.code(), 0x0D);
    assert_eq!(VirtualKeyCode::Key0.code(), 0x30);
    assert_eq!(VirtualKeyCode::F1.code(), 0x70);
}

#[test]
fn window_codes() {
    assert_eq!(WindowMessage::Null.code(), 0);
    assert_eq!(WindowMessage::MouseMove.code(), 0x0200);
    assert_eq!(WindowMessage::MouseWheel.code(), 0x020A);
    assert_eq!(WindowType::Popup.code(), 0);
    assert_eq!(WindowType::Transparent.code(), 1);
    assert_eq!(WindowType::Control.code(), 2);
    assert_eq!(CookieCommand::ClearAllCookies.code(), 0);
    assert_eq!(CookieCommand::ReloadCookiesFromFile.code(), 3);
}

#[test]
fn window_features_from_engine() {
    let raw = RawWindowFeatures {
        x: 10,
        y: -20,
        width: 640,
        height: 480,
        menu_bar_visible: 1,
        status_bar_visible: 0,
        tool_bar_visible: -1,
        location_bar_visible: 0,
        scrollbars_visible: 2,
        resizable: 0,
        fullscreen: 1,
    };
    let f = WindowFeatures::from_mb_window_features(&raw);
    assert_eq!((f.x, f.y, f.width, f.height), (10, -20, 640, 480));
    assert!(f.menu_bar_visible);
    assert!(!f.status_bar_visible);
    assert!(f.tool_bar_visible);
    assert!(!f.location_bar_visible);
    assert!(f.scroll_bars_visible);
    assert!(!f.resizable);
    assert!(f.fullscreen);
}

#[test]
fn navigation_codes() {
    assert_eq!(NavigationType::from_code(0), NavigationType::LinkClick);
    assert_eq!(NavigationType::from_code(4), NavigationType::FormResubmit);
    assert_eq!(NavigationType::Reload.code(), 3);
    assert_eq!(NavigationType::from_code_or_other(1), NavigationType::FormSubmit);
    assert_eq!(NavigationType::from_code_or_other(42), NavigationType::Other);
    assert_eq!(NavigationType::from_code_or_other(-1), NavigationType::Other);
}

#[test]
fn request_and_resource_codes() {
    assert_eq!(AsynRequestState::from_code(0), AsynRequestState::Success);
    assert_eq!(AsynRequestState::from_code(1), AsynRequestState::Fail);
    assert_eq!(RequestType::from_code(2), RequestType::Post);
    assert_eq!(RequestType::Put.code(), 3);
    assert_eq!(ResourceType::from_code(0), ResourceType::MainFrame);
    assert_eq!(ResourceType::from_code(13), ResourceType::Xhr);
    assert_eq!(ResourceType::LastType.code(), 16);
    assert_eq!(HttpBodyElementType::from_code(1), HttpBodyElementType::File);
    assert_eq!(HttpBodyElementType::Data.code(), 0);
}

#[test]
fn menu_item_bits() {
    assert_eq!(MenuItemId::MenuSelectedAllId.to(), 2);
    assert_eq!(MenuItemId::MenuCutId.to(), 64);
    assert_eq!(MenuItemId::MenuSaveImageId.to(), 4096);
}

#[test]
fn handles_and_rects() {
    assert_eq!(Handle::null().0, 0);
    let r = Rect::new(1, 2, 3, 4);
    assert_eq!((r.x, r.y, r.width, r.height), (1, 2, 3, 4));
}

fn c_chars(s: &str, n: usize) -> Vec<i8> {
    let mut v: Vec<i8> = s.bytes().map(|b| b as i8).collect();
    v.resize(n, 0);
    v
}

#[test]
fn proxy_config_record() {
    let none = ProxyConfig::NoProxy.to_wke_proxy();
    assert_eq!(none.type_, 0);
    assert_eq!(none.port, 0);
    assert_eq!(none.hostname, vec![0i8; HOSTNAME_CAPACITY]);
    assert_eq!(none.username, vec![0i8; CREDENTIAL_CAPACITY]);

    let e = ProxyEndpoint {
        host: "localhost".to_string(),
        port: 1080,
        username: Some("me".to_string()),
        password: None,
    };
    let r = ProxyConfig::Socks5(e.clone()).to_wke_proxy();
    assert_eq!(r.type_, 4);
    assert_eq!(r.port, 1080);
    assert_eq!(r.hostname, c_chars("localhost", HOSTNAME_CAPACITY));
    assert_eq!(r.username, c_chars("me", CREDENTIAL_CAPACITY));
    assert_eq!(r.password, vec![0i8; CREDENTIAL_CAPACITY]);
    assert_eq!(ProxyConfig::Http(e.clone()).to_wke_proxy().type_, 1);
    assert_eq!(ProxyConfig::Socks5Hostname(e).to_wke_proxy().type_, 5);
}

#[test]
fn proxy_config_cuts_at_nul_and_keeps_terminator() {
    let e = ProxyEndpoint {
        host: "ab\0cd".to_string(),
        port: 1,
        username: Some("x".repeat(80)),
        password: Some(String::new()),
    };
    let r = ProxyConfig::Http(e).to_wke_proxy();
    assert_eq!(r.hostname, c_chars("ab", HOSTNAME_CAPACITY));
    // A user name too long for its buffer fills it, with no room for a terminator.
    assert_eq!(r.username, vec![b'x' as i8; CREDENTIAL_CAPACITY]);
}

#[test]
fn mb_proxy_record() {
    let p = Proxy {
        type_: ProxyType::Socks4A,
        hostname: "proxy.example".to_string(),
        port: 3128,
        username: "user".to_string(),
        password: "pw".to_string(),
    };
    let r = p.to_mb_proxy();
    assert_eq!(r.type_, 3);
    assert_eq!(r.port, 3128);
    assert_eq!(r.hostname, c_chars("proxy.example", HOSTNAME_CAPACITY));
    assert_eq!(r.username, c_chars("user", CREDENTIAL_CAPACITY));
    assert_eq!(r.password, c_chars("pw", CREDENTIAL_CAPACITY));
    assert_eq!(ProxyType::Http.code(), 0);
    assert_eq!(ProxyType::SocksHostname.code(), 5);
}

#[test]
fn fixed_buffers_and_c_bytes() {
    assert_eq!(fill_fixed_buffer(b"abc", 5), vec![97, 98, 99, 0, 0]);
    assert_eq!(fill_fixed_buffer(b"abcdef", 3), vec![97, 98, 99]);
    assert_eq!(safe_c_bytes("he\0llo"), b"he".to_vec());
    assert_eq!(safe_c_bytes("hello"), b"hello".to_vec());
}

#[test]
fn wide_strings() {
    let w = wide_c_path("C:/jar.dat").unwrap();
    assert_eq!(w.len(), 11);
    assert_eq!(w[0], 'C' as u16);
    assert_eq!(w[10], 0);
    assert!(wide_c_path("a\0b").is_none());
    assert_eq!(wide_c_path("a\u{1F600}").unwrap(), vec![0x61, 0xD83D, 0xDE00, 0]);
    assert_eq!(wide_c_path("").unwrap(), vec![0]);
    assert_eq!(wide_c_path("ab\0").unwrap().len(), 3);
    let (n, v) = header_field_units("Accept", "*/*").unwrap();
    assert_eq!(n.len(), 7);
    assert_eq!(v.len(), 4);
    assert!(header_field_units("A\0", "b").is_some());
    assert!(header_field_units("A", "b\0c").is_none());
}

#[test]
fn parameters_from_engine() {
    let c = GetCookieParameters::from_raw(1, "k=v".to_string());
    assert_eq!(c.state, AsynRequestState::Fail);
    assert_eq!(c.cookie, "k=v");
    let u = UrlChangedParameters::from_raw("https://a/".to_string(), 1, 0);
    assert_eq!(u.url, "https://a/");
    assert!(u.can_go_back);
    assert!(!u.can_go_forward);
    let n = NavigationParameters::from_raw(2, "u".to_string());
    assert_eq!(n.navigation_type, NavigationType::BackForward);
    let n = NavigationParameters::from_raw(17, "u".to_string());
    assert_eq!(n.navigation_type, NavigationType::Other);
    let raw = RawWindowFeatures {
        x: 0,
        y: 0,
        width: 1,
        height: 2,
        menu_bar_visible: 0,
        status_bar_visible: 0,
        tool_bar_visible: 0,
        location_bar_visible: 0,
        scrollbars_visible: 0,
        resizable: 1,
        fullscreen: 0,
    };
    let v = CreateViewParameters::from_raw(0, "x".to_string(), &raw);
    assert_eq!(v.navigation_type, NavigationType::LinkClick);
    assert_eq!(v.window_features.height, 2);
    assert!(v.window_features.resizable);
}
