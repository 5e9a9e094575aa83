use vstd::prelude::*;

verus! {

/// The keyboard flags.
#[derive(Debug, Copy, Clone, Hash, PartialEq, Eq)]
pub enum KeyboardFlags {
    /// repeat
    Repeat,
    /// extended
    Extended,
}

impl KeyboardFlags {
    /// The flag code handed to the engine.
    pub open spec fn spec_code(self) -> u32 {
        match self {
            KeyboardFlags::Repeat => 0,
            KeyboardFlags::Extended => 1,
        }
    }

    /// The flag code handed to the engine.
    pub fn code(self) -> (r: u32)
        ensures
            r == self.spec_code(),
    {
        match self {
            KeyboardFlags::Repeat => 0,
            KeyboardFlags::Extended => 1,
        }
    }
}

/// The virtual key code.
#[derive(Debug, Copy, Clone, Hash, PartialEq, Eq)]
pub enum VirtualKeyCode {
    /// Left mouse button
    LeftButton,
    /// Right mouse button
    RightButton,
    /// Control-break processing
    Cancel,
    /// Middle mouse button
    MiddleButton,
    /// X1 mouse button
    XButton1,
    /// X2 mouse button
    XButton2,
    /// Backspace key
    Backspace,
    /// Tab key
    Tab,
    /// Clear key
    Clear,
    /// Enter key
    Enter,
    /// Shift key
    Shift,
    /// Ctrl key
    Control,
    /// Alt key
    Menu,
    /// Pause key
    Pause,
    /// Caps lock key
    CapsLock,
    /// IME Kana / Hangul  mode
    Kana,
    /// IME On
    ImeOn,
    /// IME Junja mode
    Junja,
    /// IME final mode
    Final,
    /// IME Hanja / Kanji mode
    Hanja,
    /// IME Off
    ImeOff,
    /// Esc key
    Escape,
    /// IME convert
    Convert,
    /// IME nonconvert
    Nonconvert,
    /// IME accept
    Accept,
    /// IME mode change request
    ModeChange,
    /// Spacebar key
    Space,
    /// Page up key
    PageUp,
    /// Page down key
    PageDown,
    /// End key
    End,
    /// Home key
    Home,
    /// Left arrow key
    Left,
    /// Up arrow key
    Up,
    /// Right arrow key
    Right,
    /// Down arrow key
    Down,
    /// Select key
    Select,
    /// Print key
    Print,
    /// Execute key
    Execute,
    /// Print screen key
    Snapshot,
    /// Insert key
    Insert,
    /// Delete key
    Delete,
    /// Help key
    Help,
    /// 0 key
    Key0,
    /// 1 key
    Key1,
    /// 2 key
    Key2,
    /// 3 key
    Key3,
    /// 4 key
    Key4,
    /// 5 key
    Key5,
    /// 6 key
    Key6,
    /// 7 key
    Key7,
    /// 8 key
    Key8,
    /// 9 key
    Key9,
    /// A key
    KeyA,
    /// B key
    KeyB,
    /// C key
    KeyC,
    /// D key
    KeyD,
    /// E key
    KeyE,
    /// F key
    KeyF,
    /// G key
    KeyG,
    /// H key
    KeyH,
    /// I key
    KeyI,
    /// J key
    KeyJ,
    /// K key
    KeyK,
    /// L key
    KeyL,
    /// M key
    KeyM,
    /// N key
    KeyN,
    /// O key
    KeyO,
    /// P key
    KeyP,
    /// Q key
    KeyQ,
    /// R key
    KeyR,
    /// S key
    KeyS,
    /// T key
    KeyT,
    /// U key
    KeyU,
    /// V key
    KeyV,
    /// W key
    KeyW,
    /// X key
    KeyX,
    /// Y key
    KeyY,
    /// Z key
    KeyZ,
    /// Left Windows logo key
    LeftWin,
    /// Right Windows logo key
    RightWin,
    /// Application key
    Apps,
    /// Computer Sleep key
    Sleep,
    /// Numeric keypad 0 key
    Numpad0,
    /// Numeric keypad 1 key
    Numpad1,
    /// Numeric keypad 2 key
    Numpad2,
    /// Numeric keypad 3 key
    Numpad3,
    /// Numeric keypad 4 key
    Numpad4,
    /// Numeric keypad 5 key
    Numpad5,
    /// Numeric keypad 6 key
    Numpad6,
    /// Numeric keypad 7 key
    Numpad7,
    /// Numeric keypad 8 key
    Numpad8,
    /// Numeric keypad 9 key
    Numpad9,
    /// Multiply key
    Multiply,
    /// Add key
    Add,
    /// Separator key
    Separator,
    /// Subtract key
    Subtract,
    /// Decimal key
    Decimal,
    /// Divide key
    Divide,
    /// F1 key
    F1,
    /// F2 key
    F2,
    /// F3 key
    F3,
    /// F4 key
    F4,
    /// F5 key
    F5,
    /// F6 key
    F6,
    /// F7 key
    F7,
    /// F8 key
    F8,
    /// F9 key
    F9,
    /// F10 key
    F10,
    /// F11 key
    F11,
    /// F12 key
    F12,
    /// F13 key
    F13,
    /// F14 key
    F14,
    /// F15 key
    F15,
    /// F16 key
    F16,
    /// F17 key
    F17,
    /// F18 key
    F18,
    /// F19 key
    F19,
    /// F20 key
    F20,
    /// F21 key
    F21,
    /// F22 key
    F22,
    /// F23 key
    F23,
    /// F24 key
    F24,
    /// Num lock key
    NumLock,
    /// Scroll lock key
    ScrollLock,
    /// Left Shift key
    LeftShift,
    /// Right Shift key
    RightShift,
    /// Left Ctrl key
    LeftCtrl,
    /// Right Ctrl key
    RightCtrl,
    /// Left Alt key
    LeftAlt,
    /// Right Alt key
    RightAlt,
    /// Browser Back key
    BrowserBack,
    /// Browser Forward key
    BrowserForward,
    /// Browser Refresh key
    BrowserRefresh,
    /// Browser Stop key
    BrowserStop,
    /// Browser Search key
    BrowserSearch,
    /// Browser Favorites key
    BrowserFavorites,
    /// Browser Start and Home key
    BrowserHome,
    /// Volume Mute key
    VolumeMute,
    /// Volume Down key
    VolumeDown,
    /// Volume Up key
    VolumeUp,
    /// Media Next Track key
    MediaNextTrack,
    /// Media Previous Track key
    MediaPrevTrack,
    /// Media Stop key
    MediaStop,
    /// Media Play/Pause key
    MediaPlayPause,
    /// Start Mail key
    LaunchMail,
    /// Select Media key
    LaunchMediaSelect,
    /// Start Application 1 key
    LaunchApp1,
    /// Start Application 2 key
    LaunchApp2,
    /// It can vary by keyboard. For the US ANSI keyboard , the Semiсolon and Colon key
    OEM1,
    /// For any country/region, the Equals and Plus key
    OEMPlus,
    /// For any country/region, the Comma and Less Than key
    OEMComma,
    /// For any country/region, the Dash and Underscore key
    OEMMinus,
    /// For any country/region, the Period and Greater Than key
    OEMPeriod,
    /// It can vary by keyboard. For the US ANSI keyboard, the Forward Slash and Question Mark key
    OEM2,
    /// It can vary by keyboard. For the US ANSI keyboard, the Grave Accent and Tilde key
    OEM3,
    /// It can vary by keyboard. For the US ANSI keyboard, the Left Brace key
    OEM4,
    /// It can vary by keyboard. For the US ANSI keyboard, the Backslash and Pipe key
    OEM5,
    /// It can vary by keyboard. For the US ANSI keyboard, the Right Brace key
    OEM6,
    /// It can vary by keyboard. For the US ANSI keyboard, the Apostrophe and Double Quotation Mark key
    OEM7,
    /// It can vary by keyboard. For the Canadian CSA keyboard, the Right Ctrl key
    OEM8,
    /// It can vary by keyboard. For the European ISO keyboard, the Backslash and Pipe key
    OEM102,
    /// IME PROCESS key
    ProcessKey,
    /// Used to pass Unicode characters as if they were keystrokes. The VK_PACKET key is the low word of a 32-bit Virtual Key value used for non-keyboard input methods. For more information, see Remark in KEYBDINPUT, SendInput, WM_KEYDOWN, and WM_KEYUP
    Packet,
    /// Attn key
    Attn,
    /// CrSel key
    CrSel,
    /// ExSel key
    ExSel,
    /// Erase EOF key
    EraseEOF,
    /// Play key
    Play,
    /// Zoom key
    Zoom,
    /// Reserved
    NonName,
    /// PA1 key
    PA1,
    /// Clear key
    OEMClear,
}

impl VirtualKeyCode {
    /// The Windows virtual-key code of the key.
    pub open spec fn spec_code(self) -> u32 {
        match self {
            VirtualKeyCode::LeftButton => 0x01,
            VirtualKeyCode::RightButton => 0x02,
            VirtualKeyCode::Cancel => 0x03,
            VirtualKeyCode::MiddleButton => 0x04,
            VirtualKeyCode::XButton1 => 0x05,
            VirtualKeyCode::XButton2 => 0x06,
            VirtualKeyCode::Backspace => 0x08,
            VirtualKeyCode::Tab => 0x09,
            VirtualKeyCode::Clear => 0x0C,
            VirtualKeyCode::Enter => 0x0D,
            VirtualKeyCode::Shift => 0x10,
            VirtualKeyCode::Control => 0x11,
            VirtualKeyCode::Menu => 0x12,
            VirtualKeyCode::Pause => 0x13,
            VirtualKeyCode::CapsLock => 0x14,
            VirtualKeyCode::Kana => 0x15,
            VirtualKeyCode::ImeOn => 0x16,
            VirtualKeyCode::Junja => 0x17,
            VirtualKeyCode::Final => 0x18,
            VirtualKeyCode::Hanja => 0x19,
            VirtualKeyCode::ImeOff => 0x1A,
            VirtualKeyCode::Escape => 0x1B,
            VirtualKeyCode::Convert => 0x1C,
            VirtualKeyCode::Nonconvert => 0x1D,
            VirtualKeyCode::Accept => 0x1E,
            VirtualKeyCode::ModeChange => 0x1F,
            VirtualKeyCode::Space => 0x20,
            VirtualKeyCode::PageUp => 0x21,
            VirtualKeyCode::PageDown => 0x22,
            VirtualKeyCode::End => 0x23,
            VirtualKeyCode::Home => 0x24,
            VirtualKeyCode::Left => 0x25,
            VirtualKeyCode::Up => 0x26,
            VirtualKeyCode::Right => 0x27,
            VirtualKeyCode::Down => 0x28,
            VirtualKeyCode::Select => 0x29,
            VirtualKeyCode::Print => 0x2A,
            VirtualKeyCode::Execute => 0x2B,
            VirtualKeyCode::Snapshot => 0x2C,
            VirtualKeyCode::Insert => 0x2D,
            VirtualKeyCode::Delete => 0x2E,
            VirtualKeyCode::Help => 0x2F,
            VirtualKeyCode::Key0 => 0x30,
            VirtualKeyCode::Key1 => 0x31,
            VirtualKeyCode::Key2 => 0x32,
            VirtualKeyCode::Key3 => 0x33,
            VirtualKeyCode::Key4 => 0x34,
            VirtualKeyCode::Key5 => 0x35,
            VirtualKeyCode::Key6 => 0x36,
            VirtualKeyCode::Key7 => 0x37,
            VirtualKeyCode::Key8 => 0x38,
            VirtualKeyCode::Key9 => 0x39,
            VirtualKeyCode::KeyA => 0x41,
            VirtualKeyCode::KeyB => 0x42,
            VirtualKeyCode::KeyC => 0x43,
            VirtualKeyCode::KeyD => 0x44,
            VirtualKeyCode::KeyE => 0x45,
            VirtualKeyCode::KeyF => 0x46,
            VirtualKeyCode::KeyG => 0x47,
            VirtualKeyCode::KeyH => 0x48,
            VirtualKeyCode::KeyI => 0x49,
            VirtualKeyCode::KeyJ => 0x4A,
            VirtualKeyCode::KeyK => 0x4B,
            VirtualKeyCode::KeyL => 0x4C,
            VirtualKeyCode::KeyM => 0x4D,
            VirtualKeyCode::KeyN => 0x4E,
            VirtualKeyCode::KeyO => 0x4F,
            VirtualKeyCode::KeyP => 0x50,
            VirtualKeyCode::KeyQ => 0x51,
            VirtualKeyCode::KeyR => 0x52,
            VirtualKeyCode::KeyS => 0x53,
            VirtualKeyCode::KeyT => 0x54,
            VirtualKeyCode::KeyU => 0x55,
            VirtualKeyCode::KeyV => 0x56,
            VirtualKeyCode::KeyW => 0x57,
            VirtualKeyCode::KeyX => 0x58,
            VirtualKeyCode::KeyY => 0x59,
            VirtualKeyCode::KeyZ => 0x5A,
            VirtualKeyCode::LeftWin => 0x5B,
            VirtualKeyCode::RightWin => 0x5C,
            VirtualKeyCode::Apps => 0x5D,
            VirtualKeyCode::Sleep => 0x5F,
            VirtualKeyCode::Numpad0 => 0x60,
            VirtualKeyCode::Numpad1 => 0x61,
            VirtualKeyCode::Numpad2 => 0x62,
            VirtualKeyCode::Numpad3 => 0x63,
            VirtualKeyCode::Numpad4 => 0x64,
            VirtualKeyCode::Numpad5 => 0x65,
            VirtualKeyCode::Numpad6 => 0x66,
            VirtualKeyCode::Numpad7 => 0x67,
            VirtualKeyCode::Numpad8 => 0x68,
            VirtualKeyCode::Numpad9 => 0x69,
            VirtualKeyCode::Multiply => 0x6A,
            VirtualKeyCode::Add => 0x6B,
            VirtualKeyCode::Separator => 0x6C,
            VirtualKeyCode::Subtract => 0x6D,
            VirtualKeyCode::Decimal => 0x6E,
            VirtualKeyCode::Divide => 0x6F,
            VirtualKeyCode::F1 => 0x70,
            VirtualKeyCode::F2 => 0x71,
            VirtualKeyCode::F3 => 0x72,
            VirtualKeyCode::F4 => 0x73,
            VirtualKeyCode::F5 => 0x74,
            VirtualKeyCode::F6 => 0x75,
            VirtualKeyCode::F7 => 0x76,
            VirtualKeyCode::F8 => 0x77,
            VirtualKeyCode::F9 => 0x78,
            VirtualKeyCode::F10 => 0x79,
            VirtualKeyCode::F11 => 0x7A,
            VirtualKeyCode::F12 => 0x7B,
            VirtualKeyCode::F13 => 0x7C,
            VirtualKeyCode::F14 => 0x7D,
            VirtualKeyCode::F15 => 0x7E,
            VirtualKeyCode::F16 => 0x7F,
            VirtualKeyCode::F17 => 0x80,
            VirtualKeyCode::F18 => 0x81,
            VirtualKeyCode::F19 => 0x82,
            VirtualKeyCode::F20 => 0x83,
            VirtualKeyCode::F21 => 0x84,
            VirtualKeyCode::F22 => 0x85,
            VirtualKeyCode::F23 => 0x86,
            VirtualKeyCode::F24 => 0x87,
            VirtualKeyCode::NumLock => 0x90,
            VirtualKeyCode::ScrollLock => 0x91,
            VirtualKeyCode::LeftShift => 0xA0,
            VirtualKeyCode::RightShift => 0xA1,
            VirtualKeyCode::LeftCtrl => 0xA2,
            VirtualKeyCode::RightCtrl => 0xA3,
            VirtualKeyCode::LeftAlt => 0xA4,
            VirtualKeyCode::RightAlt => 0xA5,
            VirtualKeyCode::BrowserBack => 0xA6,
            VirtualKeyCode::BrowserForward => 0xA7,
            VirtualKeyCode::BrowserRefresh => 0xA8,
            VirtualKeyCode::BrowserStop => 0xA9,
            VirtualKeyCode::BrowserSearch => 0xAA,
            VirtualKeyCode::BrowserFavorites => 0xAB,
            VirtualKeyCode::BrowserHome => 0xAC,
            VirtualKeyCode::VolumeMute => 0xAD,
            VirtualKeyCode::VolumeDown => 0xAE,
            VirtualKeyCode::VolumeUp => 0xAF,
            VirtualKeyCode::MediaNextTrack => 0xB0,
            VirtualKeyCode::MediaPrevTrack => 0xB1,
            VirtualKeyCode::MediaStop => 0xB2,
            VirtualKeyCode::MediaPlayPause => 0xB3,
            VirtualKeyCode::LaunchMail => 0xB4,
            VirtualKeyCode::LaunchMediaSelect => 0xB5,
            VirtualKeyCode::LaunchApp1 => 0xB6,
            VirtualKeyCode::LaunchApp2 => 0xB7,
            VirtualKeyCode::OEM1 => 0xBA,
            VirtualKeyCode::OEMPlus => 0xBB,
            VirtualKeyCode::OEMComma => 0xBC,
            VirtualKeyCode::OEMMinus => 0xBD,
            VirtualKeyCode::OEMPeriod => 0xBE,
            VirtualKeyCode::OEM2 => 0xBF,
            VirtualKeyCode::OEM3 => 0xC0,
            VirtualKeyCode::OEM4 => 0xDB,
            VirtualKeyCode::OEM5 => 0xDC,
            VirtualKeyCode::OEM6 => 0xDD,
            VirtualKeyCode::OEM7 => 0xDE,
            VirtualKeyCode::OEM8 => 0xDF,
            VirtualKeyCode::OEM102 => 0xE2,
            VirtualKeyCode::ProcessKey => 0xE5,
            VirtualKeyCode::Packet => 0xE7,
            VirtualKeyCode::Attn => 0xF6,
            VirtualKeyCode::CrSel => 0xF7,
            VirtualKeyCode::ExSel => 0xF8,
            VirtualKeyCode::EraseEOF => 0xF9,
            VirtualKeyCode::Play => 0xFA,
            VirtualKeyCode::Zoom => 0xFB,
            VirtualKeyCode::NonName => 0xFC,
            VirtualKeyCode::PA1 => 0xFD,
            VirtualKeyCode::OEMClear => 0xFE,
        }
    }

    /// The key that has the virtual-key code `code`, if any.
    pub open spec fn spec_from_code(code: u32) -> Option<Self> {
        if code == 0x01 {
            Some(VirtualKeyCode::LeftButton)
        } else if code == 0x02 {
            Some(VirtualKeyCode::RightButton)
        } else if code == 0x03 {
            Some(VirtualKeyCode::Cancel)
        } else if code == 0x04 {
            Some(VirtualKeyCode::MiddleButton)
        } else if code == 0x05 {
            Some(VirtualKeyCode::XButton1)
        } else if code == 0x06 {
            Some(VirtualKeyCode::XButton2)
        } else if code == 0x08 {
            Some(VirtualKeyCode::Backspace)
        } else if code == 0x09 {
            Some(VirtualKeyCode::Tab)
        } else if code == 0x0C {
            Some(VirtualKeyCode::Clear)
        } else if code == 0x0D {
            Some(VirtualKeyCode::Enter)
        } else if code == 0x10 {
            Some(VirtualKeyCode::Shift)
        } else if code == 0x11 {
            Some(VirtualKeyCode::Control)
        } else if code == 0x12 {
            Some(VirtualKeyCode::Menu)
        } else if code == 0x13 {
            Some(VirtualKeyCode::Pause)
        } else if code == 0x14 {
            Some(VirtualKeyCode::CapsLock)
        } else if code == 0x15 {
            Some(VirtualKeyCode::Kana)
        } else if code == 0x16 {
            Some(VirtualKeyCode::ImeOn)
        } else if code == 0x17 {
            Some(VirtualKeyCode::Junja)
        } else if code == 0x18 {
            Some(VirtualKeyCode::Final)
        } else if code == 0x19 {
            Some(VirtualKeyCode::Hanja)
        } else if code == 0x1A {
            Some(VirtualKeyCode::ImeOff)
        } else if code == 0x1B {
            Some(VirtualKeyCode::Escape)
        } else if code == 0x1C {
            Some(VirtualKeyCode::Convert)
        } else if code == 0x1D {
            Some(VirtualKeyCode::Nonconvert)
        } else if code == 0x1E {
            Some(VirtualKeyCode::Accept)
        } else if code == 0x1F {
            Some(VirtualKeyCode::ModeChange)
        } else if code == 0x20 {
            Some(VirtualKeyCode::Space)
        } else if code == 0x21 {
            Some(VirtualKeyCode::PageUp)
        } else if code == 0x22 {
            Some(VirtualKeyCode::PageDown)
        } else if code == 0x23 {
            Some(VirtualKeyCode::End)
        } else if code == 0x24 {
            Some(VirtualKeyCode::Home)
        } else if code == 0x25 {
            Some(VirtualKeyCode::Left)
        } else if code == 0x26 {
            Some(VirtualKeyCode::Up)
        } else if code == 0x27 {
            Some(VirtualKeyCode::Right)
        } else if code == 0x28 {
            Some(VirtualKeyCode::Down)
        } else if code == 0x29 {
            Some(VirtualKeyCode::Select)
        } else if code == 0x2A {
            Some(VirtualKeyCode::Print)
        } else if code == 0x2B {
            Some(VirtualKeyCode::Execute)
        } else if code == 0x2C {
            Some(VirtualKeyCode::Snapshot)
        } else if code == 0x2D {
            Some(VirtualKeyCode::Insert)
        } else if code == 0x2E {
            Some(VirtualKeyCode::Delete)
        } else if code == 0x2F {
            Some(VirtualKeyCode::Help)
        } else if code == 0x30 {
            Some(VirtualKeyCode::Key0)
        } else if code == 0x31 {
            Some(VirtualKeyCode::Key1)
        } else if code == 0x32 {
            Some(VirtualKeyCode::Key2)
        } else if code == 0x33 {
            Some(VirtualKeyCode::Key3)
        } else if code == 0x34 {
            Some(VirtualKeyCode::Key4)
        } else if code == 0x35 {
            Some(VirtualKeyCode::Key5)
        } else if code == 0x36 {
            Some(VirtualKeyCode::Key6)
        } else if code == 0x37 {
            Some(VirtualKeyCode::Key7)
        } else if code == 0x38 {
            Some(VirtualKeyCode::Key8)
        } else if code == 0x39 {
            Some(VirtualKeyCode::Key9)
        } else if code == 0x41 {
            Some(VirtualKeyCode::KeyA)
        } else if code == 0x42 {
            Some(VirtualKeyCode::KeyB)
        } else if code == 0x43 {
            Some(VirtualKeyCode::KeyC)
        } else if code == 0x44 {
            Some(VirtualKeyCode::KeyD)
        } else if code == 0x45 {
            Some(VirtualKeyCode::KeyE)
        } else if code == 0x46 {
            Some(VirtualKeyCode::KeyF)
        } else if code == 0x47 {
            Some(VirtualKeyCode::KeyG)
        } else if code == 0x48 {
            Some(VirtualKeyCode::KeyH)
        } else if code == 0x49 {
            Some(VirtualKeyCode::KeyI)
        } else if code == 0x4A {
            Some(VirtualKeyCode::KeyJ)
        } else if code == 0x4B {
            Some(VirtualKeyCode::KeyK)
        } else if code == 0x4C {
            Some(VirtualKeyCode::KeyL)
        } else if code == 0x4D {
            Some(VirtualKeyCode::KeyM)
        } else if code == 0x4E {
            Some(VirtualKeyCode::KeyN)
        } else if code == 0x4F {
            Some(VirtualKeyCode::KeyO)
        } else if code == 0x50 {
            Some(VirtualKeyCode::KeyP)
        } else if code == 0x51 {
            Some(VirtualKeyCode::KeyQ)
        } else if code == 0x52 {
            Some(VirtualKeyCode::KeyR)
        } else if code == 0x53 {
            Some(VirtualKeyCode::KeyS)
        } else if code == 0x54 {
            Some(VirtualKeyCode::KeyT)
        } else if code == 0x55 {
            Some(VirtualKeyCode::KeyU)
        } else if code == 0x56 {
            Some(VirtualKeyCode::KeyV)
        } else if code == 0x57 {
            Some(VirtualKeyCode::KeyW)
        } else if code == 0x58 {
            Some(VirtualKeyCode::KeyX)
        } else if code == 0x59 {
            Some(VirtualKeyCode::KeyY)
        } else if code == 0x5A {
            Some(VirtualKeyCode::KeyZ)
        } else if code == 0x5B {
            Some(VirtualKeyCode::LeftWin)
        } else if code == 0x5C {
            Some(VirtualKeyCode::RightWin)
        } else if code == 0x5D {
            Some(VirtualKeyCode::Apps)
        } else if code == 0x5F {
            Some(VirtualKeyCode::Sleep)
        } else if code == 0x60 {
            Some(VirtualKeyCode::Numpad0)
        } else if code == 0x61 {
            Some(VirtualKeyCode::Numpad1)
        } else if code == 0x62 {
            Some(VirtualKeyCode::Numpad2)
        } else if code == 0x63 {
            Some(VirtualKeyCode::Numpad3)
        } else if code == 0x64 {
            Some(VirtualKeyCode::Numpad4)
        } else if code == 0x65 {
            Some(VirtualKeyCode::Numpad5)
        } else if code == 0x66 {
            Some(VirtualKeyCode::Numpad6)
        } else if code == 0x67 {
            Some(VirtualKeyCode::Numpad7)
        } else if code == 0x68 {
            Some(VirtualKeyCode::Numpad8)
        } else if code == 0x69 {
            Some(VirtualKeyCode::Numpad9)
        } else if code == 0x6A {
            Some(VirtualKeyCode::Multiply)
        } else if code == 0x6B {
            Some(VirtualKeyCode::Add)
        } else if code == 0x6C {
            Some(VirtualKeyCode::Separator)
        } else if code == 0x6D {
            Some(VirtualKeyCode::Subtract)
        } else if code == 0x6E {
            Some(VirtualKeyCode::Decimal)
        } else if code == 0x6F {
            Some(VirtualKeyCode::Divide)
        } else if code == 0x70 {
            Some(VirtualKeyCode::F1)
        } else if code == 0x71 {
            Some(VirtualKeyCode::F2)
        } else if code == 0x72 {
            Some(VirtualKeyCode::F3)
        } else if code == 0x73 {
            Some(VirtualKeyCode::F4)
        } else if code == 0x74 {
            Some(VirtualKeyCode::F5)
        } else if code == 0x75 {
            Some(VirtualKeyCode::F6)
        } else if code == 0x76 {
            Some(VirtualKeyCode::F7)
        } else if code == 0x77 {
            Some(VirtualKeyCode::F8)
        } else if code == 0x78 {
            Some(VirtualKeyCode::F9)
        } else if code == 0x79 {
            Some(VirtualKeyCode::F10)
        } else if code == 0x7A {
            Some(VirtualKeyCode::F11)
        } else if code == 0x7B {
            Some(VirtualKeyCode::F12)
        } else if code == 0x7C {
            Some(VirtualKeyCode::F13)
        } else if code == 0x7D {
            Some(VirtualKeyCode::F14)
        } else if code == 0x7E {
            Some(VirtualKeyCode::F15)
        } else if code == 0x7F {
            Some(VirtualKeyCode::F16)
        } else if code == 0x80 {
            Some(VirtualKeyCode::F17)
        } else if code == 0x81 {
            Some(VirtualKeyCode::F18)
        } else if code == 0x82 {
            Some(VirtualKeyCode::F19)
        } else if code == 0x83 {
            Some(VirtualKeyCode::F20)
        } else if code == 0x84 {
            Some(VirtualKeyCode::F21)
        } else if code == 0x85 {
            Some(VirtualKeyCode::F22)
        } else if code == 0x86 {
            Some(VirtualKeyCode::F23)
        } else if code == 0x87 {
            Some(VirtualKeyCode::F24)
        } else if code == 0x90 {
            Some(VirtualKeyCode::NumLock)
        } else if code == 0x91 {
            Some(VirtualKeyCode::ScrollLock)
        } else if code == 0xA0 {
            Some(VirtualKeyCode::LeftShift)
        } else if code == 0xA1 {
            Some(VirtualKeyCode::RightShift)
        } else if code == 0xA2 {
            Some(VirtualKeyCode::LeftCtrl)
        } else if code == 0xA3 {
            Some(VirtualKeyCode::RightCtrl)
        } else if code == 0xA4 {
            Some(VirtualKeyCode::LeftAlt)
        } else if code == 0xA5 {
            Some(VirtualKeyCode::RightAlt)
        } else if code == 0xA6 {
            Some(VirtualKeyCode::BrowserBack)
        } else if code == 0xA7 {
            Some(VirtualKeyCode::BrowserForward)
        } else if code == 0xA8 {
            Some(VirtualKeyCode::BrowserRefresh)
        } else if code == 0xA9 {
            Some(VirtualKeyCode::BrowserStop)
        } else if code == 0xAA {
            Some(VirtualKeyCode::BrowserSearch)
        } else if code == 0xAB {
            Some(VirtualKeyCode::BrowserFavorites)
        } else if code == 0xAC {
            Some(VirtualKeyCode::BrowserHome)
        } else if code == 0xAD {
            Some(VirtualKeyCode::VolumeMute)
        } else if code == 0xAE {
            Some(VirtualKeyCode::VolumeDown)
        } else if code == 0xAF {
            Some(VirtualKeyCode::VolumeUp)
        } else if code == 0xB0 {
            Some(VirtualKeyCode::MediaNextTrack)
        } else if code == 0xB1 {
            Some(VirtualKeyCode::MediaPrevTrack)
        } else if code == 0xB2 {
            Some(VirtualKeyCode::MediaStop)
        } else if code == 0xB3 {
            Some(VirtualKeyCode::MediaPlayPause)
        } else if code == 0xB4 {
            Some(VirtualKeyCode::LaunchMail)
        } else if code == 0xB5 {
            Some(VirtualKeyCode::LaunchMediaSelect)
        } else if code == 0xB6 {
            Some(VirtualKeyCode::LaunchApp1)
        } else if code == 0xB7 {
            Some(VirtualKeyCode::LaunchApp2)
        } else if code == 0xBA {
            Some(VirtualKeyCode::OEM1)
        } else if code == 0xBB {
            Some(VirtualKeyCode::OEMPlus)
        } else if code == 0xBC {
            Some(VirtualKeyCode::OEMComma)
        } else if code == 0xBD {
            Some(VirtualKeyCode::OEMMinus)
        } else if code == 0xBE {
            Some(VirtualKeyCode::OEMPeriod)
        } else if code == 0xBF {
            Some(VirtualKeyCode::OEM2)
        } else if code == 0xC0 {
            Some(VirtualKeyCode::OEM3)
        } else if code == 0xDB {
            Some(VirtualKeyCode::OEM4)
        } else if code == 0xDC {
            Some(VirtualKeyCode::OEM5)
        } else if code == 0xDD {
            Some(VirtualKeyCode::OEM6)
        } else if code == 0xDE {
            Some(VirtualKeyCode::OEM7)
        } else if code == 0xDF {
            Some(VirtualKeyCode::OEM8)
        } else if code == 0xE2 {
            Some(VirtualKeyCode::OEM102)
        } else if code == 0xE5 {
            Some(VirtualKeyCode::ProcessKey)
        } else if code == 0xE7 {
            Some(VirtualKeyCode::Packet)
        } else if code == 0xF6 {
            Some(VirtualKeyCode::Attn)
        } else if code == 0xF7 {
            Some(VirtualKeyCode::CrSel)
        } else if code == 0xF8 {
            Some(VirtualKeyCode::ExSel)
        } else if code == 0xF9 {
            Some(VirtualKeyCode::EraseEOF)
        } else if code == 0xFA {
            Some(VirtualKeyCode::Play)
        } else if code == 0xFB {
            Some(VirtualKeyCode::Zoom)
        } else if code == 0xFC {
            Some(VirtualKeyCode::NonName)
        } else if code == 0xFD {
            Some(VirtualKeyCode::PA1)
        } else if code == 0xFE {
            Some(VirtualKeyCode::OEMClear)
        } else {
            None
        }
    }

    /// The Windows virtual-key code of the key.
    pub fn code(self) -> (r: u32)
        ensures
            r == self.spec_code(),
    {
        match self {
            VirtualKeyCode::LeftButton => 0x01,
            VirtualKeyCode::RightButton => 0x02,
            VirtualKeyCode::Cancel => 0x03,
            VirtualKeyCode::MiddleButton => 0x04,
            VirtualKeyCode::XButton1 => 0x05,
            VirtualKeyCode::XButton2 => 0x06,
            VirtualKeyCode::Backspace => 0x08,
            VirtualKeyCode::Tab => 0x09,
            VirtualKeyCode::Clear => 0x0C,
            VirtualKeyCode::Enter => 0x0D,
            VirtualKeyCode::Shift => 0x10,
            VirtualKeyCode::Control => 0x11,
            VirtualKeyCode::Menu => 0x12,
            VirtualKeyCode::Pause => 0x13,
            VirtualKeyCode::CapsLock => 0x14,
            VirtualKeyCode::Kana => 0x15,
            VirtualKeyCode::ImeOn => 0x16,
            VirtualKeyCode::Junja => 0x17,
            VirtualKeyCode::Final => 0x18,
            VirtualKeyCode::Hanja => 0x19,
            VirtualKeyCode::ImeOff => 0x1A,
            VirtualKeyCode::Escape => 0x1B,
            VirtualKeyCode::Convert => 0x1C,
            VirtualKeyCode::Nonconvert => 0x1D,
            VirtualKeyCode::Accept => 0x1E,
            VirtualKeyCode::ModeChange => 0x1F,
            VirtualKeyCode::Space => 0x20,
            VirtualKeyCode::PageUp => 0x21,
            VirtualKeyCode::PageDown => 0x22,
            VirtualKeyCode::End => 0x23,
            VirtualKeyCode::Home => 0x24,
            VirtualKeyCode::Left => 0x25,
            VirtualKeyCode::Up => 0x26,
            VirtualKeyCode::Right => 0x27,
            VirtualKeyCode::Down => 0x28,
            VirtualKeyCode::Select => 0x29,
            VirtualKeyCode::Print => 0x2A,
            VirtualKeyCode::Execute => 0x2B,
            VirtualKeyCode::Snapshot => 0x2C,
            VirtualKeyCode::Insert => 0x2D,
            VirtualKeyCode::Delete => 0x2E,
            VirtualKeyCode::Help => 0x2F,
            VirtualKeyCode::Key0 => 0x30,
            VirtualKeyCode::Key1 => 0x31,
            VirtualKeyCode::Key2 => 0x32,
            VirtualKeyCode::Key3 => 0x33,
            VirtualKeyCode::Key4 => 0x34,
            VirtualKeyCode::Key5 => 0x35,
            VirtualKeyCode::Key6 => 0x36,
            VirtualKeyCode::Key7 => 0x37,
            VirtualKeyCode::Key8 => 0x38,
            VirtualKeyCode::Key9 => 0x39,
            VirtualKeyCode::KeyA => 0x41,
            VirtualKeyCode::KeyB => 0x42,
            VirtualKeyCode::KeyC => 0x43,
            VirtualKeyCode::KeyD => 0x44,
            VirtualKeyCode::KeyE => 0x45,
            VirtualKeyCode::KeyF => 0x46,
            VirtualKeyCode::KeyG => 0x47,
            VirtualKeyCode::KeyH => 0x48,
            VirtualKeyCode::KeyI => 0x49,
            VirtualKeyCode::KeyJ => 0x4A,
            VirtualKeyCode::KeyK => 0x4B,
            VirtualKeyCode::KeyL => 0x4C,
            VirtualKeyCode::KeyM => 0x4D,
            VirtualKeyCode::KeyN => 0x4E,
            VirtualKeyCode::KeyO => 0x4F,
            VirtualKeyCode::KeyP => 0x50,
            VirtualKeyCode::KeyQ => 0x51,
            VirtualKeyCode::KeyR => 0x52,
            VirtualKeyCode::KeyS => 0x53,
            VirtualKeyCode::KeyT => 0x54,
            VirtualKeyCode::KeyU => 0x55,
            VirtualKeyCode::KeyV => 0x56,
            VirtualKeyCode::KeyW => 0x57,
            VirtualKeyCode::KeyX => 0x58,
            VirtualKeyCode::KeyY => 0x59,
            VirtualKeyCode::KeyZ => 0x5A,
            VirtualKeyCode::LeftWin => 0x5B,
            VirtualKeyCode::RightWin => 0x5C,
            VirtualKeyCode::Apps => 0x5D,
            VirtualKeyCode::Sleep => 0x5F,
            VirtualKeyCode::Numpad0 => 0x60,
            VirtualKeyCode::Numpad1 => 0x61,
            VirtualKeyCode::Numpad2 => 0x62,
            VirtualKeyCode::Numpad3 => 0x63,
            VirtualKeyCode::Numpad4 => 0x64,
            VirtualKeyCode::Numpad5 => 0x65,
            VirtualKeyCode::Numpad6 => 0x66,
            VirtualKeyCode::Numpad7 => 0x67,
            VirtualKeyCode::Numpad8 => 0x68,
            VirtualKeyCode::Numpad9 => 0x69,
            VirtualKeyCode::Multiply => 0x6A,
            VirtualKeyCode::Add => 0x6B,
            VirtualKeyCode::Separator => 0x6C,
            VirtualKeyCode::Subtract => 0x6D,
            VirtualKeyCode::Decimal => 0x6E,
            VirtualKeyCode::Divide => 0x6F,
            VirtualKeyCode::F1 => 0x70,
            VirtualKeyCode::F2 => 0x71,
            VirtualKeyCode::F3 => 0x72,
            VirtualKeyCode::F4 => 0x73,
            VirtualKeyCode::F5 => 0x74,
            VirtualKeyCode::F6 => 0x75,
            VirtualKeyCode::F7 => 0x76,
            VirtualKeyCode::F8 => 0x77,
            VirtualKeyCode::F9 => 0x78,
            VirtualKeyCode::F10 => 0x79,
            VirtualKeyCode::F11 => 0x7A,
            VirtualKeyCode::F12 => 0x7B,
            VirtualKeyCode::F13 => 0x7C,
            VirtualKeyCode::F14 => 0x7D,
            VirtualKeyCode::F15 => 0x7E,
            VirtualKeyCode::F16 => 0x7F,
            VirtualKeyCode::F17 => 0x80,
            VirtualKeyCode::F18 => 0x81,
            VirtualKeyCode::F19 => 0x82,
            VirtualKeyCode::F20 => 0x83,
            VirtualKeyCode::F21 => 0x84,
            VirtualKeyCode::F22 => 0x85,
            VirtualKeyCode::F23 => 0x86,
            VirtualKeyCode::F24 => 0x87,
            VirtualKeyCode::NumLock => 0x90,
            VirtualKeyCode::ScrollLock => 0x91,
            VirtualKeyCode::LeftShift => 0xA0,
            VirtualKeyCode::RightShift => 0xA1,
            VirtualKeyCode::LeftCtrl => 0xA2,
            VirtualKeyCode::RightCtrl => 0xA3,
            VirtualKeyCode::LeftAlt => 0xA4,
            VirtualKeyCode::RightAlt => 0xA5,
            VirtualKeyCode::BrowserBack => 0xA6,
            VirtualKeyCode::BrowserForward => 0xA7,
            VirtualKeyCode::BrowserRefresh => 0xA8,
            VirtualKeyCode::BrowserStop => 0xA9,
            VirtualKeyCode::BrowserSearch => 0xAA,
            VirtualKeyCode::BrowserFavorites => 0xAB,
            VirtualKeyCode::BrowserHome => 0xAC,
            VirtualKeyCode::VolumeMute => 0xAD,
            VirtualKeyCode::VolumeDown => 0xAE,
            VirtualKeyCode::VolumeUp => 0xAF,
            VirtualKeyCode::MediaNextTrack => 0xB0,
            VirtualKeyCode::MediaPrevTrack => 0xB1,
            VirtualKeyCode::MediaStop => 0xB2,
            VirtualKeyCode::MediaPlayPause => 0xB3,
            VirtualKeyCode::LaunchMail => 0xB4,
            VirtualKeyCode::LaunchMediaSelect => 0xB5,
            VirtualKeyCode::LaunchApp1 => 0xB6,
            VirtualKeyCode::LaunchApp2 => 0xB7,
            VirtualKeyCode::OEM1 => 0xBA,
            VirtualKeyCode::OEMPlus => 0xBB,
            VirtualKeyCode::OEMComma => 0xBC,
            VirtualKeyCode::OEMMinus => 0xBD,
            VirtualKeyCode::OEMPeriod => 0xBE,
            VirtualKeyCode::OEM2 => 0xBF,
            VirtualKeyCode::OEM3 => 0xC0,
            VirtualKeyCode::OEM4 => 0xDB,
            VirtualKeyCode::OEM5 => 0xDC,
            VirtualKeyCode::OEM6 => 0xDD,
            VirtualKeyCode::OEM7 => 0xDE,
            VirtualKeyCode::OEM8 => 0xDF,
            VirtualKeyCode::OEM102 => 0xE2,
            VirtualKeyCode::ProcessKey => 0xE5,
            VirtualKeyCode::Packet => 0xE7,
            VirtualKeyCode::Attn => 0xF6,
            VirtualKeyCode::CrSel => 0xF7,
            VirtualKeyCode::ExSel => 0xF8,
            VirtualKeyCode::EraseEOF => 0xF9,
            VirtualKeyCode::Play => 0xFA,
            VirtualKeyCode::Zoom => 0xFB,
            VirtualKeyCode::NonName => 0xFC,
            VirtualKeyCode::PA1 => 0xFD,
            VirtualKeyCode::OEMClear => 0xFE,
        }
    }
}

/// Each key has its own virtual-key code: the code gives the key back.
pub proof fn lemma_virtual_key_code_round_trip(value: VirtualKeyCode)
    ensures
        VirtualKeyCode::spec_from_code(value.spec_code()) == Some(value),
{
}

/// Two keys with the same virtual-key code are the same key.
pub proof fn lemma_virtual_key_code_injective(a: VirtualKeyCode, b: VirtualKeyCode)
    requires
        a.spec_code() == b.spec_code(),
    ensures
        a == b,
{
    lemma_virtual_key_code_round_trip(a);
    lemma_virtual_key_code_round_trip(b);
}

/// The flag code handed to the engine for each keyboard flag.
pub proof fn lemma_keyboard_flags_engine_codes()
    ensures
        KeyboardFlags::Repeat.spec_code() == 0u32,
        KeyboardFlags::Extended.spec_code() == 1u32,
{
}

/// The virtual-key code of each key, as the Windows key table numbers it, and
/// no code names a key of another code.
pub proof fn lemma_virtual_key_engine_codes()
    ensures
        VirtualKeyCode::LeftButton.spec_code() == 0x01u32,
        VirtualKeyCode::RightButton.spec_code() == 0x02u32,
        VirtualKeyCode::Cancel.spec_code() == 0x03u32,
        VirtualKeyCode::MiddleButton.spec_code() == 0x04u32,
        VirtualKeyCode::XButton1.spec_code() == 0x05u32,
        VirtualKeyCode::XButton2.spec_code() == 0x06u32,
        VirtualKeyCode::Backspace.spec_code() == 0x08u32,
        VirtualKeyCode::Tab.spec_code() == 0x09u32,
        VirtualKeyCode::Clear.spec_code() == 0x0Cu32,
        VirtualKeyCode::Enter.spec_code() == 0x0Du32,
        VirtualKeyCode::Shift.spec_code() == 0x10u32,
        VirtualKeyCode::Control.spec_code() == 0x11u32,
        VirtualKeyCode::Menu.spec_code() == 0x12u32,
        VirtualKeyCode::Pause.spec_code() == 0x13u32,
        VirtualKeyCode::CapsLock.spec_code() == 0x14u32,
        VirtualKeyCode::Kana.spec_code() == 0x15u32,
        VirtualKeyCode::ImeOn.spec_code() == 0x16u32,
        VirtualKeyCode::Junja.spec_code() == 0x17u32,
        VirtualKeyCode::Final.spec_code() == 0x18u32,
        VirtualKeyCode::Hanja.spec_code() == 0x19u32,
        VirtualKeyCode::ImeOff.spec_code() == 0x1Au32,
        VirtualKeyCode::Escape.spec_code() == 0x1Bu32,
        VirtualKeyCode::Convert.spec_code() == 0x1Cu32,
        VirtualKeyCode::Nonconvert.spec_code() == 0x1Du32,
        VirtualKeyCode::Accept.spec_code() == 0x1Eu32,
        VirtualKeyCode::ModeChange.spec_code() == 0x1Fu32,
        VirtualKeyCode::Space.spec_code() == 0x20u32,
        VirtualKeyCode::PageUp.spec_code() == 0x21u32,
        VirtualKeyCode::PageDown.spec_code() == 0x22u32,
        VirtualKeyCode::End.spec_code() == 0x23u32,
        VirtualKeyCode::Home.spec_code() == 0x24u32,
        VirtualKeyCode::Left.spec_code() == 0x25u32,
        VirtualKeyCode::Up.spec_code() == 0x26u32,
        VirtualKeyCode::Right.spec_code() == 0x27u32,
        VirtualKeyCode::Down.spec_code() == 0x28u32,
        VirtualKeyCode::Select.spec_code() == 0x29u32,
        VirtualKeyCode::Print.spec_code() == 0x2Au32,
        VirtualKeyCode::Execute.spec_code() == 0x2Bu32,
        VirtualKeyCode::Snapshot.spec_code() == 0x2Cu32,
        VirtualKeyCode::Insert.spec_code() == 0x2Du32,
        VirtualKeyCode::Delete.spec_code() == 0x2Eu32,
        VirtualKeyCode::Help.spec_code() == 0x2Fu32,
        VirtualKeyCode::Key0.spec_code() == 0x30u32,
        VirtualKeyCode::Key1.spec_code() == 0x31u32,
        VirtualKeyCode::Key2.spec_code() == 0x32u32,
        VirtualKeyCode::Key3.spec_code() == 0x33u32,
        VirtualKeyCode::Key4.spec_code() == 0x34u32,
        VirtualKeyCode::Key5.spec_code() == 0x35u32,
        VirtualKeyCode::Key6.spec_code() == 0x36u32,
        VirtualKeyCode::Key7.spec_code() == 0x37u32,
        VirtualKeyCode::Key8.spec_code() == 0x38u32,
        VirtualKeyCode::Key9.spec_code() == 0x39u32,
        VirtualKeyCode::KeyA.spec_code() == 0x41u32,
        VirtualKeyCode::KeyB.spec_code() == 0x42u32,
        VirtualKeyCode::KeyC.spec_code() == 0x43u32,
        VirtualKeyCode::KeyD.spec_code() == 0x44u32,
        VirtualKeyCode::KeyE.spec_code() == 0x45u32,
        VirtualKeyCode::KeyF.spec_code() == 0x46u32,
        VirtualKeyCode::KeyG.spec_code() == 0x47u32,
        VirtualKeyCode::KeyH.spec_code() == 0x48u32,
        VirtualKeyCode::KeyI.spec_code() == 0x49u32,
        VirtualKeyCode::KeyJ.spec_code() == 0x4Au32,
        VirtualKeyCode::KeyK.spec_code() == 0x4Bu32,
        VirtualKeyCode::KeyL.spec_code() == 0x4Cu32,
        VirtualKeyCode::KeyM.spec_code() == 0x4Du32,
        VirtualKeyCode::KeyN.spec_code() == 0x4Eu32,
        VirtualKeyCode::KeyO.spec_code() == 0x4Fu32,
        VirtualKeyCode::KeyP.spec_code() == 0x50u32,
        VirtualKeyCode::KeyQ.spec_code() == 0x51u32,
        VirtualKeyCode::KeyR.spec_code() == 0x52u32,
        VirtualKeyCode::KeyS.spec_code() == 0x53u32,
        VirtualKeyCode::KeyT.spec_code() == 0x54u32,
        VirtualKeyCode::KeyU.spec_code() == 0x55u32,
        VirtualKeyCode::KeyV.spec_code() == 0x56u32,
        VirtualKeyCode::KeyW.spec_code() == 0x57u32,
        VirtualKeyCode::KeyX.spec_code() == 0x58u32,
        VirtualKeyCode::KeyY.spec_code() == 0x59u32,
        VirtualKeyCode::KeyZ.spec_code() == 0x5Au32,
        VirtualKeyCode::LeftWin.spec_code() == 0x5Bu32,
        VirtualKeyCode::RightWin.spec_code() == 0x5Cu32,
        VirtualKeyCode::Apps.spec_code() == 0x5Du32,
        VirtualKeyCode::Sleep.spec_code() == 0x5Fu32,
        VirtualKeyCode::Numpad0.spec_code() == 0x60u32,
        VirtualKeyCode::Numpad1.spec_code() == 0x61u32,
        VirtualKeyCode::Numpad2.spec_code() == 0x62u32,
        VirtualKeyCode::Numpad3.spec_code() == 0x63u32,
        VirtualKeyCode::Numpad4.spec_code() == 0x64u32,
        VirtualKeyCode::Numpad5.spec_code() == 0x65u32,
        VirtualKeyCode::Numpad6.spec_code() == 0x66u32,
        VirtualKeyCode::Numpad7.spec_code() == 0x67u32,
        VirtualKeyCode::Numpad8.spec_code() == 0x68u32,
        VirtualKeyCode::Numpad9.spec_code() == 0x69u32,
        VirtualKeyCode::Multiply.spec_code() == 0x6Au32,
        VirtualKeyCode::Add.spec_code() == 0x6Bu32,
        VirtualKeyCode::Separator.spec_code() == 0x6Cu32,
        VirtualKeyCode::Subtract.spec_code() == 0x6Du32,
        VirtualKeyCode::Decimal.spec_code() == 0x6Eu32,
        VirtualKeyCode::Divide.spec_code() == 0x6Fu32,
        VirtualKeyCode::F1.spec_code() == 0x70u32,
        VirtualKeyCode::F2.spec_code() == 0x71u32,
        VirtualKeyCode::F3.spec_code() == 0x72u32,
        VirtualKeyCode::F4.spec_code() == 0x73u32,
        VirtualKeyCode::F5.spec_code() == 0x74u32,
        VirtualKeyCode::F6.spec_code() == 0x75u32,
        VirtualKeyCode::F7.spec_code() == 0x76u32,
        VirtualKeyCode::F8.spec_code() == 0x77u32,
        VirtualKeyCode::F9.spec_code() == 0x78u32,
        VirtualKeyCode::F10.spec_code() == 0x79u32,
        VirtualKeyCode::F11.spec_code() == 0x7Au32,
        VirtualKeyCode::F12.spec_code() == 0x7Bu32,
        VirtualKeyCode::F13.spec_code() == 0x7Cu32,
        VirtualKeyCode::F14.spec_code() == 0x7Du32,
        VirtualKeyCode::F15.spec_code() == 0x7Eu32,
        VirtualKeyCode::F16.spec_code() == 0x7Fu32,
        VirtualKeyCode::F17.spec_code() == 0x80u32,
        VirtualKeyCode::F18.spec_code() == 0x81u32,
        VirtualKeyCode::F19.spec_code() == 0x82u32,
        VirtualKeyCode::F20.spec_code() == 0x83u32,
        VirtualKeyCode::F21.spec_code() == 0x84u32,
        VirtualKeyCode::F22.spec_code() == 0x85u32,
        VirtualKeyCode::F23.spec_code() == 0x86u32,
        VirtualKeyCode::F24.spec_code() == 0x87u32,
        VirtualKeyCode::NumLock.spec_code() == 0x90u32,
        VirtualKeyCode::ScrollLock.spec_code() == 0x91u32,
        VirtualKeyCode::LeftShift.spec_code() == 0xA0u32,
        VirtualKeyCode::RightShift.spec_code() == 0xA1u32,
        VirtualKeyCode::LeftCtrl.spec_code() == 0xA2u32,
        VirtualKeyCode::RightCtrl.spec_code() == 0xA3u32,
        VirtualKeyCode::LeftAlt.spec_code() == 0xA4u32,
        VirtualKeyCode::RightAlt.spec_code() == 0xA5u32,
        VirtualKeyCode::BrowserBack.spec_code() == 0xA6u32,
        VirtualKeyCode::BrowserForward.spec_code() == 0xA7u32,
        VirtualKeyCode::BrowserRefresh.spec_code() == 0xA8u32,
        VirtualKeyCode::BrowserStop.spec_code() == 0xA9u32,
        VirtualKeyCode::BrowserSearch.spec_code() == 0xAAu32,
        VirtualKeyCode::BrowserFavorites.spec_code() == 0xABu32,
        VirtualKeyCode::BrowserHome.spec_code() == 0xACu32,
        VirtualKeyCode::VolumeMute.spec_code() == 0xADu32,
        VirtualKeyCode::VolumeDown.spec_code() == 0xAEu32,
        VirtualKeyCode::VolumeUp.spec_code() == 0xAFu32,
        VirtualKeyCode::MediaNextTrack.spec_code() == 0xB0u32,
        VirtualKeyCode::MediaPrevTrack.spec_code() == 0xB1u32,
        VirtualKeyCode::MediaStop.spec_code() == 0xB2u32,
        VirtualKeyCode::MediaPlayPause.spec_code() == 0xB3u32,
        VirtualKeyCode::LaunchMail.spec_code() == 0xB4u32,
        VirtualKeyCode::LaunchMediaSelect.spec_code() == 0xB5u32,
        VirtualKeyCode::LaunchApp1.spec_code() == 0xB6u32,
        VirtualKeyCode::LaunchApp2.spec_code() == 0xB7u32,
        VirtualKeyCode::OEM1.spec_code() == 0xBAu32,
        VirtualKeyCode::OEMPlus.spec_code() == 0xBBu32,
        VirtualKeyCode::OEMComma.spec_code() == 0xBCu32,
        VirtualKeyCode::OEMMinus.spec_code() == 0xBDu32,
        VirtualKeyCode::OEMPeriod.spec_code() == 0xBEu32,
        VirtualKeyCode::OEM2.spec_code() == 0xBFu32,
        VirtualKeyCode::OEM3.spec_code() == 0xC0u32,
        VirtualKeyCode::OEM4.spec_code() == 0xDBu32,
        VirtualKeyCode::OEM5.spec_code() == 0xDCu32,
        VirtualKeyCode::OEM6.spec_code() == 0xDDu32,
        VirtualKeyCode::OEM7.spec_code() == 0xDEu32,
        VirtualKeyCode::OEM8.spec_code() == 0xDFu32,
        VirtualKeyCode::OEM102.spec_code() == 0xE2u32,
        VirtualKeyCode::ProcessKey.spec_code() == 0xE5u32,
        VirtualKeyCode::Packet.spec_code() == 0xE7u32,
        VirtualKeyCode::Attn.spec_code() == 0xF6u32,
        VirtualKeyCode::CrSel.spec_code() == 0xF7u32,
        VirtualKeyCode::ExSel.spec_code() == 0xF8u32,
        VirtualKeyCode::EraseEOF.spec_code() == 0xF9u32,
        VirtualKeyCode::Play.spec_code() == 0xFAu32,
        VirtualKeyCode::Zoom.spec_code() == 0xFBu32,
        VirtualKeyCode::NonName.spec_code() == 0xFCu32,
        VirtualKeyCode::PA1.spec_code() == 0xFDu32,
        VirtualKeyCode::OEMClear.spec_code() == 0xFEu32,
        forall|c: u32| #[trigger] VirtualKeyCode::spec_from_code(c) matches Some(v) ==> v.spec_code() == c,
{
}

} // verus!
