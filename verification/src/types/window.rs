use vstd::prelude::*;

verus! {

/// Window Type.
#[derive(Debug, Copy, Clone, Hash, PartialEq, Eq)]
pub enum WindowType {
    /// Popup type
    Popup,
    /// Transparent type. Achieved using layer window.
    Transparent,
    /// Control type. Create window as child window. Requied parent.
    Control,
}

impl WindowType {
    /// The window type code handed to the engine.
    pub open spec fn spec_code(self) -> i32 {
        match self {
            WindowType::Popup => 0,
            WindowType::Transparent => 1,
            WindowType::Control => 2,
        }
    }

    /// The window type code handed to the engine.
    pub fn code(self) -> (r: i32)
        ensures
            r == self.spec_code(),
    {
        match self {
            WindowType::Popup => 0,
            WindowType::Transparent => 1,
            WindowType::Control => 2,
        }
    }
}

/// The window features in the C layout that the engine hands over: integers,
/// with a nonzero one meaning `true` for the flags.
#[derive(Debug, Copy, Clone)]
pub struct RawWindowFeatures {
    /// The x position.
    pub x: i32,
    /// The y position.
    pub y: i32,
    /// The width.
    pub width: i32,
    /// The height.
    pub height: i32,
    /// Whether the menu bar is visible.
    pub menu_bar_visible: i32,
    /// Whether the status bar is visible.
    pub status_bar_visible: i32,
    /// Whether the tool bar is visible.
    pub tool_bar_visible: i32,
    /// Whether the location bar is visible.
    pub location_bar_visible: i32,
    /// Whether the scroll bars are visible.
    pub scrollbars_visible: i32,
    /// Whether the window is resizable.
    pub resizable: i32,
    /// Whether the window is fullscreen.
    pub fullscreen: i32,
}

/// The window features.
#[derive(Debug, Copy, Clone)]
pub struct WindowFeatures {
    /// The x position.
    pub x: i32,
    /// The y position.
    pub y: i32,
    /// The width.
    pub width: i32,
    /// The height.
    pub height: i32,
    /// Whether the menu bar is visible.
    pub menu_bar_visible: bool,
    /// Whether the status bar is visible.
    pub status_bar_visible: bool,
    /// Whether the tool bar is visible.
    pub tool_bar_visible: bool,
    /// Whether the location bar is visible.
    pub location_bar_visible: bool,
    /// Whether the scroll bars are visible.
    pub scroll_bars_visible: bool,
    /// Whether the window is resizable.
    pub resizable: bool,
    /// Whether the window is fullscreen.
    pub fullscreen: bool,
}

impl WindowFeatures {
    /// The features read from what the engine hands over: the geometry as it is,
    /// each flag set exactly when its integer is nonzero.
    pub open spec fn spec_from_raw(features: RawWindowFeatures) -> Self {
        WindowFeatures {
            x: features.x,
            y: features.y,
            width: features.width,
            height: features.height,
            menu_bar_visible: features.menu_bar_visible != 0,
            status_bar_visible: features.status_bar_visible != 0,
            tool_bar_visible: features.tool_bar_visible != 0,
            location_bar_visible: features.location_bar_visible != 0,
            scroll_bars_visible: features.scrollbars_visible != 0,
            resizable: features.resizable != 0,
            fullscreen: features.fullscreen != 0,
        }
    }

    /// Reads the features that the engine hands over: the geometry as it is,
    /// each flag set exactly when its integer is nonzero.
    pub fn from_mb_window_features(features: &RawWindowFeatures) -> (r: Self)
        ensures
            r.x == features.x,
            r.y == features.y,
            r.width == features.width,
            r.height == features.height,
            r.menu_bar_visible == (features.menu_bar_visible != 0),
            r.status_bar_visible == (features.status_bar_visible != 0),
            r.tool_bar_visible == (features.tool_bar_visible != 0),
            r.location_bar_visible == (features.location_bar_visible != 0),
            r.scroll_bars_visible == (features.scrollbars_visible != 0),
            r.resizable == (features.resizable != 0),
            r.fullscreen == (features.fullscreen != 0),
            r == Self::spec_from_raw(*features),
    {
        Self {
            x: features.x,
            y: features.y,
            width: features.width,
            height: features.height,
            menu_bar_visible: features.menu_bar_visible != 0,
            status_bar_visible: features.status_bar_visible != 0,
            tool_bar_visible: features.tool_bar_visible != 0,
            location_bar_visible: features.location_bar_visible != 0,
            scroll_bars_visible: features.scrollbars_visible != 0,
            resizable: features.resizable != 0,
            fullscreen: features.fullscreen != 0,
        }
    }
}

/// The windows message.
#[derive(Debug, Copy, Clone, Hash, PartialEq, Eq)]
pub enum WindowMessage {
    Null,
    GetMinMaxInfo,
    Move,
    Timer,
    Paint,
    Close,
    LeftButtonUp,
    MouseMove,
    MiddleButtonUp,
    RightButtonUp,
    SetCursor,
    LeftButtonDown,
    ImeChar,
    SystemCommand,
    MouseLeave,
    NonClientMouseMove,
    NonClientMouseHover,
    NonClientHitTest,
    MiddleButtonDown,
    RightButtonDown,
    LeftButtonDoubleClick,
    Command,
    ExitMenuLoop,
    RenderFormat,
    RenderAllFormats,
    DrawClipboard,
    Destroy,
    ChangeClipboardChain,
    Size,
    CancelMode,
    MouseWheel,
    KeyUp,
    KeyDown,
    Char,
    SetFocus,
    KillFocus,
    Create,
    NonClientPaint,
    EraseBackground,
    DropFiles,
    NonClientDestroy,
    SysKeyDown,
    SysKeyUp,
    MiddleButtonDoubleClick,
    RightButtonDoubleClick,
    ImeComposition,
    Quit,
    User,
    SetFont,
    Touch,
    CaptureChanged,
}

impl WindowMessage {
    /// The Windows message number.
    pub open spec fn spec_code(self) -> u32 {
        match self {
            WindowMessage::Null => 0x0000,
            WindowMessage::GetMinMaxInfo => 0x0024,
            WindowMessage::Move => 0x0003,
            WindowMessage::Timer => 0x0113,
            WindowMessage::Paint => 0x000F,
            WindowMessage::Close => 0x0010,
            WindowMessage::LeftButtonUp => 0x0202,
            WindowMessage::MouseMove => 0x0200,
            WindowMessage::MiddleButtonUp => 0x0208,
            WindowMessage::RightButtonUp => 0x0205,
            WindowMessage::SetCursor => 0x0020,
            WindowMessage::LeftButtonDown => 0x0201,
            WindowMessage::ImeChar => 0x0286,
            WindowMessage::SystemCommand => 0x0112,
            WindowMessage::MouseLeave => 0x02A3,
            WindowMessage::NonClientMouseMove => 0x00A0,
            WindowMessage::NonClientMouseHover => 0x02A0,
            WindowMessage::NonClientHitTest => 0x0084,
            WindowMessage::MiddleButtonDown => 0x0207,
            WindowMessage::RightButtonDown => 0x0204,
            WindowMessage::LeftButtonDoubleClick => 0x0203,
            WindowMessage::Command => 0x0111,
            WindowMessage::ExitMenuLoop => 0x0212,
            WindowMessage::RenderFormat => 0x0305,
            WindowMessage::RenderAllFormats => 0x0306,
            WindowMessage::DrawClipboard => 0x0308,
            WindowMessage::Destroy => 0x0002,
            WindowMessage::ChangeClipboardChain => 0x030D,
            WindowMessage::Size => 0x0005,
            WindowMessage::CancelMode => 0x001F,
            WindowMessage::MouseWheel => 0x020A,
            WindowMessage::KeyUp => 0x0101,
            WindowMessage::KeyDown => 0x0100,
            WindowMessage::Char => 0x0102,
            WindowMessage::SetFocus => 0x0007,
            WindowMessage::KillFocus => 0x0008,
            WindowMessage::Create => 0x0001,
            WindowMessage::NonClientPaint => 0x0085,
            WindowMessage::EraseBackground => 0x0014,
            WindowMessage::DropFiles => 0x0233,
            WindowMessage::NonClientDestroy => 0x0082,
            WindowMessage::SysKeyDown => 0x0104,
            WindowMessage::SysKeyUp => 0x0105,
            WindowMessage::MiddleButtonDoubleClick => 0x0209,
            WindowMessage::RightButtonDoubleClick => 0x0206,
            WindowMessage::ImeComposition => 0x010F,
            WindowMessage::Quit => 0x0012,
            WindowMessage::User => 0x0400,
            WindowMessage::SetFont => 0x0030,
            WindowMessage::Touch => 0x0240,
            WindowMessage::CaptureChanged => 0x0215,
        }
    }

    /// The message that has the number `code`, if any.
    pub open spec fn spec_from_code(code: u32) -> Option<Self> {
        if code == 0x0000 {
            Some(WindowMessage::Null)
        } else if code == 0x0024 {
            Some(WindowMessage::GetMinMaxInfo)
        } else if code == 0x0003 {
            Some(WindowMessage::Move)
        } else if code == 0x0113 {
            Some(WindowMessage::Timer)
        } else if code == 0x000F {
            Some(WindowMessage::Paint)
        } else if code == 0x0010 {
            Some(WindowMessage::Close)
        } else if code == 0x0202 {
            Some(WindowMessage::LeftButtonUp)
        } else if code == 0x0200 {
            Some(WindowMessage::MouseMove)
        } else if code == 0x0208 {
            Some(WindowMessage::MiddleButtonUp)
        } else if code == 0x0205 {
            Some(WindowMessage::RightButtonUp)
        } else if code == 0x0020 {
            Some(WindowMessage::SetCursor)
        } else if code == 0x0201 {
            Some(WindowMessage::LeftButtonDown)
        } else if code == 0x0286 {
            Some(WindowMessage::ImeChar)
        } else if code == 0x0112 {
            Some(WindowMessage::SystemCommand)
        } else if code == 0x02A3 {
            Some(WindowMessage::MouseLeave)
        } else if code == 0x00A0 {
            Some(WindowMessage::NonClientMouseMove)
        } else if code == 0x02A0 {
            Some(WindowMessage::NonClientMouseHover)
        } else if code == 0x0084 {
            Some(WindowMessage::NonClientHitTest)
        } else if code == 0x0207 {
            Some(WindowMessage::MiddleButtonDown)
        } else if code == 0x0204 {
            Some(WindowMessage::RightButtonDown)
        } else if code == 0x0203 {
            Some(WindowMessage::LeftButtonDoubleClick)
        } else if code == 0x0111 {
            Some(WindowMessage::Command)
        } else if code == 0x0212 {
            Some(WindowMessage::ExitMenuLoop)
        } else if code == 0x0305 {
            Some(WindowMessage::RenderFormat)
        } else if code == 0x0306 {
            Some(WindowMessage::RenderAllFormats)
        } else if code == 0x0308 {
            Some(WindowMessage::DrawClipboard)
        } else if code == 0x0002 {
            Some(WindowMessage::Destroy)
        } else if code == 0x030D {
            Some(WindowMessage::ChangeClipboardChain)
        } else if code == 0x0005 {
            Some(WindowMessage::Size)
        } else if code == 0x001F {
            Some(WindowMessage::CancelMode)
        } else if code == 0x020A {
            Some(WindowMessage::MouseWheel)
        } else if code == 0x0101 {
            Some(WindowMessage::KeyUp)
        } else if code == 0x0100 {
            Some(WindowMessage::KeyDown)
        } else if code == 0x0102 {
            Some(WindowMessage::Char)
        } else if code == 0x0007 {
            Some(WindowMessage::SetFocus)
        } else if code == 0x0008 {
            Some(WindowMessage::KillFocus)
        } else if code == 0x0001 {
            Some(WindowMessage::Create)
        } else if code == 0x0085 {
            Some(WindowMessage::NonClientPaint)
        } else if code == 0x0014 {
            Some(WindowMessage::EraseBackground)
        } else if code == 0x0233 {
            Some(WindowMessage::DropFiles)
        } else if code == 0x0082 {
            Some(WindowMessage::NonClientDestroy)
        } else if code == 0x0104 {
            Some(WindowMessage::SysKeyDown)
        } else if code == 0x0105 {
            Some(WindowMessage::SysKeyUp)
        } else if code == 0x0209 {
            Some(WindowMessage::MiddleButtonDoubleClick)
        } else if code == 0x0206 {
            Some(WindowMessage::RightButtonDoubleClick)
        } else if code == 0x010F {
            Some(WindowMessage::ImeComposition)
        } else if code == 0x0012 {
            Some(WindowMessage::Quit)
        } else if code == 0x0400 {
            Some(WindowMessage::User)
        } else if code == 0x0030 {
            Some(WindowMessage::SetFont)
        } else if code == 0x0240 {
            Some(WindowMessage::Touch)
        } else if code == 0x0215 {
            Some(WindowMessage::CaptureChanged)
        } else {
            None
        }
    }

    /// The Windows message number.
    pub fn code(self) -> (r: u32)
        ensures
            r == self.spec_code(),
    {
        match self {
            WindowMessage::Null => 0x0000,
            WindowMessage::GetMinMaxInfo => 0x0024,
            WindowMessage::Move => 0x0003,
            WindowMessage::Timer => 0x0113,
            WindowMessage::Paint => 0x000F,
            WindowMessage::Close => 0x0010,
            WindowMessage::LeftButtonUp => 0x0202,
            WindowMessage::MouseMove => 0x0200,
            WindowMessage::MiddleButtonUp => 0x0208,
            WindowMessage::RightButtonUp => 0x0205,
            WindowMessage::SetCursor => 0x0020,
            WindowMessage::LeftButtonDown => 0x0201,
            WindowMessage::ImeChar => 0x0286,
            WindowMessage::SystemCommand => 0x0112,
            WindowMessage::MouseLeave => 0x02A3,
            WindowMessage::NonClientMouseMove => 0x00A0,
            WindowMessage::NonClientMouseHover => 0x02A0,
            WindowMessage::NonClientHitTest => 0x0084,
            WindowMessage::MiddleButtonDown => 0x0207,
            WindowMessage::RightButtonDown => 0x0204,
            WindowMessage::LeftButtonDoubleClick => 0x0203,
            WindowMessage::Command => 0x0111,
            WindowMessage::ExitMenuLoop => 0x0212,
            WindowMessage::RenderFormat => 0x0305,
            WindowMessage::RenderAllFormats => 0x0306,
            WindowMessage::DrawClipboard => 0x0308,
            WindowMessage::Destroy => 0x0002,
            WindowMessage::ChangeClipboardChain => 0x030D,
            WindowMessage::Size => 0x0005,
            WindowMessage::CancelMode => 0x001F,
            WindowMessage::MouseWheel => 0x020A,
            WindowMessage::KeyUp => 0x0101,
            WindowMessage::KeyDown => 0x0100,
            WindowMessage::Char => 0x0102,
            WindowMessage::SetFocus => 0x0007,
            WindowMessage::KillFocus => 0x0008,
            WindowMessage::Create => 0x0001,
            WindowMessage::NonClientPaint => 0x0085,
            WindowMessage::EraseBackground => 0x0014,
            WindowMessage::DropFiles => 0x0233,
            WindowMessage::NonClientDestroy => 0x0082,
            WindowMessage::SysKeyDown => 0x0104,
            WindowMessage::SysKeyUp => 0x0105,
            WindowMessage::MiddleButtonDoubleClick => 0x0209,
            WindowMessage::RightButtonDoubleClick => 0x0206,
            WindowMessage::ImeComposition => 0x010F,
            WindowMessage::Quit => 0x0012,
            WindowMessage::User => 0x0400,
            WindowMessage::SetFont => 0x0030,
            WindowMessage::Touch => 0x0240,
            WindowMessage::CaptureChanged => 0x0215,
        }
    }
}

/// Each message has its own number: the number gives the message back.
pub proof fn lemma_window_message_code_round_trip(value: WindowMessage)
    ensures
        WindowMessage::spec_from_code(value.spec_code()) == Some(value),
{
}

/// Two messages with the same number are the same message.
pub proof fn lemma_window_message_code_injective(a: WindowMessage, b: WindowMessage)
    requires
        a.spec_code() == b.spec_code(),
    ensures
        a == b,
{
    lemma_window_message_code_round_trip(a);
    lemma_window_message_code_round_trip(b);
}

/// The window type code handed to the engine: popup 0, transparent 1, control 2.
pub proof fn lemma_window_type_engine_codes()
    ensures
        WindowType::Popup.spec_code() == 0i32,
        WindowType::Transparent.spec_code() == 1i32,
        WindowType::Control.spec_code() == 2i32,
{
}

/// The Windows message number of each window message, and no number names a
/// message of another number.
pub proof fn lemma_window_message_engine_codes()
    ensures
        WindowMessage::Null.spec_code() == 0x0000u32,
        WindowMessage::GetMinMaxInfo.spec_code() == 0x0024u32,
        WindowMessage::Move.spec_code() == 0x0003u32,
        WindowMessage::Timer.spec_code() == 0x0113u32,
        WindowMessage::Paint.spec_code() == 0x000Fu32,
        WindowMessage::Close.spec_code() == 0x0010u32,
        WindowMessage::LeftButtonUp.spec_code() == 0x0202u32,
        WindowMessage::MouseMove.spec_code() == 0x0200u32,
        WindowMessage::MiddleButtonUp.spec_code() == 0x0208u32,
        WindowMessage::RightButtonUp.spec_code() == 0x0205u32,
        WindowMessage::SetCursor.spec_code() == 0x0020u32,
        WindowMessage::LeftButtonDown.spec_code() == 0x0201u32,
        WindowMessage::ImeChar.spec_code() == 0x0286u32,
        WindowMessage::SystemCommand.spec_code() == 0x0112u32,
        WindowMessage::MouseLeave.spec_code() == 0x02A3u32,
        WindowMessage::NonClientMouseMove.spec_code() == 0x00A0u32,
        WindowMessage::NonClientMouseHover.spec_code() == 0x02A0u32,
        WindowMessage::NonClientHitTest.spec_code() == 0x0084u32,
        WindowMessage::MiddleButtonDown.spec_code() == 0x0207u32,
        WindowMessage::RightButtonDown.spec_code() == 0x0204u32,
        WindowMessage::LeftButtonDoubleClick.spec_code() == 0x0203u32,
        WindowMessage::Command.spec_code() == 0x0111u32,
        WindowMessage::ExitMenuLoop.spec_code() == 0x0212u32,
        WindowMessage::RenderFormat.spec_code() == 0x0305u32,
        WindowMessage::RenderAllFormats.spec_code() == 0x0306u32,
        WindowMessage::DrawClipboard.spec_code() == 0x0308u32,
        WindowMessage::Destroy.spec_code() == 0x0002u32,
        WindowMessage::ChangeClipboardChain.spec_code() == 0x030Du32,
        WindowMessage::Size.spec_code() == 0x0005u32,
        WindowMessage::CancelMode.spec_code() == 0x001Fu32,
        WindowMessage::MouseWheel.spec_code() == 0x020Au32,
        WindowMessage::KeyUp.spec_code() == 0x0101u32,
        WindowMessage::KeyDown.spec_code() == 0x0100u32,
        WindowMessage::Char.spec_code() == 0x0102u32,
        WindowMessage::SetFocus.spec_code() == 0x0007u32,
        WindowMessage::KillFocus.spec_code() == 0x0008u32,
        WindowMessage::Create.spec_code() == 0x0001u32,
        WindowMessage::NonClientPaint.spec_code() == 0x0085u32,
        WindowMessage::EraseBackground.spec_code() == 0x0014u32,
        WindowMessage::DropFiles.spec_code() == 0x0233u32,
        WindowMessage::NonClientDestroy.spec_code() == 0x0082u32,
        WindowMessage::SysKeyDown.spec_code() == 0x0104u32,
        WindowMessage::SysKeyUp.spec_code() == 0x0105u32,
        WindowMessage::MiddleButtonDoubleClick.spec_code() == 0x0209u32,
        WindowMessage::RightButtonDoubleClick.spec_code() == 0x0206u32,
        WindowMessage::ImeComposition.spec_code() == 0x010Fu32,
        WindowMessage::Quit.spec_code() == 0x0012u32,
        WindowMessage::User.spec_code() == 0x0400u32,
        WindowMessage::SetFont.spec_code() == 0x0030u32,
        WindowMessage::Touch.spec_code() == 0x0240u32,
        WindowMessage::CaptureChanged.spec_code() == 0x0215u32,
        forall|c: u32| #[trigger] WindowMessage::spec_from_code(c) matches Some(v) ==> v.spec_code() == c,
{
}

} // verus!
