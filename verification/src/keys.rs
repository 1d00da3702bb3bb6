//! Keyboard keys as scripts name them, and their normal form for trigger
//! matching.

use vstd::prelude::*;

verus! {

/// A standard keyboard key.
#[derive(Clone, Copy, Debug, PartialEq, Eq, Structural, Hash)]
pub enum JsStandardKey {
    /// Top-row digit '0' key (not numpad)
    Num0,
    /// Top-row digit '1' key (not numpad)
    Num1,
    /// Top-row digit '2' key (not numpad)
    Num2,
    /// Top-row digit '3' key (not numpad)
    Num3,
    /// Top-row digit '4' key (not numpad)
    Num4,
    /// Top-row digit '5' key (not numpad)
    Num5,
    /// Top-row digit '6' key (not numpad)
    Num6,
    /// Top-row digit '7' key (not numpad)
    Num7,
    /// Top-row digit '8' key (not numpad)
    Num8,
    /// Top-row digit '9' key (not numpad)
    Num9,
    /// Letter key 'A'
    A,
    /// Letter key 'B'
    B,
    /// Letter key 'C'
    C,
    /// Letter key 'D'
    D,
    /// Letter key 'E'
    E,
    /// Letter key 'F'
    F,
    /// Letter key 'G'
    G,
    /// Letter key 'H'
    H,
    /// Letter key 'I'
    I,
    /// Letter key 'J'
    J,
    /// Letter key 'K'
    K,
    /// Letter key 'L'
    L,
    /// Letter key 'M'
    M,
    /// Letter key 'N'
    N,
    /// Letter key 'O'
    O,
    /// Letter key 'P'
    P,
    /// Letter key 'Q'
    Q,
    /// Letter key 'R'
    R,
    /// Letter key 'S'
    S,
    /// Letter key 'T'
    T,
    /// Letter key 'U'
    U,
    /// Letter key 'V'
    V,
    /// Letter key 'W'
    W,
    /// Letter key 'X'
    X,
    /// Letter key 'Y'
    Y,
    /// Letter key 'Z'
    Z,
    /// Brazilian ABNT keyboard key C1
    /// @platforms =windows
    AbntC1,
    /// Brazilian ABNT keyboard key C2
    /// @platforms =windows
    AbntC2,
    /// IME “Accept” / commit conversion
    /// @platforms =windows
    Accept,
    /// Numpad '+' (addition) key
    Add,
    /// Alt (Alternate) modifier key
    Alt,
    /// Application/Menu key
    /// @platforms =windows
    Apps,
    /// Attention key (legacy/rare)
    /// @platforms =windows
    Attention,
    /// Backspace / Delete-previous-character
    Backspace,
    /// Break key (X11/Linux)
    /// @platforms =linux
    Break,
    /// Begin key
    /// @platforms =linux
    Begin,
    /// Browser Back
    /// @platforms =windows
    BrowserBack,
    /// Browser Favorites
    /// @platforms =windows
    BrowserFavorites,
    /// Browser Forward
    /// @platforms =windows
    BrowserForward,
    /// Browser Home
    /// @platforms =windows
    BrowserHome,
    /// Browser Refresh
    /// @platforms =windows
    BrowserRefresh,
    /// Browser Search
    /// @platforms =windows
    BrowserSearch,
    /// Browser Stop
    /// @platforms =windows
    BrowserStop,
    /// Cancel key (legacy)
    Cancel,
    /// Caps Lock toggle
    CapsLock,
    /// Clear key
    Clear,
    /// Control (Ctrl) modifier key
    Control,
    /// IME Convert (start/confirm conversion)
    /// @platforms =windows
    Convert,
    /// Cursor Select (CRSel)
    /// @platforms =windows
    CursorSelect,
    /// IME: switch to alphanumeric
    /// @platforms =windows
    DBEAlphanumeric,
    /// IME: code input mode
    /// @platforms =windows
    DBECodeinput,
    /// IME: determine string
    /// @platforms =windows
    DBEDetermineString,
    /// IME: enter dialog conversion mode
    /// @platforms =windows
    DBEEnterDLGConversionMode,
    /// IME: open configuration
    /// @platforms =windows
    DBEEnterIMEConfigMode,
    /// IME: word register mode
    /// @platforms =windows
    DBEEnterWordRegisterMode,
    /// IME: flush/reset composition string
    /// @platforms =windows
    DBEFlushString,
    /// IME: Hiragana
    /// @platforms =windows
    DBEHiragana,
    /// IME: Katakana
    /// @platforms =windows
    DBEKatakana,
    /// IME: no code point
    /// @platforms =windows
    DBENoCodepoint,
    /// IME: no roman
    /// @platforms =windows
    DBENoRoman,
    /// IME: Roman
    /// @platforms =windows
    DBERoman,
    /// IME: SBCS character
    /// @platforms =windows
    DBESBCSChar,
    /// IME: SBCS/Special char
    /// @platforms =windows
    DBESChar,
    /// Numpad decimal point '.'
    Decimal,
    /// Delete / Forward delete
    Delete,
    /// Numpad divide '/'
    Divide,
    /// Arrow: Down
    DownArrow,
    /// End key
    End,
    /// Erase EOF
    /// @platforms =windows
    Ereof,
    /// Escape key
    Escape,
    /// Execute key
    Execute,
    /// Extend Selection (ExSel)
    /// @platforms =windows
    Exsel,
    /// Function key F1
    F1,
    /// Function key F2
    F2,
    /// Function key F3
    F3,
    /// Function key F4
    F4,
    /// Function key F5
    F5,
    /// Function key F6
    F6,
    /// Function key F7
    F7,
    /// Function key F8
    F8,
    /// Function key F9
    F9,
    /// Function key F10
    F10,
    /// Function key F11
    F11,
    /// Function key F12
    F12,
    /// Function key F13
    F13,
    /// Function key F14
    F14,
    /// Function key F15
    F15,
    /// Function key F16
    F16,
    /// Function key F17
    F17,
    /// Function key F18
    F18,
    /// Function key F19
    F19,
    /// Function key F20
    F20,
    /// Function key F21
    F21,
    /// Function key F22
    F22,
    /// Function key F23
    F23,
    /// Function key F24
    F24,
    /// Function key F25
    /// @platforms =linux
    F25,
    /// Function key F26
    /// @platforms =linux
    F26,
    /// Function key F27
    /// @platforms =linux
    F27,
    /// Function key F28
    /// @platforms =linux
    F28,
    /// Function key F29
    /// @platforms =linux
    F29,
    /// Function key F30
    /// @platforms =linux
    F30,
    /// Function key F31
    /// @platforms =linux
    F31,
    /// Function key F32
    /// @platforms =linux
    F32,
    /// Function key F33
    /// @platforms =linux
    F33,
    /// Function key F34
    /// @platforms =linux
    F34,
    /// Function key F35
    /// @platforms =linux
    F35,
    /// IME Final (end conversion)
    /// @platforms =windows
    Final,
    /// Find key
    /// @platforms =linux
    Find,
    /// Gamepad: A button
    /// @platforms =windows
    GamepadA,
    /// Gamepad: B button
    /// @platforms =windows
    GamepadB,
    /// Gamepad: D-Pad Down
    /// @platforms =windows
    GamepadDPadDown,
    /// Gamepad: D-Pad Left
    /// @platforms =windows
    GamepadDPadLeft,
    /// Gamepad: D-Pad Right
    /// @platforms =windows
    GamepadDPadRight,
    /// Gamepad: D-Pad Up
    /// @platforms =windows
    GamepadDPadUp,
    /// Gamepad: Left shoulder (L1)
    /// @platforms =windows
    GamepadLeftShoulder,
    /// Gamepad: Left thumbstick button (L3)
    /// @platforms =windows
    GamepadLeftThumbstickButton,
    /// Gamepad: Left thumbstick down
    /// @platforms =windows
    GamepadLeftThumbstickDown,
    /// Gamepad: Left thumbstick left
    /// @platforms =windows
    GamepadLeftThumbstickLeft,
    /// Gamepad: Left thumbstick right
    /// @platforms =windows
    GamepadLeftThumbstickRight,
    /// Gamepad: Left thumbstick up
    /// @platforms =windows
    GamepadLeftThumbstickUp,
    /// Gamepad: Left trigger (L2)
    /// @platforms =windows
    GamepadLeftTrigger,
    /// Gamepad: Menu / Start
    /// @platforms =windows
    GamepadMenu,
    /// Gamepad: Right shoulder (R1)
    /// @platforms =windows
    GamepadRightShoulder,
    /// Gamepad: Right thumbstick button (R3)
    /// @platforms =windows
    GamepadRightThumbstickButton,
    /// Gamepad: Right thumbstick down
    /// @platforms =windows
    GamepadRightThumbstickDown,
    /// Gamepad: Right thumbstick left
    /// @platforms =windows
    GamepadRightThumbstickLeft,
    /// Gamepad: Right thumbstick right
    /// @platforms =windows
    GamepadRightThumbstickRight,
    /// Gamepad: Right thumbstick up
    /// @platforms =windows
    GamepadRightThumbstickUp,
    /// Gamepad: Right trigger (R2)
    /// @platforms =windows
    GamepadRightTrigger,
    /// Gamepad: View / Back
    /// @platforms =windows
    GamepadView,
    /// Gamepad: X button
    /// @platforms =windows
    GamepadX,
    /// Gamepad: Y button
    /// @platforms =windows
    GamepadY,
    /// Hangeul toggle (Korean layout)
    /// @platforms =windows
    Hangeul,
    /// Hangul toggle (Korean layout)
    Hangul,
    /// Hanja toggle (Chinese characters on Korean layout)
    Hanja,
    /// Help key
    Help,
    /// Home key
    Home,
    /// ICO (legacy) key 00
    /// @platforms =windows
    Ico00,
    /// ICO (legacy) Clear
    /// @platforms =windows
    IcoClear,
    /// ICO (legacy) Help
    /// @platforms =windows
    IcoHelp,
    /// IME Off (disable IME)
    /// @platforms =windows
    IMEOff,
    /// IME On (enable IME)
    /// @platforms =windows
    IMEOn,
    /// Insert key
    Insert,
    /// IME: Junja mode
    /// @platforms =windows
    Junja,
    /// IME: Kana mode
    /// @platforms =windows
    Kana,
    /// Kanji toggle (Japanese layout)
    Kanji,
    /// Launch application 1
    /// @platforms =windows
    LaunchApp1,
    /// Launch application 2
    /// @platforms =windows
    LaunchApp2,
    /// Launch default mail client
    /// @platforms =windows
    LaunchMail,
    /// Launch media selector
    /// @platforms =windows
    LaunchMediaSelect,
    /// Left Control
    LeftControl,
    /// Arrow: Left
    LeftArrow,
    /// Line Feed key
    /// @platforms =linux
    Linefeed,
    /// Left Alt/Menu
    LeftAlt,
    /// Left Shift
    LeftShift,
    /// Left Windows / Super key
    /// @platforms =windows
    LeftWindows,
    /// Next media track
    MediaNextTrack,
    /// Play/Pause media
    MediaPlayPause,
    /// Previous media track
    MediaPrevTrack,
    /// Stop media
    MediaStop,
    /// Meta key (also known as "windows", "super", and "command")
    Meta,
    /// IME mode change
    ModeChange,
    /// Numpad multiply '*'
    Multiply,
    /// Navigation: Accept/OK (UWP)
    /// @platforms =windows
    NavigationAccept,
    /// Navigation: Cancel/Back (UWP)
    /// @platforms =windows
    NavigationCancel,
    /// Navigation: Down (UWP)
    /// @platforms =windows
    NavigationDown,
    /// Navigation: Left (UWP)
    /// @platforms =windows
    NavigationLeft,
    /// Navigation: Menu (UWP)
    /// @platforms =windows
    NavigationMenu,
    /// Navigation: Right (UWP)
    /// @platforms =windows
    NavigationRight,
    /// Navigation: Up (UWP)
    /// @platforms =windows
    NavigationUp,
    /// Navigation: View (UWP)
    /// @platforms =windows
    NavigationView,
    /// NoName key (reserved)
    /// @platforms =windows
    NoName,
    /// IME Non-Convert (cancel conversion)
    /// @platforms =windows
    NonConvert,
    /// Placeholder "no key"
    /// @platforms =windows
    NoKey,
    /// Num Lock toggle
    Numlock,
    /// Numpad digit '0'
    Numpad0,
    /// Numpad digit '1'
    Numpad1,
    /// Numpad digit '2'
    Numpad2,
    /// Numpad digit '3'
    Numpad3,
    /// Numpad digit '4'
    Numpad4,
    /// Numpad digit '5'
    Numpad5,
    /// Numpad digit '6'
    Numpad6,
    /// Numpad digit '7'
    Numpad7,
    /// Numpad digit '8'
    Numpad8,
    /// Numpad digit '9'
    Numpad9,
    /// Numpad Enter
    NumpadEnter,
    /// OEM specific key 1
    /// @platforms =windows
    OEM1,
    /// OEM specific key 102 (angle bracket/pipe on some layouts)
    /// @platforms =windows
    OEM102,
    /// OEM specific key 2
    /// @platforms =windows
    OEM2,
    /// OEM specific key 3 (backtick/tilde on some layouts)
    /// @platforms =windows
    OEM3,
    /// OEM specific key 4 (left bracket on some layouts)
    /// @platforms =windows
    OEM4,
    /// OEM specific key 5 (right bracket on some layouts)
    /// @platforms =windows
    OEM5,
    /// OEM specific key 6 (semicolon on some layouts)
    /// @platforms =windows
    OEM6,
    /// OEM specific key 7 (quote on some layouts)
    /// @platforms =windows
    OEM7,
    /// OEM specific key 8
    /// @platforms =windows
    OEM8,
    /// OEM Attention
    /// @platforms =windows
    OEMAttn,
    /// OEM Auto
    /// @platforms =windows
    OEMAuto,
    /// OEM Ax
    /// @platforms =windows
    OEMAx,
    /// OEM Backtab (reverse Tab)
    /// @platforms =windows
    OEMBacktab,
    /// OEM Clear
    /// @platforms =windows
    OEMClear,
    /// OEM Comma ','
    /// @platforms =windows
    OEMComma,
    /// OEM Copy
    /// @platforms =windows
    OEMCopy,
    /// OEM Cusel
    /// @platforms =windows
    OEMCusel,
    /// OEM Enlw
    /// @platforms =windows
    OEMEnlw,
    /// OEM Finish
    /// @platforms =windows
    OEMFinish,
    /// OEM FJ Jisho (dictionary)
    /// @platforms =windows
    OEMFJJisho,
    /// OEM FJ Loya
    /// @platforms =windows
    OEMFJLoya,
    /// OEM FJ Masshou
    /// @platforms =windows
    OEMFJMasshou,
    /// OEM FJ Roya
    /// @platforms =windows
    OEMFJRoya,
    /// OEM FJ Touroku
    /// @platforms =windows
    OEMFJTouroku,
    /// OEM Jump
    /// @platforms =windows
    OEMJump,
    /// OEM Minus '-'
    /// @platforms =windows
    OEMMinus,
    /// OEM NEC Equal '='
    /// @platforms =windows
    OEMNECEqual,
    /// OEM PA1
    /// @platforms =windows
    OEMPA1,
    /// OEM PA2
    /// @platforms =windows
    OEMPA2,
    /// OEM PA3
    /// @platforms =windows
    OEMPA3,
    /// OEM Period '.'
    /// @platforms =windows
    OEMPeriod,
    /// OEM Plus '+'
    /// @platforms =windows
    OEMPlus,
    /// OEM Reset
    /// @platforms =windows
    OEMReset,
    /// OEM Wsctrl
    /// @platforms =windows
    OEMWsctrl,
    /// Same as Alt
    OptionKey,
    /// PA1 key
    /// @platforms =windows
    PA1,
    /// Packet key (used to pass Unicode chars)
    /// @platforms =windows
    Packet,
    /// Page Down
    PageDown,
    /// Page Up
    PageUp,
    /// Pause key
    Pause,
    /// Media Play
    /// @platforms =windows
    Play,
    /// Screenshot
    PrintScreen,
    /// IME Process key
    /// @platforms =windows
    Processkey,
    /// Right Control
    RightControl,
    /// Redo
    /// @platforms =linux
    Redo,
    /// Enter / Return
    Return,
    /// Arrow: Right
    RightArrow,
    /// Right Alt/Menu
    /// @platforms =windows
    RightAlt,
    /// Right Shift
    RightShift,
    /// Right Windows / Super key
    /// @platforms =windows
    RightWindows,
    /// Scroll key (legacy)
    /// @platforms =windows
    Scroll,
    /// Scroll Lock
    /// @platforms =linux
    ScrollLock,
    /// Select key
    Select,
    /// Script switch
    /// @platforms =linux
    ScriptSwitch,
    /// Numpad separator (locale-dependent)
    /// @platforms =windows
    Separator,
    /// Shift modifier
    Shift,
    /// Shift Lock
    /// @platforms =linux
    ShiftLock,
    /// System Sleep
    /// @platforms =windows
    Sleep,
    /// Spacebar
    Space,
    /// Numpad '-' (subtract)
    Subtract,
    /// System Request (SysRq)
    /// @platforms =linux
    SysReq,
    /// Tab / focus next
    Tab,
    /// Undo
    /// @platforms =linux
    Undo,
    /// Arrow: Up
    UpArrow,
    /// Volume down
    VolumeDown,
    /// Volume mute
    VolumeMute,
    /// Volume up
    VolumeUp,
    /// Microphone mute
    /// @platforms =linux
    MicrophoneMute,
    /// Zoom key
    /// @platforms =windows
    Zoom,
}

/// A key: a standard key, the key typing a character, or a raw key code.
#[derive(Clone, Copy, Debug, PartialEq, Eq, Structural, Hash)]
pub enum JsKey {
    /// A standard key.
    Standard(JsStandardKey),
    /// The key typing this character.
    Unicode(char),
    /// A raw key code.
    Other(u32),
}

/// A key that the platform cannot press or report.
#[derive(Clone, Copy, Debug, PartialEq, Eq, Structural)]
pub enum KeyError {
    /// The key is not supported here.
    Unsupported,
}

/// The lower-case form of an ASCII upper-case letter; other characters
/// stay.
pub open spec fn ascii_lower(c: char) -> char {
    if 'A' <= c && c <= 'Z' {
        ((c as u32) + 32) as char
    } else {
        c
    }
}

/// The normal form of a key, so that keys that mean the same for a trigger
/// compare equal: left and right Control and Shift become Control and
/// Shift, left Alt becomes Alt, a typed escape character becomes Escape,
/// letter and digit keys become the lower-case character they type, and
/// upper-case ASCII letters become lower case.
pub open spec fn normalized(key: JsKey) -> JsKey {
    match key {
        JsKey::Standard(k) => match k {
            JsStandardKey::LeftControl | JsStandardKey::RightControl => JsKey::Standard(JsStandardKey::Control),
            JsStandardKey::LeftShift | JsStandardKey::RightShift => JsKey::Standard(JsStandardKey::Shift),
            JsStandardKey::LeftAlt => JsKey::Standard(JsStandardKey::Alt),
            JsStandardKey::A => JsKey::Unicode('a'),
            JsStandardKey::B => JsKey::Unicode('b'),
            JsStandardKey::C => JsKey::Unicode('c'),
            JsStandardKey::D => JsKey::Unicode('d'),
            JsStandardKey::E => JsKey::Unicode('e'),
            JsStandardKey::F => JsKey::Unicode('f'),
            JsStandardKey::G => JsKey::Unicode('g'),
            JsStandardKey::H => JsKey::Unicode('h'),
            JsStandardKey::I => JsKey::Unicode('i'),
            JsStandardKey::J => JsKey::Unicode('j'),
            JsStandardKey::K => JsKey::Unicode('k'),
            JsStandardKey::L => JsKey::Unicode('l'),
            JsStandardKey::M => JsKey::Unicode('m'),
            JsStandardKey::N => JsKey::Unicode('n'),
            JsStandardKey::O => JsKey::Unicode('o'),
            JsStandardKey::P => JsKey::Unicode('p'),
            JsStandardKey::Q => JsKey::Unicode('q'),
            JsStandardKey::R => JsKey::Unicode('r'),
            JsStandardKey::S => JsKey::Unicode('s'),
            JsStandardKey::T => JsKey::Unicode('t'),
            JsStandardKey::U => JsKey::Unicode('u'),
            JsStandardKey::V => JsKey::Unicode('v'),
            JsStandardKey::W => JsKey::Unicode('w'),
            JsStandardKey::X => JsKey::Unicode('x'),
            JsStandardKey::Y => JsKey::Unicode('y'),
            JsStandardKey::Z => JsKey::Unicode('z'),
            JsStandardKey::Num0 => JsKey::Unicode('0'),
            JsStandardKey::Num1 => JsKey::Unicode('1'),
            JsStandardKey::Num2 => JsKey::Unicode('2'),
            JsStandardKey::Num3 => JsKey::Unicode('3'),
            JsStandardKey::Num4 => JsKey::Unicode('4'),
            JsStandardKey::Num5 => JsKey::Unicode('5'),
            JsStandardKey::Num6 => JsKey::Unicode('6'),
            JsStandardKey::Num7 => JsKey::Unicode('7'),
            JsStandardKey::Num8 => JsKey::Unicode('8'),
            JsStandardKey::Num9 => JsKey::Unicode('9'),
            _ => key,
        },
        JsKey::Unicode(c) => if c == '\u{1b}' {
            JsKey::Standard(JsStandardKey::Escape)
        } else {
            JsKey::Unicode(ascii_lower(c))
        },
        JsKey::Other(_) => key,
    }
}

/// The normal form of a key.
pub fn normalize(key: JsKey) -> (r: JsKey)
    ensures
        r == normalized(key),
{
    match key {
        JsKey::Standard(k) => match k {
            JsStandardKey::LeftControl | JsStandardKey::RightControl => JsKey::Standard(JsStandardKey::Control),
            JsStandardKey::LeftShift | JsStandardKey::RightShift => JsKey::Standard(JsStandardKey::Shift),
            JsStandardKey::LeftAlt => JsKey::Standard(JsStandardKey::Alt),
            JsStandardKey::A => JsKey::Unicode('a'),
            JsStandardKey::B => JsKey::Unicode('b'),
            JsStandardKey::C => JsKey::Unicode('c'),
            JsStandardKey::D => JsKey::Unicode('d'),
            JsStandardKey::E => JsKey::Unicode('e'),
            JsStandardKey::F => JsKey::Unicode('f'),
            JsStandardKey::G => JsKey::Unicode('g'),
            JsStandardKey::H => JsKey::Unicode('h'),
            JsStandardKey::I => JsKey::Unicode('i'),
            JsStandardKey::J => JsKey::Unicode('j'),
            JsStandardKey::K => JsKey::Unicode('k'),
            JsStandardKey::L => JsKey::Unicode('l'),
            JsStandardKey::M => JsKey::Unicode('m'),
            JsStandardKey::N => JsKey::Unicode('n'),
            JsStandardKey::O => JsKey::Unicode('o'),
            JsStandardKey::P => JsKey::Unicode('p'),
            JsStandardKey::Q => JsKey::Unicode('q'),
            JsStandardKey::R => JsKey::Unicode('r'),
            JsStandardKey::S => JsKey::Unicode('s'),
            JsStandardKey::T => JsKey::Unicode('t'),
            JsStandardKey::U => JsKey::Unicode('u'),
            JsStandardKey::V => JsKey::Unicode('v'),
            JsStandardKey::W => JsKey::Unicode('w'),
            JsStandardKey::X => JsKey::Unicode('x'),
            JsStandardKey::Y => JsKey::Unicode('y'),
            JsStandardKey::Z => JsKey::Unicode('z'),
            JsStandardKey::Num0 => JsKey::Unicode('0'),
            JsStandardKey::Num1 => JsKey::Unicode('1'),
            JsStandardKey::Num2 => JsKey::Unicode('2'),
            JsStandardKey::Num3 => JsKey::Unicode('3'),
            JsStandardKey::Num4 => JsKey::Unicode('4'),
            JsStandardKey::Num5 => JsKey::Unicode('5'),
            JsStandardKey::Num6 => JsKey::Unicode('6'),
            JsStandardKey::Num7 => JsKey::Unicode('7'),
            JsStandardKey::Num8 => JsKey::Unicode('8'),
            JsStandardKey::Num9 => JsKey::Unicode('9'),
            _ => key,
        },
        JsKey::Unicode(c) => if c == '\u{1b}' {
            JsKey::Standard(JsStandardKey::Escape)
        } else if 'A' <= c && c <= 'Z' {
            JsKey::Unicode(((c as u32) + 32) as u8 as char)
        } else {
            JsKey::Unicode(c)
        },
        JsKey::Other(_) => key,
    }
}

/// A key in normal form stays as it is when normalized again.
pub proof fn law_normalize_idempotent(key: JsKey)
    ensures
        normalized(normalized(key)) == normalized(key),
{
}

} // verus!
