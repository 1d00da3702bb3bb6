//! The names of the standard keys, and keys read from the names, characters
//! and numbers that scripts give.

use vstd::prelude::*;

use crate::keys::{JsKey, JsStandardKey};

verus! {

/// The name of a standard key: the name of its variant, as scripts write
/// it (`Space`, `Return`, `F1`...).
pub open spec fn standard_key_name(k: JsStandardKey) -> Seq<char> {
    match k {
        JsStandardKey::Num0 => "Num0"@,
        JsStandardKey::Num1 => "Num1"@,
        JsStandardKey::Num2 => "Num2"@,
        JsStandardKey::Num3 => "Num3"@,
        JsStandardKey::Num4 => "Num4"@,
        JsStandardKey::Num5 => "Num5"@,
        JsStandardKey::Num6 => "Num6"@,
        JsStandardKey::Num7 => "Num7"@,
        JsStandardKey::Num8 => "Num8"@,
        JsStandardKey::Num9 => "Num9"@,
        JsStandardKey::A => "A"@,
        JsStandardKey::B => "B"@,
        JsStandardKey::C => "C"@,
        JsStandardKey::D => "D"@,
        JsStandardKey::E => "E"@,
        JsStandardKey::F => "F"@,
        JsStandardKey::G => "G"@,
        JsStandardKey::H => "H"@,
        JsStandardKey::I => "I"@,
        JsStandardKey::J => "J"@,
        JsStandardKey::K => "K"@,
        JsStandardKey::L => "L"@,
        JsStandardKey::M => "M"@,
        JsStandardKey::N => "N"@,
        JsStandardKey::O => "O"@,
        JsStandardKey::P => "P"@,
        JsStandardKey::Q => "Q"@,
        JsStandardKey::R => "R"@,
        JsStandardKey::S => "S"@,
        JsStandardKey::T => "T"@,
        JsStandardKey::U => "U"@,
        JsStandardKey::V => "V"@,
        JsStandardKey::W => "W"@,
        JsStandardKey::X => "X"@,
        JsStandardKey::Y => "Y"@,
        JsStandardKey::Z => "Z"@,
        JsStandardKey::AbntC1 => "AbntC1"@,
        JsStandardKey::AbntC2 => "AbntC2"@,
        JsStandardKey::Accept => "Accept"@,
        JsStandardKey::Add => "Add"@,
        JsStandardKey::Alt => "Alt"@,
        JsStandardKey::Apps => "Apps"@,
        JsStandardKey::Attention => "Attention"@,
        JsStandardKey::Backspace => "Backspace"@,
        JsStandardKey::Break => "Break"@,
        JsStandardKey::Begin => "Begin"@,
        JsStandardKey::BrowserBack => "BrowserBack"@,
        JsStandardKey::BrowserFavorites => "BrowserFavorites"@,
        JsStandardKey::BrowserForward => "BrowserForward"@,
        JsStandardKey::BrowserHome => "BrowserHome"@,
        JsStandardKey::BrowserRefresh => "BrowserRefresh"@,
        JsStandardKey::BrowserSearch => "BrowserSearch"@,
        JsStandardKey::BrowserStop => "BrowserStop"@,
        JsStandardKey::Cancel => "Cancel"@,
        JsStandardKey::CapsLock => "CapsLock"@,
        JsStandardKey::Clear => "Clear"@,
        JsStandardKey::Control => "Control"@,
        JsStandardKey::Convert => "Convert"@,
        JsStandardKey::CursorSelect => "CursorSelect"@,
        JsStandardKey::DBEAlphanumeric => "DBEAlphanumeric"@,
        JsStandardKey::DBECodeinput => "DBECodeinput"@,
        JsStandardKey::DBEDetermineString => "DBEDetermineString"@,
        JsStandardKey::DBEEnterDLGConversionMode => "DBEEnterDLGConversionMode"@,
        JsStandardKey::DBEEnterIMEConfigMode => "DBEEnterIMEConfigMode"@,
        JsStandardKey::DBEEnterWordRegisterMode => "DBEEnterWordRegisterMode"@,
        JsStandardKey::DBEFlushString => "DBEFlushString"@,
        JsStandardKey::DBEHiragana => "DBEHiragana"@,
        JsStandardKey::DBEKatakana => "DBEKatakana"@,
        JsStandardKey::DBENoCodepoint => "DBENoCodepoint"@,
        JsStandardKey::DBENoRoman => "DBENoRoman"@,
        JsStandardKey::DBERoman => "DBERoman"@,
        JsStandardKey::DBESBCSChar => "DBESBCSChar"@,
        JsStandardKey::DBESChar => "DBESChar"@,
        JsStandardKey::Decimal => "Decimal"@,
        JsStandardKey::Delete => "Delete"@,
        JsStandardKey::Divide => "Divide"@,
        JsStandardKey::DownArrow => "DownArrow"@,
        JsStandardKey::End => "End"@,
        JsStandardKey::Ereof => "Ereof"@,
        JsStandardKey::Escape => "Escape"@,
        JsStandardKey::Execute => "Execute"@,
        JsStandardKey::Exsel => "Exsel"@,
        JsStandardKey::F1 => "F1"@,
        JsStandardKey::F2 => "F2"@,
        JsStandardKey::F3 => "F3"@,
        JsStandardKey::F4 => "F4"@,
        JsStandardKey::F5 => "F5"@,
        JsStandardKey::F6 => "F6"@,
        JsStandardKey::F7 => "F7"@,
        JsStandardKey::F8 => "F8"@,
        JsStandardKey::F9 => "F9"@,
        JsStandardKey::F10 => "F10"@,
        JsStandardKey::F11 => "F11"@,
        JsStandardKey::F12 => "F12"@,
        JsStandardKey::F13 => "F13"@,
        JsStandardKey::F14 => "F14"@,
        JsStandardKey::F15 => "F15"@,
        JsStandardKey::F16 => "F16"@,
        JsStandardKey::F17 => "F17"@,
        JsStandardKey::F18 => "F18"@,
        JsStandardKey::F19 => "F19"@,
        JsStandardKey::F20 => "F20"@,
        JsStandardKey::F21 => "F21"@,
        JsStandardKey::F22 => "F22"@,
        JsStandardKey::F23 => "F23"@,
        JsStandardKey::F24 => "F24"@,
        JsStandardKey::F25 => "F25"@,
        JsStandardKey::F26 => "F26"@,
        JsStandardKey::F27 => "F27"@,
        JsStandardKey::F28 => "F28"@,
        JsStandardKey::F29 => "F29"@,
        JsStandardKey::F30 => "F30"@,
        JsStandardKey::F31 => "F31"@,
        JsStandardKey::F32 => "F32"@,
        JsStandardKey::F33 => "F33"@,
        JsStandardKey::F34 => "F34"@,
        JsStandardKey::F35 => "F35"@,
        JsStandardKey::Final => "Final"@,
        JsStandardKey::Find => "Find"@,
        JsStandardKey::GamepadA => "GamepadA"@,
        JsStandardKey::GamepadB => "GamepadB"@,
        JsStandardKey::GamepadDPadDown => "GamepadDPadDown"@,
        JsStandardKey::GamepadDPadLeft => "GamepadDPadLeft"@,
        JsStandardKey::GamepadDPadRight => "GamepadDPadRight"@,
        JsStandardKey::GamepadDPadUp => "GamepadDPadUp"@,
        JsStandardKey::GamepadLeftShoulder => "GamepadLeftShoulder"@,
        JsStandardKey::GamepadLeftThumbstickButton => "GamepadLeftThumbstickButton"@,
        JsStandardKey::GamepadLeftThumbstickDown => "GamepadLeftThumbstickDown"@,
        JsStandardKey::GamepadLeftThumbstickLeft => "GamepadLeftThumbstickLeft"@,
        JsStandardKey::GamepadLeftThumbstickRight => "GamepadLeftThumbstickRight"@,
        JsStandardKey::GamepadLeftThumbstickUp => "GamepadLeftThumbstickUp"@,
        JsStandardKey::GamepadLeftTrigger => "GamepadLeftTrigger"@,
        JsStandardKey::GamepadMenu => "GamepadMenu"@,
        JsStandardKey::GamepadRightShoulder => "GamepadRightShoulder"@,
        JsStandardKey::GamepadRightThumbstickButton => "GamepadRightThumbstickButton"@,
        JsStandardKey::GamepadRightThumbstickDown => "GamepadRightThumbstickDown"@,
        JsStandardKey::GamepadRightThumbstickLeft => "GamepadRightThumbstickLeft"@,
        JsStandardKey::GamepadRightThumbstickRight => "GamepadRightThumbstickRight"@,
        JsStandardKey::GamepadRightThumbstickUp => "GamepadRightThumbstickUp"@,
        JsStandardKey::GamepadRightTrigger => "GamepadRightTrigger"@,
        JsStandardKey::GamepadView => "GamepadView"@,
        JsStandardKey::GamepadX => "GamepadX"@,
        JsStandardKey::GamepadY => "GamepadY"@,
        JsStandardKey::Hangeul => "Hangeul"@,
        JsStandardKey::Hangul => "Hangul"@,
        JsStandardKey::Hanja => "Hanja"@,
        JsStandardKey::Help => "Help"@,
        JsStandardKey::Home => "Home"@,
        JsStandardKey::Ico00 => "Ico00"@,
        JsStandardKey::IcoClear => "IcoClear"@,
        JsStandardKey::IcoHelp => "IcoHelp"@,
        JsStandardKey::IMEOff => "IMEOff"@,
        JsStandardKey::IMEOn => "IMEOn"@,
        JsStandardKey::Insert => "Insert"@,
        JsStandardKey::Junja => "Junja"@,
        JsStandardKey::Kana => "Kana"@,
        JsStandardKey::Kanji => "Kanji"@,
        JsStandardKey::LaunchApp1 => "LaunchApp1"@,
        JsStandardKey::LaunchApp2 => "LaunchApp2"@,
        JsStandardKey::LaunchMail => "LaunchMail"@,
        JsStandardKey::LaunchMediaSelect => "LaunchMediaSelect"@,
        JsStandardKey::LeftControl => "LeftControl"@,
        JsStandardKey::LeftArrow => "LeftArrow"@,
        JsStandardKey::Linefeed => "Linefeed"@,
        JsStandardKey::LeftAlt => "LeftAlt"@,
        JsStandardKey::LeftShift => "LeftShift"@,
        JsStandardKey::LeftWindows => "LeftWindows"@,
        JsStandardKey::MediaNextTrack => "MediaNextTrack"@,
        JsStandardKey::MediaPlayPause => "MediaPlayPause"@,
        JsStandardKey::MediaPrevTrack => "MediaPrevTrack"@,
        JsStandardKey::MediaStop => "MediaStop"@,
        JsStandardKey::Meta => "Meta"@,
        JsStandardKey::ModeChange => "ModeChange"@,
        JsStandardKey::Multiply => "Multiply"@,
        JsStandardKey::NavigationAccept => "NavigationAccept"@,
        JsStandardKey::NavigationCancel => "NavigationCancel"@,
        JsStandardKey::NavigationDown => "NavigationDown"@,
        JsStandardKey::NavigationLeft => "NavigationLeft"@,
        JsStandardKey::NavigationMenu => "NavigationMenu"@,
        JsStandardKey::NavigationRight => "NavigationRight"@,
        JsStandardKey::NavigationUp => "NavigationUp"@,
        JsStandardKey::NavigationView => "NavigationView"@,
        JsStandardKey::NoName => "NoName"@,
        JsStandardKey::NonConvert => "NonConvert"@,
        JsStandardKey::NoKey => "None"@,
        JsStandardKey::Numlock => "Numlock"@,
        JsStandardKey::Numpad0 => "Numpad0"@,
        JsStandardKey::Numpad1 => "Numpad1"@,
        JsStandardKey::Numpad2 => "Numpad2"@,
        JsStandardKey::Numpad3 => "Numpad3"@,
        JsStandardKey::Numpad4 => "Numpad4"@,
        JsStandardKey::Numpad5 => "Numpad5"@,
        JsStandardKey::Numpad6 => "Numpad6"@,
        JsStandardKey::Numpad7 => "Numpad7"@,
        JsStandardKey::Numpad8 => "Numpad8"@,
        JsStandardKey::Numpad9 => "Numpad9"@,
        JsStandardKey::NumpadEnter => "NumpadEnter"@,
        JsStandardKey::OEM1 => "OEM1"@,
        JsStandardKey::OEM102 => "OEM102"@,
        JsStandardKey::OEM2 => "OEM2"@,
        JsStandardKey::OEM3 => "OEM3"@,
        JsStandardKey::OEM4 => "OEM4"@,
        JsStandardKey::OEM5 => "OEM5"@,
        JsStandardKey::OEM6 => "OEM6"@,
        JsStandardKey::OEM7 => "OEM7"@,
        JsStandardKey::OEM8 => "OEM8"@,
        JsStandardKey::OEMAttn => "OEMAttn"@,
        JsStandardKey::OEMAuto => "OEMAuto"@,
        JsStandardKey::OEMAx => "OEMAx"@,
        JsStandardKey::OEMBacktab => "OEMBacktab"@,
        JsStandardKey::OEMClear => "OEMClear"@,
        JsStandardKey::OEMComma => "OEMComma"@,
        JsStandardKey::OEMCopy => "OEMCopy"@,
        JsStandardKey::OEMCusel => "OEMCusel"@,
        JsStandardKey::OEMEnlw => "OEMEnlw"@,
        JsStandardKey::OEMFinish => "OEMFinish"@,
        JsStandardKey::OEMFJJisho => "OEMFJJisho"@,
        JsStandardKey::OEMFJLoya => "OEMFJLoya"@,
        JsStandardKey::OEMFJMasshou => "OEMFJMasshou"@,
        JsStandardKey::OEMFJRoya => "OEMFJRoya"@,
        JsStandardKey::OEMFJTouroku => "OEMFJTouroku"@,
        JsStandardKey::OEMJump => "OEMJump"@,
        JsStandardKey::OEMMinus => "OEMMinus"@,
        JsStandardKey::OEMNECEqual => "OEMNECEqual"@,
        JsStandardKey::OEMPA1 => "OEMPA1"@,
        JsStandardKey::OEMPA2 => "OEMPA2"@,
        JsStandardKey::OEMPA3 => "OEMPA3"@,
        JsStandardKey::OEMPeriod => "OEMPeriod"@,
        JsStandardKey::OEMPlus => "OEMPlus"@,
        JsStandardKey::OEMReset => "OEMReset"@,
        JsStandardKey::OEMWsctrl => "OEMWsctrl"@,
        JsStandardKey::OptionKey => "Option"@,
        JsStandardKey::PA1 => "PA1"@,
        JsStandardKey::Packet => "Packet"@,
        JsStandardKey::PageDown => "PageDown"@,
        JsStandardKey::PageUp => "PageUp"@,
        JsStandardKey::Pause => "Pause"@,
        JsStandardKey::Play => "Play"@,
        JsStandardKey::PrintScreen => "PrintScreen"@,
        JsStandardKey::Processkey => "Processkey"@,
        JsStandardKey::RightControl => "RightControl"@,
        JsStandardKey::Redo => "Redo"@,
        JsStandardKey::Return => "Return"@,
        JsStandardKey::RightArrow => "RightArrow"@,
        JsStandardKey::RightAlt => "RightAlt"@,
        JsStandardKey::RightShift => "RightShift"@,
        JsStandardKey::RightWindows => "RightWindows"@,
        JsStandardKey::Scroll => "Scroll"@,
        JsStandardKey::ScrollLock => "ScrollLock"@,
        JsStandardKey::Select => "Select"@,
        JsStandardKey::ScriptSwitch => "ScriptSwitch"@,
        JsStandardKey::Separator => "Separator"@,
        JsStandardKey::Shift => "Shift"@,
        JsStandardKey::ShiftLock => "ShiftLock"@,
        JsStandardKey::Sleep => "Sleep"@,
        JsStandardKey::Space => "Space"@,
        JsStandardKey::Subtract => "Subtract"@,
        JsStandardKey::SysReq => "SysReq"@,
        JsStandardKey::Tab => "Tab"@,
        JsStandardKey::Undo => "Undo"@,
        JsStandardKey::UpArrow => "UpArrow"@,
        JsStandardKey::VolumeDown => "VolumeDown"@,
        JsStandardKey::VolumeMute => "VolumeMute"@,
        JsStandardKey::VolumeUp => "VolumeUp"@,
        JsStandardKey::MicrophoneMute => "MicrophoneMute"@,
        JsStandardKey::Zoom => "Zoom"@,
    }
}

/// The standard keys, in the order they are declared.
pub open spec fn standard_keys() -> Seq<JsStandardKey> {
    seq![
        JsStandardKey::Num0,
        JsStandardKey::Num1,
        JsStandardKey::Num2,
        JsStandardKey::Num3,
        JsStandardKey::Num4,
        JsStandardKey::Num5,
        JsStandardKey::Num6,
        JsStandardKey::Num7,
        JsStandardKey::Num8,
        JsStandardKey::Num9,
        JsStandardKey::A,
        JsStandardKey::B,
        JsStandardKey::C,
        JsStandardKey::D,
        JsStandardKey::E,
        JsStandardKey::F,
        JsStandardKey::G,
        JsStandardKey::H,
        JsStandardKey::I,
        JsStandardKey::J,
        JsStandardKey::K,
        JsStandardKey::L,
        JsStandardKey::M,
        JsStandardKey::N,
        JsStandardKey::O,
        JsStandardKey::P,
        JsStandardKey::Q,
        JsStandardKey::R,
        JsStandardKey::S,
        JsStandardKey::T,
        JsStandardKey::U,
        JsStandardKey::V,
        JsStandardKey::W,
        JsStandardKey::X,
        JsStandardKey::Y,
        JsStandardKey::Z,
        JsStandardKey::AbntC1,
        JsStandardKey::AbntC2,
        JsStandardKey::Accept,
        JsStandardKey::Add,
        JsStandardKey::Alt,
        JsStandardKey::Apps,
        JsStandardKey::Attention,
        JsStandardKey::Backspace,
        JsStandardKey::Break,
        JsStandardKey::Begin,
        JsStandardKey::BrowserBack,
        JsStandardKey::BrowserFavorites,
        JsStandardKey::BrowserForward,
        JsStandardKey::BrowserHome,
        JsStandardKey::BrowserRefresh,
        JsStandardKey::BrowserSearch,
        JsStandardKey::BrowserStop,
        JsStandardKey::Cancel,
        JsStandardKey::CapsLock,
        JsStandardKey::Clear,
        JsStandardKey::Control,
        JsStandardKey::Convert,
        JsStandardKey::CursorSelect,
        JsStandardKey::DBEAlphanumeric,
        JsStandardKey::DBECodeinput,
        JsStandardKey::DBEDetermineString,
        JsStandardKey::DBEEnterDLGConversionMode,
        JsStandardKey::DBEEnterIMEConfigMode,
        JsStandardKey::DBEEnterWordRegisterMode,
        JsStandardKey::DBEFlushString,
        JsStandardKey::DBEHiragana,
        JsStandardKey::DBEKatakana,
        JsStandardKey::DBENoCodepoint,
        JsStandardKey::DBENoRoman,
        JsStandardKey::DBERoman,
        JsStandardKey::DBESBCSChar,
        JsStandardKey::DBESChar,
        JsStandardKey::Decimal,
        JsStandardKey::Delete,
        JsStandardKey::Divide,
        JsStandardKey::DownArrow,
        JsStandardKey::End,
        JsStandardKey::Ereof,
        JsStandardKey::Escape,
        JsStandardKey::Execute,
        JsStandardKey::Exsel,
        JsStandardKey::F1,
        JsStandardKey::F2,
        JsStandardKey::F3,
        JsStandardKey::F4,
        JsStandardKey::F5,
        JsStandardKey::F6,
        JsStandardKey::F7,
        JsStandardKey::F8,
        JsStandardKey::F9,
        JsStandardKey::F10,
        JsStandardKey::F11,
        JsStandardKey::F12,
        JsStandardKey::F13,
        JsStandardKey::F14,
        JsStandardKey::F15,
        JsStandardKey::F16,
        JsStandardKey::F17,
        JsStandardKey::F18,
        JsStandardKey::F19,
        JsStandardKey::F20,
        JsStandardKey::F21,
        JsStandardKey::F22,
        JsStandardKey::F23,
        JsStandardKey::F24,
        JsStandardKey::F25,
        JsStandardKey::F26,
        JsStandardKey::F27,
        JsStandardKey::F28,
        JsStandardKey::F29,
        JsStandardKey::F30,
        JsStandardKey::F31,
        JsStandardKey::F32,
        JsStandardKey::F33,
        JsStandardKey::F34,
        JsStandardKey::F35,
        JsStandardKey::Final,
        JsStandardKey::Find,
        JsStandardKey::GamepadA,
        JsStandardKey::GamepadB,
        JsStandardKey::GamepadDPadDown,
        JsStandardKey::GamepadDPadLeft,
        JsStandardKey::GamepadDPadRight,
        JsStandardKey::GamepadDPadUp,
        JsStandardKey::GamepadLeftShoulder,
        JsStandardKey::GamepadLeftThumbstickButton,
        JsStandardKey::GamepadLeftThumbstickDown,
        JsStandardKey::GamepadLeftThumbstickLeft,
        JsStandardKey::GamepadLeftThumbstickRight,
        JsStandardKey::GamepadLeftThumbstickUp,
        JsStandardKey::GamepadLeftTrigger,
        JsStandardKey::GamepadMenu,
        JsStandardKey::GamepadRightShoulder,
        JsStandardKey::GamepadRightThumbstickButton,
        JsStandardKey::GamepadRightThumbstickDown,
        JsStandardKey::GamepadRightThumbstickLeft,
        JsStandardKey::GamepadRightThumbstickRight,
        JsStandardKey::GamepadRightThumbstickUp,
        JsStandardKey::GamepadRightTrigger,
        JsStandardKey::GamepadView,
        JsStandardKey::GamepadX,
        JsStandardKey::GamepadY,
        JsStandardKey::Hangeul,
        JsStandardKey::Hangul,
        JsStandardKey::Hanja,
        JsStandardKey::Help,
        JsStandardKey::Home,
        JsStandardKey::Ico00,
        JsStandardKey::IcoClear,
        JsStandardKey::IcoHelp,
        JsStandardKey::IMEOff,
        JsStandardKey::IMEOn,
        JsStandardKey::Insert,
        JsStandardKey::Junja,
        JsStandardKey::Kana,
        JsStandardKey::Kanji,
        JsStandardKey::LaunchApp1,
        JsStandardKey::LaunchApp2,
        JsStandardKey::LaunchMail,
        JsStandardKey::LaunchMediaSelect,
        JsStandardKey::LeftControl,
        JsStandardKey::LeftArrow,
        JsStandardKey::Linefeed,
        JsStandardKey::LeftAlt,
        JsStandardKey::LeftShift,
        JsStandardKey::LeftWindows,
        JsStandardKey::MediaNextTrack,
        JsStandardKey::MediaPlayPause,
        JsStandardKey::MediaPrevTrack,
        JsStandardKey::MediaStop,
        JsStandardKey::Meta,
        JsStandardKey::ModeChange,
        JsStandardKey::Multiply,
        JsStandardKey::NavigationAccept,
        JsStandardKey::NavigationCancel,
        JsStandardKey::NavigationDown,
        JsStandardKey::NavigationLeft,
        JsStandardKey::NavigationMenu,
        JsStandardKey::NavigationRight,
        JsStandardKey::NavigationUp,
        JsStandardKey::NavigationView,
        JsStandardKey::NoName,
        JsStandardKey::NonConvert,
        JsStandardKey::NoKey,
        JsStandardKey::Numlock,
        JsStandardKey::Numpad0,
        JsStandardKey::Numpad1,
        JsStandardKey::Numpad2,
        JsStandardKey::Numpad3,
        JsStandardKey::Numpad4,
        JsStandardKey::Numpad5,
        JsStandardKey::Numpad6,
        JsStandardKey::Numpad7,
        JsStandardKey::Numpad8,
        JsStandardKey::Numpad9,
        JsStandardKey::NumpadEnter,
        JsStandardKey::OEM1,
        JsStandardKey::OEM102,
        JsStandardKey::OEM2,
        JsStandardKey::OEM3,
        JsStandardKey::OEM4,
        JsStandardKey::OEM5,
        JsStandardKey::OEM6,
        JsStandardKey::OEM7,
        JsStandardKey::OEM8,
        JsStandardKey::OEMAttn,
        JsStandardKey::OEMAuto,
        JsStandardKey::OEMAx,
        JsStandardKey::OEMBacktab,
        JsStandardKey::OEMClear,
        JsStandardKey::OEMComma,
        JsStandardKey::OEMCopy,
        JsStandardKey::OEMCusel,
        JsStandardKey::OEMEnlw,
        JsStandardKey::OEMFinish,
        JsStandardKey::OEMFJJisho,
        JsStandardKey::OEMFJLoya,
        JsStandardKey::OEMFJMasshou,
        JsStandardKey::OEMFJRoya,
        JsStandardKey::OEMFJTouroku,
        JsStandardKey::OEMJump,
        JsStandardKey::OEMMinus,
        JsStandardKey::OEMNECEqual,
        JsStandardKey::OEMPA1,
        JsStandardKey::OEMPA2,
        JsStandardKey::OEMPA3,
        JsStandardKey::OEMPeriod,
        JsStandardKey::OEMPlus,
        JsStandardKey::OEMReset,
        JsStandardKey::OEMWsctrl,
        JsStandardKey::OptionKey,
        JsStandardKey::PA1,
        JsStandardKey::Packet,
        JsStandardKey::PageDown,
        JsStandardKey::PageUp,
        JsStandardKey::Pause,
        JsStandardKey::Play,
        JsStandardKey::PrintScreen,
        JsStandardKey::Processkey,
        JsStandardKey::RightControl,
        JsStandardKey::Redo,
        JsStandardKey::Return,
        JsStandardKey::RightArrow,
        JsStandardKey::RightAlt,
        JsStandardKey::RightShift,
        JsStandardKey::RightWindows,
        JsStandardKey::Scroll,
        JsStandardKey::ScrollLock,
        JsStandardKey::Select,
        JsStandardKey::ScriptSwitch,
        JsStandardKey::Separator,
        JsStandardKey::Shift,
        JsStandardKey::ShiftLock,
        JsStandardKey::Sleep,
        JsStandardKey::Space,
        JsStandardKey::Subtract,
        JsStandardKey::SysReq,
        JsStandardKey::Tab,
        JsStandardKey::Undo,
        JsStandardKey::UpArrow,
        JsStandardKey::VolumeDown,
        JsStandardKey::VolumeMute,
        JsStandardKey::VolumeUp,
        JsStandardKey::MicrophoneMute,
        JsStandardKey::Zoom,
    ]
}

/// The first of `keys` from position `i` on that has the name `name`.
pub open spec fn first_named(keys: Seq<JsStandardKey>, name: Seq<char>, i: int) -> Option<JsStandardKey>
    decreases keys.len() - i,
{
    if i < 0 || i >= keys.len() {
        None
    } else if standard_key_name(keys[i]) == name {
        Some(keys[i])
    } else {
        first_named(keys, name, i + 1)
    }
}

/// The name of a standard key, as a string slice.
fn name_of(k: JsStandardKey) -> (s: &'static str)
    ensures
        s@ == standard_key_name(k),
{
    match k {
        JsStandardKey::Num0 => "Num0",
        JsStandardKey::Num1 => "Num1",
        JsStandardKey::Num2 => "Num2",
        JsStandardKey::Num3 => "Num3",
        JsStandardKey::Num4 => "Num4",
        JsStandardKey::Num5 => "Num5",
        JsStandardKey::Num6 => "Num6",
        JsStandardKey::Num7 => "Num7",
        JsStandardKey::Num8 => "Num8",
        JsStandardKey::Num9 => "Num9",
        JsStandardKey::A => "A",
        JsStandardKey::B => "B",
        JsStandardKey::C => "C",
        JsStandardKey::D => "D",
        JsStandardKey::E => "E",
        JsStandardKey::F => "F",
        JsStandardKey::G => "G",
        JsStandardKey::H => "H",
        JsStandardKey::I => "I",
        JsStandardKey::J => "J",
        JsStandardKey::K => "K",
        JsStandardKey::L => "L",
        JsStandardKey::M => "M",
        JsStandardKey::N => "N",
        JsStandardKey::O => "O",
        JsStandardKey::P => "P",
        JsStandardKey::Q => "Q",
        JsStandardKey::R => "R",
        JsStandardKey::S => "S",
        JsStandardKey::T => "T",
        JsStandardKey::U => "U",
        JsStandardKey::V => "V",
        JsStandardKey::W => "W",
        JsStandardKey::X => "X",
        JsStandardKey::Y => "Y",
        JsStandardKey::Z => "Z",
        JsStandardKey::AbntC1 => "AbntC1",
        JsStandardKey::AbntC2 => "AbntC2",
        JsStandardKey::Accept => "Accept",
        JsStandardKey::Add => "Add",
        JsStandardKey::Alt => "Alt",
        JsStandardKey::Apps => "Apps",
        JsStandardKey::Attention => "Attention",
        JsStandardKey::Backspace => "Backspace",
        JsStandardKey::Break => "Break",
        JsStandardKey::Begin => "Begin",
        JsStandardKey::BrowserBack => "BrowserBack",
        JsStandardKey::BrowserFavorites => "BrowserFavorites",
        JsStandardKey::BrowserForward => "BrowserForward",
        JsStandardKey::BrowserHome => "BrowserHome",
        JsStandardKey::BrowserRefresh => "BrowserRefresh",
        JsStandardKey::BrowserSearch => "BrowserSearch",
        JsStandardKey::BrowserStop => "BrowserStop",
        JsStandardKey::Cancel => "Cancel",
        JsStandardKey::CapsLock => "CapsLock",
        JsStandardKey::Clear => "Clear",
        JsStandardKey::Control => "Control",
        JsStandardKey::Convert => "Convert",
        JsStandardKey::CursorSelect => "CursorSelect",
        JsStandardKey::DBEAlphanumeric => "DBEAlphanumeric",
        JsStandardKey::DBECodeinput => "DBECodeinput",
        JsStandardKey::DBEDetermineString => "DBEDetermineString",
        JsStandardKey::DBEEnterDLGConversionMode => "DBEEnterDLGConversionMode",
        JsStandardKey::DBEEnterIMEConfigMode => "DBEEnterIMEConfigMode",
        JsStandardKey::DBEEnterWordRegisterMode => "DBEEnterWordRegisterMode",
        JsStandardKey::DBEFlushString => "DBEFlushString",
        JsStandardKey::DBEHiragana => "DBEHiragana",
        JsStandardKey::DBEKatakana => "DBEKatakana",
        JsStandardKey::DBENoCodepoint => "DBENoCodepoint",
        JsStandardKey::DBENoRoman => "DBENoRoman",
        JsStandardKey::DBERoman => "DBERoman",
        JsStandardKey::DBESBCSChar => "DBESBCSChar",
        JsStandardKey::DBESChar => "DBESChar",
        JsStandardKey::Decimal => "Decimal",
        JsStandardKey::Delete => "Delete",
        JsStandardKey::Divide => "Divide",
        JsStandardKey::DownArrow => "DownArrow",
        JsStandardKey::End => "End",
        JsStandardKey::Ereof => "Ereof",
        JsStandardKey::Escape => "Escape",
        JsStandardKey::Execute => "Execute",
        JsStandardKey::Exsel => "Exsel",
        JsStandardKey::F1 => "F1",
        JsStandardKey::F2 => "F2",
        JsStandardKey::F3 => "F3",
        JsStandardKey::F4 => "F4",
        JsStandardKey::F5 => "F5",
        JsStandardKey::F6 => "F6",
        JsStandardKey::F7 => "F7",
        JsStandardKey::F8 => "F8",
        JsStandardKey::F9 => "F9",
        JsStandardKey::F10 => "F10",
        JsStandardKey::F11 => "F11",
        JsStandardKey::F12 => "F12",
        JsStandardKey::F13 => "F13",
        JsStandardKey::F14 => "F14",
        JsStandardKey::F15 => "F15",
        JsStandardKey::F16 => "F16",
        JsStandardKey::F17 => "F17",
        JsStandardKey::F18 => "F18",
        JsStandardKey::F19 => "F19",
        JsStandardKey::F20 => "F20",
        JsStandardKey::F21 => "F21",
        JsStandardKey::F22 => "F22",
        JsStandardKey::F23 => "F23",
        JsStandardKey::F24 => "F24",
        JsStandardKey::F25 => "F25",
        JsStandardKey::F26 => "F26",
        JsStandardKey::F27 => "F27",
        JsStandardKey::F28 => "F28",
        JsStandardKey::F29 => "F29",
        JsStandardKey::F30 => "F30",
        JsStandardKey::F31 => "F31",
        JsStandardKey::F32 => "F32",
        JsStandardKey::F33 => "F33",
        JsStandardKey::F34 => "F34",
        JsStandardKey::F35 => "F35",
        JsStandardKey::Final => "Final",
        JsStandardKey::Find => "Find",
        JsStandardKey::GamepadA => "GamepadA",
        JsStandardKey::GamepadB => "GamepadB",
        JsStandardKey::GamepadDPadDown => "GamepadDPadDown",
        JsStandardKey::GamepadDPadLeft => "GamepadDPadLeft",
        JsStandardKey::GamepadDPadRight => "GamepadDPadRight",
        JsStandardKey::GamepadDPadUp => "GamepadDPadUp",
        JsStandardKey::GamepadLeftShoulder => "GamepadLeftShoulder",
        JsStandardKey::GamepadLeftThumbstickButton => "GamepadLeftThumbstickButton",
        JsStandardKey::GamepadLeftThumbstickDown => "GamepadLeftThumbstickDown",
        JsStandardKey::GamepadLeftThumbstickLeft => "GamepadLeftThumbstickLeft",
        JsStandardKey::GamepadLeftThumbstickRight => "GamepadLeftThumbstickRight",
        JsStandardKey::GamepadLeftThumbstickUp => "GamepadLeftThumbstickUp",
        JsStandardKey::GamepadLeftTrigger => "GamepadLeftTrigger",
        JsStandardKey::GamepadMenu => "GamepadMenu",
        JsStandardKey::GamepadRightShoulder => "GamepadRightShoulder",
        JsStandardKey::GamepadRightThumbstickButton => "GamepadRightThumbstickButton",
        JsStandardKey::GamepadRightThumbstickDown => "GamepadRightThumbstickDown",
        JsStandardKey::GamepadRightThumbstickLeft => "GamepadRightThumbstickLeft",
        JsStandardKey::GamepadRightThumbstickRight => "GamepadRightThumbstickRight",
        JsStandardKey::GamepadRightThumbstickUp => "GamepadRightThumbstickUp",
        JsStandardKey::GamepadRightTrigger => "GamepadRightTrigger",
        JsStandardKey::GamepadView => "GamepadView",
        JsStandardKey::GamepadX => "GamepadX",
        JsStandardKey::GamepadY => "GamepadY",
        JsStandardKey::Hangeul => "Hangeul",
        JsStandardKey::Hangul => "Hangul",
        JsStandardKey::Hanja => "Hanja",
        JsStandardKey::Help => "Help",
        JsStandardKey::Home => "Home",
        JsStandardKey::Ico00 => "Ico00",
        JsStandardKey::IcoClear => "IcoClear",
        JsStandardKey::IcoHelp => "IcoHelp",
        JsStandardKey::IMEOff => "IMEOff",
        JsStandardKey::IMEOn => "IMEOn",
        JsStandardKey::Insert => "Insert",
        JsStandardKey::Junja => "Junja",
        JsStandardKey::Kana => "Kana",
        JsStandardKey::Kanji => "Kanji",
        JsStandardKey::LaunchApp1 => "LaunchApp1",
        JsStandardKey::LaunchApp2 => "LaunchApp2",
        JsStandardKey::LaunchMail => "LaunchMail",
        JsStandardKey::LaunchMediaSelect => "LaunchMediaSelect",
        JsStandardKey::LeftControl => "LeftControl",
        JsStandardKey::LeftArrow => "LeftArrow",
        JsStandardKey::Linefeed => "Linefeed",
        JsStandardKey::LeftAlt => "LeftAlt",
        JsStandardKey::LeftShift => "LeftShift",
        JsStandardKey::LeftWindows => "LeftWindows",
        JsStandardKey::MediaNextTrack => "MediaNextTrack",
        JsStandardKey::MediaPlayPause => "MediaPlayPause",
        JsStandardKey::MediaPrevTrack => "MediaPrevTrack",
        JsStandardKey::MediaStop => "MediaStop",
        JsStandardKey::Meta => "Meta",
        JsStandardKey::ModeChange => "ModeChange",
        JsStandardKey::Multiply => "Multiply",
        JsStandardKey::NavigationAccept => "NavigationAccept",
        JsStandardKey::NavigationCancel => "NavigationCancel",
        JsStandardKey::NavigationDown => "NavigationDown",
        JsStandardKey::NavigationLeft => "NavigationLeft",
        JsStandardKey::NavigationMenu => "NavigationMenu",
        JsStandardKey::NavigationRight => "NavigationRight",
        JsStandardKey::NavigationUp => "NavigationUp",
        JsStandardKey::NavigationView => "NavigationView",
        JsStandardKey::NoName => "NoName",
        JsStandardKey::NonConvert => "NonConvert",
        JsStandardKey::NoKey => "None",
        JsStandardKey::Numlock => "Numlock",
        JsStandardKey::Numpad0 => "Numpad0",
        JsStandardKey::Numpad1 => "Numpad1",
        JsStandardKey::Numpad2 => "Numpad2",
        JsStandardKey::Numpad3 => "Numpad3",
        JsStandardKey::Numpad4 => "Numpad4",
        JsStandardKey::Numpad5 => "Numpad5",
        JsStandardKey::Numpad6 => "Numpad6",
        JsStandardKey::Numpad7 => "Numpad7",
        JsStandardKey::Numpad8 => "Numpad8",
        JsStandardKey::Numpad9 => "Numpad9",
        JsStandardKey::NumpadEnter => "NumpadEnter",
        JsStandardKey::OEM1 => "OEM1",
        JsStandardKey::OEM102 => "OEM102",
        JsStandardKey::OEM2 => "OEM2",
        JsStandardKey::OEM3 => "OEM3",
        JsStandardKey::OEM4 => "OEM4",
        JsStandardKey::OEM5 => "OEM5",
        JsStandardKey::OEM6 => "OEM6",
        JsStandardKey::OEM7 => "OEM7",
        JsStandardKey::OEM8 => "OEM8",
        JsStandardKey::OEMAttn => "OEMAttn",
        JsStandardKey::OEMAuto => "OEMAuto",
        JsStandardKey::OEMAx => "OEMAx",
        JsStandardKey::OEMBacktab => "OEMBacktab",
        JsStandardKey::OEMClear => "OEMClear",
        JsStandardKey::OEMComma => "OEMComma",
        JsStandardKey::OEMCopy => "OEMCopy",
        JsStandardKey::OEMCusel => "OEMCusel",
        JsStandardKey::OEMEnlw => "OEMEnlw",
        JsStandardKey::OEMFinish => "OEMFinish",
        JsStandardKey::OEMFJJisho => "OEMFJJisho",
        JsStandardKey::OEMFJLoya => "OEMFJLoya",
        JsStandardKey::OEMFJMasshou => "OEMFJMasshou",
        JsStandardKey::OEMFJRoya => "OEMFJRoya",
        JsStandardKey::OEMFJTouroku => "OEMFJTouroku",
        JsStandardKey::OEMJump => "OEMJump",
        JsStandardKey::OEMMinus => "OEMMinus",
        JsStandardKey::OEMNECEqual => "OEMNECEqual",
        JsStandardKey::OEMPA1 => "OEMPA1",
        JsStandardKey::OEMPA2 => "OEMPA2",
        JsStandardKey::OEMPA3 => "OEMPA3",
        JsStandardKey::OEMPeriod => "OEMPeriod",
        JsStandardKey::OEMPlus => "OEMPlus",
        JsStandardKey::OEMReset => "OEMReset",
        JsStandardKey::OEMWsctrl => "OEMWsctrl",
        JsStandardKey::OptionKey => "Option",
        JsStandardKey::PA1 => "PA1",
        JsStandardKey::Packet => "Packet",
        JsStandardKey::PageDown => "PageDown",
        JsStandardKey::PageUp => "PageUp",
        JsStandardKey::Pause => "Pause",
        JsStandardKey::Play => "Play",
        JsStandardKey::PrintScreen => "PrintScreen",
        JsStandardKey::Processkey => "Processkey",
        JsStandardKey::RightControl => "RightControl",
        JsStandardKey::Redo => "Redo",
        JsStandardKey::Return => "Return",
        JsStandardKey::RightArrow => "RightArrow",
        JsStandardKey::RightAlt => "RightAlt",
        JsStandardKey::RightShift => "RightShift",
        JsStandardKey::RightWindows => "RightWindows",
        JsStandardKey::Scroll => "Scroll",
        JsStandardKey::ScrollLock => "ScrollLock",
        JsStandardKey::Select => "Select",
        JsStandardKey::ScriptSwitch => "ScriptSwitch",
        JsStandardKey::Separator => "Separator",
        JsStandardKey::Shift => "Shift",
        JsStandardKey::ShiftLock => "ShiftLock",
        JsStandardKey::Sleep => "Sleep",
        JsStandardKey::Space => "Space",
        JsStandardKey::Subtract => "Subtract",
        JsStandardKey::SysReq => "SysReq",
        JsStandardKey::Tab => "Tab",
        JsStandardKey::Undo => "Undo",
        JsStandardKey::UpArrow => "UpArrow",
        JsStandardKey::VolumeDown => "VolumeDown",
        JsStandardKey::VolumeMute => "VolumeMute",
        JsStandardKey::VolumeUp => "VolumeUp",
        JsStandardKey::MicrophoneMute => "MicrophoneMute",
        JsStandardKey::Zoom => "Zoom",
    }
}

/// The standard keys, in the order they are declared.
fn all_standard_keys() -> (v: Vec<JsStandardKey>)
    ensures
        v@ == standard_keys(),
{
    let v: Vec<JsStandardKey> = vec![
        JsStandardKey::Num0,
        JsStandardKey::Num1,
        JsStandardKey::Num2,
        JsStandardKey::Num3,
        JsStandardKey::Num4,
        JsStandardKey::Num5,
        JsStandardKey::Num6,
        JsStandardKey::Num7,
        JsStandardKey::Num8,
        JsStandardKey::Num9,
        JsStandardKey::A,
        JsStandardKey::B,
        JsStandardKey::C,
        JsStandardKey::D,
        JsStandardKey::E,
        JsStandardKey::F,
        JsStandardKey::G,
        JsStandardKey::H,
        JsStandardKey::I,
        JsStandardKey::J,
        JsStandardKey::K,
        JsStandardKey::L,
        JsStandardKey::M,
        JsStandardKey::N,
        JsStandardKey::O,
        JsStandardKey::P,
        JsStandardKey::Q,
        JsStandardKey::R,
        JsStandardKey::S,
        JsStandardKey::T,
        JsStandardKey::U,
        JsStandardKey::V,
        JsStandardKey::W,
        JsStandardKey::X,
        JsStandardKey::Y,
        JsStandardKey::Z,
        JsStandardKey::AbntC1,
        JsStandardKey::AbntC2,
        JsStandardKey::Accept,
        JsStandardKey::Add,
        JsStandardKey::Alt,
        JsStandardKey::Apps,
        JsStandardKey::Attention,
        JsStandardKey::Backspace,
        JsStandardKey::Break,
        JsStandardKey::Begin,
        JsStandardKey::BrowserBack,
        JsStandardKey::BrowserFavorites,
        JsStandardKey::BrowserForward,
        JsStandardKey::BrowserHome,
        JsStandardKey::BrowserRefresh,
        JsStandardKey::BrowserSearch,
        JsStandardKey::BrowserStop,
        JsStandardKey::Cancel,
        JsStandardKey::CapsLock,
        JsStandardKey::Clear,
        JsStandardKey::Control,
        JsStandardKey::Convert,
        JsStandardKey::CursorSelect,
        JsStandardKey::DBEAlphanumeric,
        JsStandardKey::DBECodeinput,
        JsStandardKey::DBEDetermineString,
        JsStandardKey::DBEEnterDLGConversionMode,
        JsStandardKey::DBEEnterIMEConfigMode,
        JsStandardKey::DBEEnterWordRegisterMode,
        JsStandardKey::DBEFlushString,
        JsStandardKey::DBEHiragana,
        JsStandardKey::DBEKatakana,
        JsStandardKey::DBENoCodepoint,
        JsStandardKey::DBENoRoman,
        JsStandardKey::DBERoman,
        JsStandardKey::DBESBCSChar,
        JsStandardKey::DBESChar,
        JsStandardKey::Decimal,
        JsStandardKey::Delete,
        JsStandardKey::Divide,
        JsStandardKey::DownArrow,
        JsStandardKey::End,
        JsStandardKey::Ereof,
        JsStandardKey::Escape,
        JsStandardKey::Execute,
        JsStandardKey::Exsel,
        JsStandardKey::F1,
        JsStandardKey::F2,
        JsStandardKey::F3,
        JsStandardKey::F4,
        JsStandardKey::F5,
        JsStandardKey::F6,
        JsStandardKey::F7,
        JsStandardKey::F8,
        JsStandardKey::F9,
        JsStandardKey::F10,
        JsStandardKey::F11,
        JsStandardKey::F12,
        JsStandardKey::F13,
        JsStandardKey::F14,
        JsStandardKey::F15,
        JsStandardKey::F16,
        JsStandardKey::F17,
        JsStandardKey::F18,
        JsStandardKey::F19,
        JsStandardKey::F20,
        JsStandardKey::F21,
        JsStandardKey::F22,
        JsStandardKey::F23,
        JsStandardKey::F24,
        JsStandardKey::F25,
        JsStandardKey::F26,
        JsStandardKey::F27,
        JsStandardKey::F28,
        JsStandardKey::F29,
        JsStandardKey::F30,
        JsStandardKey::F31,
        JsStandardKey::F32,
        JsStandardKey::F33,
        JsStandardKey::F34,
        JsStandardKey::F35,
        JsStandardKey::Final,
        JsStandardKey::Find,
        JsStandardKey::GamepadA,
        JsStandardKey::GamepadB,
        JsStandardKey::GamepadDPadDown,
        JsStandardKey::GamepadDPadLeft,
        JsStandardKey::GamepadDPadRight,
        JsStandardKey::GamepadDPadUp,
        JsStandardKey::GamepadLeftShoulder,
        JsStandardKey::GamepadLeftThumbstickButton,
        JsStandardKey::GamepadLeftThumbstickDown,
        JsStandardKey::GamepadLeftThumbstickLeft,
        JsStandardKey::GamepadLeftThumbstickRight,
        JsStandardKey::GamepadLeftThumbstickUp,
        JsStandardKey::GamepadLeftTrigger,
        JsStandardKey::GamepadMenu,
        JsStandardKey::GamepadRightShoulder,
        JsStandardKey::GamepadRightThumbstickButton,
        JsStandardKey::GamepadRightThumbstickDown,
        JsStandardKey::GamepadRightThumbstickLeft,
        JsStandardKey::GamepadRightThumbstickRight,
        JsStandardKey::GamepadRightThumbstickUp,
        JsStandardKey::GamepadRightTrigger,
        JsStandardKey::GamepadView,
        JsStandardKey::GamepadX,
        JsStandardKey::GamepadY,
        JsStandardKey::Hangeul,
        JsStandardKey::Hangul,
        JsStandardKey::Hanja,
        JsStandardKey::Help,
        JsStandardKey::Home,
        JsStandardKey::Ico00,
        JsStandardKey::IcoClear,
        JsStandardKey::IcoHelp,
        JsStandardKey::IMEOff,
        JsStandardKey::IMEOn,
        JsStandardKey::Insert,
        JsStandardKey::Junja,
        JsStandardKey::Kana,
        JsStandardKey::Kanji,
        JsStandardKey::LaunchApp1,
        JsStandardKey::LaunchApp2,
        JsStandardKey::LaunchMail,
        JsStandardKey::LaunchMediaSelect,
        JsStandardKey::LeftControl,
        JsStandardKey::LeftArrow,
        JsStandardKey::Linefeed,
        JsStandardKey::LeftAlt,
        JsStandardKey::LeftShift,
        JsStandardKey::LeftWindows,
        JsStandardKey::MediaNextTrack,
        JsStandardKey::MediaPlayPause,
        JsStandardKey::MediaPrevTrack,
        JsStandardKey::MediaStop,
        JsStandardKey::Meta,
        JsStandardKey::ModeChange,
        JsStandardKey::Multiply,
        JsStandardKey::NavigationAccept,
        JsStandardKey::NavigationCancel,
        JsStandardKey::NavigationDown,
        JsStandardKey::NavigationLeft,
        JsStandardKey::NavigationMenu,
        JsStandardKey::NavigationRight,
        JsStandardKey::NavigationUp,
        JsStandardKey::NavigationView,
        JsStandardKey::NoName,
        JsStandardKey::NonConvert,
        JsStandardKey::NoKey,
        JsStandardKey::Numlock,
        JsStandardKey::Numpad0,
        JsStandardKey::Numpad1,
        JsStandardKey::Numpad2,
        JsStandardKey::Numpad3,
        JsStandardKey::Numpad4,
        JsStandardKey::Numpad5,
        JsStandardKey::Numpad6,
        JsStandardKey::Numpad7,
        JsStandardKey::Numpad8,
        JsStandardKey::Numpad9,
        JsStandardKey::NumpadEnter,
        JsStandardKey::OEM1,
        JsStandardKey::OEM102,
        JsStandardKey::OEM2,
        JsStandardKey::OEM3,
        JsStandardKey::OEM4,
        JsStandardKey::OEM5,
        JsStandardKey::OEM6,
        JsStandardKey::OEM7,
        JsStandardKey::OEM8,
        JsStandardKey::OEMAttn,
        JsStandardKey::OEMAuto,
        JsStandardKey::OEMAx,
        JsStandardKey::OEMBacktab,
        JsStandardKey::OEMClear,
        JsStandardKey::OEMComma,
        JsStandardKey::OEMCopy,
        JsStandardKey::OEMCusel,
        JsStandardKey::OEMEnlw,
        JsStandardKey::OEMFinish,
        JsStandardKey::OEMFJJisho,
        JsStandardKey::OEMFJLoya,
        JsStandardKey::OEMFJMasshou,
        JsStandardKey::OEMFJRoya,
        JsStandardKey::OEMFJTouroku,
        JsStandardKey::OEMJump,
        JsStandardKey::OEMMinus,
        JsStandardKey::OEMNECEqual,
        JsStandardKey::OEMPA1,
        JsStandardKey::OEMPA2,
        JsStandardKey::OEMPA3,
        JsStandardKey::OEMPeriod,
        JsStandardKey::OEMPlus,
        JsStandardKey::OEMReset,
        JsStandardKey::OEMWsctrl,
        JsStandardKey::OptionKey,
        JsStandardKey::PA1,
        JsStandardKey::Packet,
        JsStandardKey::PageDown,
        JsStandardKey::PageUp,
        JsStandardKey::Pause,
        JsStandardKey::Play,
        JsStandardKey::PrintScreen,
        JsStandardKey::Processkey,
        JsStandardKey::RightControl,
        JsStandardKey::Redo,
        JsStandardKey::Return,
        JsStandardKey::RightArrow,
        JsStandardKey::RightAlt,
        JsStandardKey::RightShift,
        JsStandardKey::RightWindows,
        JsStandardKey::Scroll,
        JsStandardKey::ScrollLock,
        JsStandardKey::Select,
        JsStandardKey::ScriptSwitch,
        JsStandardKey::Separator,
        JsStandardKey::Shift,
        JsStandardKey::ShiftLock,
        JsStandardKey::Sleep,
        JsStandardKey::Space,
        JsStandardKey::Subtract,
        JsStandardKey::SysReq,
        JsStandardKey::Tab,
        JsStandardKey::Undo,
        JsStandardKey::UpArrow,
        JsStandardKey::VolumeDown,
        JsStandardKey::VolumeMute,
        JsStandardKey::VolumeUp,
        JsStandardKey::MicrophoneMute,
        JsStandardKey::Zoom,
    ];
    assert(v@ =~= standard_keys());
    v
}

/// Whether a string holds the same text as a string slice.
fn same_text(a: &String, b: &str) -> (r: bool)
    ensures
        r == (a@ == b@),
{
    let sb = String::from_str(b);
    *a == sb
}

/// A key name that no key answers to.
#[derive(Clone, Copy, Debug, PartialEq, Eq, Structural)]
pub enum KeyNameError {
    /// Neither a standard key's name, nor a single character, nor a key
    /// code.
    InvalidKeyName,
}

impl KeyNameError {
    /// The message of this error.
    pub fn message(&self) -> (m: String)
        ensures
            m@ == "invalid key name"@,
    {
        String::from_str("invalid key name")
    }
}

impl JsStandardKey {
    /// The key's name, as scripts write it.
    pub fn to_display_string(&self) -> (s: String)
        ensures
            s@ == standard_key_name(*self),
    {
        String::from_str(name_of(*self))
    }

    /// The standard key with this name, if any.
    pub fn from_name(name: &str) -> (r: Option<JsStandardKey>)
        ensures
            r == first_named(standard_keys(), name@, 0),
            r matches Some(k) ==> standard_key_name(k) == name@,
    {
        let text = String::from_str(name);
        let all = all_standard_keys();
        let mut i: usize = 0;
        while i < all.len()
            invariant
                i <= all.len(),
                text@ == name@,
                all@ == standard_keys(),
                first_named(standard_keys(), name@, 0) == first_named(standard_keys(), name@, i as int),
            decreases all.len() - i,
        {
            let k = all[i];
            if same_text(&text, name_of(k)) {
                return Some(k);
            }
            i = i + 1;
        }
        None
    }
}

/// The key that a script's text names: the first standard key with that
/// name, else the key typing its one character.
pub open spec fn key_from_text(text: Seq<char>) -> Option<JsKey> {
    match first_named(standard_keys(), text, 0) {
        Some(k) => Some(JsKey::Standard(k)),
        None => if text.len() == 1 {
            Some(JsKey::Unicode(text[0]))
        } else {
            None
        },
    }
}

impl JsKey {
    /// The key a script names with a text: a standard key's name (such as
    /// `Space`), else the key typing its one character (such as `=`).
    pub fn from_text(text: &str) -> (r: Result<JsKey, KeyNameError>)
        ensures
            match key_from_text(text@) {
                Some(k) => r == Ok::<JsKey, KeyNameError>(k),
                None => r == Err::<JsKey, KeyNameError>(KeyNameError::InvalidKeyName),
            },
    {
        match JsStandardKey::from_name(text) {
            Some(k) => Ok(JsKey::Standard(k)),
            None => {
                if text.unicode_len() == 1 {
                    Ok(JsKey::Unicode(text.get_char(0)))
                } else {
                    Err(KeyNameError::InvalidKeyName)
                }
            },
        }
    }

    /// The key a script names with a number: the raw key code, which
    /// cannot be negative.
    pub fn from_number(n: i32) -> (r: Result<JsKey, KeyNameError>)
        ensures
            n >= 0 ==> r == Ok::<JsKey, KeyNameError>(JsKey::Other(n as u32)),
            n < 0 ==> r == Err::<JsKey, KeyNameError>(KeyNameError::InvalidKeyName),
    {
        if n < 0 {
            Err(KeyNameError::InvalidKeyName)
        } else {
            Ok(JsKey::Other(n as u32))
        }
    }
}

} // verus!
