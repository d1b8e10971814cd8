use vstd::prelude::*;
use windows_sys::Win32::UI::WindowsAndMessaging::LLKHF_EXTENDED;
use crate::hotkey::key_code::KeyCode;

verus! {

/// `LLKHF_EXTENDED` of windows-sys: the bit in the flags of a low-level
/// keyboard event that marks an extended key. The contract gives its value,
/// bit 0.
#[verifier::external_body]
fn extended_flag() -> (r: u32)
    ensures
        r == 1,
{
    LLKHF_EXTENDED
}

/// What is added to the scan code of a key that the keyboard reports in its
/// extended form (the arrow keys, the modifiers on the right, the enter key
/// of the number pad and others), so that it differs from the code of its
/// plain twin.
pub const EXTENDED_OFFSET: u32 = 0xE000;

/// The scan code table: the key that a scan code of PS/2 scan code set 1
/// stands for, the extended form already folded in, or `None` where the
/// table has no key for it. A few keys have two scan codes.
pub open spec fn scan_code_key(value: u32) -> Option<KeyCode> {
    match value {
        0x0001 => Some(KeyCode::Escape),
        0x0002 => Some(KeyCode::Digit1),
        0x0003 => Some(KeyCode::Digit2),
        0x0004 => Some(KeyCode::Digit3),
        0x0005 => Some(KeyCode::Digit4),
        0x0006 => Some(KeyCode::Digit5),
        0x0007 => Some(KeyCode::Digit6),
        0x0008 => Some(KeyCode::Digit7),
        0x0009 => Some(KeyCode::Digit8),
        0x000A => Some(KeyCode::Digit9),
        0x000B => Some(KeyCode::Digit0),
        0x000C => Some(KeyCode::Minus),
        0x000D => Some(KeyCode::Equal),
        0x000E => Some(KeyCode::Backspace),
        0x000F => Some(KeyCode::Tab),
        0x0010 => Some(KeyCode::KeyQ),
        0x0011 => Some(KeyCode::KeyW),
        0x0012 => Some(KeyCode::KeyE),
        0x0013 => Some(KeyCode::KeyR),
        0x0014 => Some(KeyCode::KeyT),
        0x0015 => Some(KeyCode::KeyY),
        0x0016 => Some(KeyCode::KeyU),
        0x0017 => Some(KeyCode::KeyI),
        0x0018 => Some(KeyCode::KeyO),
        0x0019 => Some(KeyCode::KeyP),
        0x001A => Some(KeyCode::BracketLeft),
        0x001B => Some(KeyCode::BracketRight),
        0x001C => Some(KeyCode::Enter),
        0x001D => Some(KeyCode::ControlLeft),
        0x001E => Some(KeyCode::KeyA),
        0x001F => Some(KeyCode::KeyS),
        0x0020 => Some(KeyCode::KeyD),
        0x0021 => Some(KeyCode::KeyF),
        0x0022 => Some(KeyCode::KeyG),
        0x0023 => Some(KeyCode::KeyH),
        0x0024 => Some(KeyCode::KeyJ),
        0x0025 => Some(KeyCode::KeyK),
        0x0026 => Some(KeyCode::KeyL),
        0x0027 => Some(KeyCode::Semicolon),
        0x0028 => Some(KeyCode::Quote),
        0x0029 => Some(KeyCode::Backquote),
        0x002A => Some(KeyCode::ShiftLeft),
        0x002B => Some(KeyCode::Backslash),
        0x002C => Some(KeyCode::KeyZ),
        0x002D => Some(KeyCode::KeyX),
        0x002E => Some(KeyCode::KeyC),
        0x002F => Some(KeyCode::KeyV),
        0x0030 => Some(KeyCode::KeyB),
        0x0031 => Some(KeyCode::KeyN),
        0x0032 => Some(KeyCode::KeyM),
        0x0033 => Some(KeyCode::Comma),
        0x0034 => Some(KeyCode::Period),
        0x0035 => Some(KeyCode::Slash),
        0x0036 => Some(KeyCode::ShiftRight),
        0x0037 => Some(KeyCode::NumpadMultiply),
        0x0038 => Some(KeyCode::AltLeft),
        0x0039 => Some(KeyCode::Space),
        0x003A => Some(KeyCode::CapsLock),
        0x003B => Some(KeyCode::F1),
        0x003C => Some(KeyCode::F2),
        0x003D => Some(KeyCode::F3),
        0x003E => Some(KeyCode::F4),
        0x003F => Some(KeyCode::F5),
        0x0040 => Some(KeyCode::F6),
        0x0041 => Some(KeyCode::F7),
        0x0042 => Some(KeyCode::F8),
        0x0043 => Some(KeyCode::F9),
        0x0044 => Some(KeyCode::F10),
        0x0045 => Some(KeyCode::Pause),
        0x0046 => Some(KeyCode::ScrollLock),
        0x0047 => Some(KeyCode::Numpad7),
        0x0048 => Some(KeyCode::Numpad8),
        0x0049 => Some(KeyCode::Numpad9),
        0x004A => Some(KeyCode::NumpadSubtract),
        0x004B => Some(KeyCode::Numpad4),
        0x004C => Some(KeyCode::Numpad5),
        0x004D => Some(KeyCode::Numpad6),
        0x004E => Some(KeyCode::NumpadAdd),
        0x004F => Some(KeyCode::Numpad1),
        0x0050 => Some(KeyCode::Numpad2),
        0x0051 => Some(KeyCode::Numpad3),
        0x0052 => Some(KeyCode::Numpad0),
        0x0053 => Some(KeyCode::NumpadDecimal),
        0x0054 => Some(KeyCode::PrintScreen),
        0x0056 => Some(KeyCode::IntlBackslash),
        0x0057 => Some(KeyCode::F11),
        0x0058 => Some(KeyCode::F12),
        0x0059 => Some(KeyCode::NumpadEqual),
        0x0064 => Some(KeyCode::F13),
        0x0065 => Some(KeyCode::F14),
        0x0066 => Some(KeyCode::F15),
        0x0067 => Some(KeyCode::F16),
        0x0068 => Some(KeyCode::F17),
        0x0069 => Some(KeyCode::F18),
        0x006A => Some(KeyCode::F19),
        0x006B => Some(KeyCode::F20),
        0x006C => Some(KeyCode::F21),
        0x006D => Some(KeyCode::F22),
        0x006E => Some(KeyCode::F23),
        0x0070 => Some(KeyCode::KanaMode),
        0x0071 => Some(KeyCode::Lang2),
        0x0072 => Some(KeyCode::Lang1),
        0x0073 => Some(KeyCode::IntlRo),
        0x0076 => Some(KeyCode::F24),
        0x0077 => Some(KeyCode::Lang4),
        0x0078 => Some(KeyCode::Lang3),
        0x0079 => Some(KeyCode::Convert),
        0x007B => Some(KeyCode::NonConvert),
        0x007D => Some(KeyCode::IntlYen),
        0x007E => Some(KeyCode::NumpadComma),
        0xE008 => Some(KeyCode::Undo),
        0xE00A => Some(KeyCode::Paste),
        0xE010 => Some(KeyCode::MediaTrackPrevious),
        0xE017 => Some(KeyCode::Cut),
        0xE018 => Some(KeyCode::Copy),
        0xE019 => Some(KeyCode::MediaTrackNext),
        0xE01C => Some(KeyCode::NumpadEnter),
        0xE01D => Some(KeyCode::ControlRight),
        0xE01E => Some(KeyCode::LaunchMail),
        0xE020 => Some(KeyCode::AudioVolumeMute),
        0xE021 => Some(KeyCode::LaunchApp2),
        0xE022 => Some(KeyCode::MediaPlayPause),
        0xE024 => Some(KeyCode::MediaStop),
        0xE02C => Some(KeyCode::Eject),
        0xE02E => Some(KeyCode::AudioVolumeDown),
        0xE030 => Some(KeyCode::AudioVolumeUp),
        0xE032 => Some(KeyCode::BrowserHome),
        0xE035 => Some(KeyCode::NumpadDivide),
        0xE036 => Some(KeyCode::ShiftRight),
        0xE037 => Some(KeyCode::PrintScreen),
        0xE038 => Some(KeyCode::AltRight),
        0xE03B => Some(KeyCode::Help),
        0xE045 => Some(KeyCode::NumLock),
        0xE046 => Some(KeyCode::Pause),
        0xE047 => Some(KeyCode::Home),
        0xE048 => Some(KeyCode::ArrowUp),
        0xE049 => Some(KeyCode::PageUp),
        0xE04B => Some(KeyCode::ArrowLeft),
        0xE04D => Some(KeyCode::ArrowRight),
        0xE04F => Some(KeyCode::End),
        0xE050 => Some(KeyCode::ArrowDown),
        0xE051 => Some(KeyCode::PageDown),
        0xE052 => Some(KeyCode::Insert),
        0xE053 => Some(KeyCode::Delete),
        0xE05B => Some(KeyCode::MetaLeft),
        0xE05C => Some(KeyCode::MetaRight),
        0xE05D => Some(KeyCode::ContextMenu),
        0xE05E => Some(KeyCode::Power),
        0xE05F => Some(KeyCode::Sleep),
        0xE063 => Some(KeyCode::WakeUp),
        0xE065 => Some(KeyCode::BrowserSearch),
        0xE066 => Some(KeyCode::BrowserFavorites),
        0xE067 => Some(KeyCode::BrowserRefresh),
        0xE068 => Some(KeyCode::BrowserStop),
        0xE069 => Some(KeyCode::BrowserForward),
        0xE06A => Some(KeyCode::BrowserBack),
        0xE06B => Some(KeyCode::LaunchApp1),
        0xE06C => Some(KeyCode::LaunchMail),
        0xE06D => Some(KeyCode::MediaSelect),
        0xE0F1 => Some(KeyCode::Lang2),
        0xE0F2 => Some(KeyCode::Lang1),
        _ => None,
    }
}

/// The scan code of the keys that can produce a character (letters, digits
/// and punctuation), and `None` for every other key.
pub open spec fn key_scan_code(key_code: KeyCode) -> Option<u32> {
    match key_code {
        KeyCode::Backquote => Some(0x0029),
        KeyCode::Backslash => Some(0x002B),
        KeyCode::BracketLeft => Some(0x001A),
        KeyCode::BracketRight => Some(0x001B),
        KeyCode::Comma => Some(0x0033),
        KeyCode::Digit1 => Some(0x0002),
        KeyCode::Digit2 => Some(0x0003),
        KeyCode::Digit3 => Some(0x0004),
        KeyCode::Digit4 => Some(0x0005),
        KeyCode::Digit5 => Some(0x0006),
        KeyCode::Digit6 => Some(0x0007),
        KeyCode::Digit7 => Some(0x0008),
        KeyCode::Digit8 => Some(0x0009),
        KeyCode::Digit9 => Some(0x000A),
        KeyCode::Digit0 => Some(0x000B),
        KeyCode::Equal => Some(0x000D),
        KeyCode::IntlBackslash => Some(0x0056),
        KeyCode::IntlRo => Some(0x0073),
        KeyCode::IntlYen => Some(0x007D),
        KeyCode::KeyA => Some(0x001E),
        KeyCode::KeyB => Some(0x0030),
        KeyCode::KeyC => Some(0x002E),
        KeyCode::KeyD => Some(0x0020),
        KeyCode::KeyE => Some(0x0012),
        KeyCode::KeyF => Some(0x0021),
        KeyCode::KeyG => Some(0x0022),
        KeyCode::KeyH => Some(0x0023),
        KeyCode::KeyI => Some(0x0017),
        KeyCode::KeyJ => Some(0x0024),
        KeyCode::KeyK => Some(0x0025),
        KeyCode::KeyL => Some(0x0026),
        KeyCode::KeyM => Some(0x0032),
        KeyCode::KeyN => Some(0x0031),
        KeyCode::KeyO => Some(0x0018),
        KeyCode::KeyP => Some(0x0019),
        KeyCode::KeyQ => Some(0x0010),
        KeyCode::KeyR => Some(0x0013),
        KeyCode::KeyS => Some(0x001F),
        KeyCode::KeyT => Some(0x0014),
        KeyCode::KeyU => Some(0x0016),
        KeyCode::KeyV => Some(0x002F),
        KeyCode::KeyW => Some(0x0011),
        KeyCode::KeyX => Some(0x002D),
        KeyCode::KeyY => Some(0x0015),
        KeyCode::KeyZ => Some(0x002C),
        KeyCode::Minus => Some(0x000C),
        KeyCode::Period => Some(0x0034),
        KeyCode::Quote => Some(0x0028),
        KeyCode::Semicolon => Some(0x0027),
        KeyCode::Slash => Some(0x0035),
        _ => None,
    }
}

/// Whether the flags of a keyboard event mark an extended key.
pub open spec fn spec_is_extended(flags: u32) -> bool {
    flags & 1 != 0
}

/// The scan code of a keyboard event with the extended form folded in: the
/// offset is added for an extended key. A sum that does not fit stays at the
/// largest number, for which the table has no key.
pub open spec fn spec_folded(scan_code: u32, flags: u32) -> u32 {
    if !spec_is_extended(flags) {
        scan_code
    } else if scan_code + EXTENDED_OFFSET > u32::MAX {
        u32::MAX
    } else {
        (scan_code + EXTENDED_OFFSET) as u32
    }
}

/// The number under which the key of a keyboard event is looked up in the
/// scan code table, from the scan code and the flags of the event. `None`
/// says that the event has no scan code (the driver gave a virtual key code
/// only): the caller then asks the system for the scan code that belongs to
/// the virtual key code, and looks that one up.
pub fn folded_scan_code(scan_code: u32, flags: u32) -> (r: Option<u32>)
    ensures
        scan_code == 0 ==> r is None,
        scan_code != 0 ==> r == Some(spec_folded(scan_code, flags)),
{
    if scan_code == 0 {
        None
    } else if flags & extended_flag() != 0 {
        Some(scan_code.saturating_add(EXTENDED_OFFSET))
    } else {
        Some(scan_code)
    }
}

/// Looks a scan code up in the scan code table.
pub fn parse_scan_code(value: u32) -> (r: Option<KeyCode>)
    ensures
        r == scan_code_key(value),
{
    Some(
        match value {
            0x0001 => KeyCode::Escape,
            0x0002 => KeyCode::Digit1,
            0x0003 => KeyCode::Digit2,
            0x0004 => KeyCode::Digit3,
            0x0005 => KeyCode::Digit4,
            0x0006 => KeyCode::Digit5,
            0x0007 => KeyCode::Digit6,
            0x0008 => KeyCode::Digit7,
            0x0009 => KeyCode::Digit8,
            0x000A => KeyCode::Digit9,
            0x000B => KeyCode::Digit0,
            0x000C => KeyCode::Minus,
            0x000D => KeyCode::Equal,
            0x000E => KeyCode::Backspace,
            0x000F => KeyCode::Tab,
            0x0010 => KeyCode::KeyQ,
            0x0011 => KeyCode::KeyW,
            0x0012 => KeyCode::KeyE,
            0x0013 => KeyCode::KeyR,
            0x0014 => KeyCode::KeyT,
            0x0015 => KeyCode::KeyY,
            0x0016 => KeyCode::KeyU,
            0x0017 => KeyCode::KeyI,
            0x0018 => KeyCode::KeyO,
            0x0019 => KeyCode::KeyP,
            0x001A => KeyCode::BracketLeft,
            0x001B => KeyCode::BracketRight,
            0x001C => KeyCode::Enter,
            0x001D => KeyCode::ControlLeft,
            0x001E => KeyCode::KeyA,
            0x001F => KeyCode::KeyS,
            0x0020 => KeyCode::KeyD,
            0x0021 => KeyCode::KeyF,
            0x0022 => KeyCode::KeyG,
            0x0023 => KeyCode::KeyH,
            0x0024 => KeyCode::KeyJ,
            0x0025 => KeyCode::KeyK,
            0x0026 => KeyCode::KeyL,
            0x0027 => KeyCode::Semicolon,
            0x0028 => KeyCode::Quote,
            0x0029 => KeyCode::Backquote,
            0x002A => KeyCode::ShiftLeft,
            0x002B => KeyCode::Backslash,
            0x002C => KeyCode::KeyZ,
            0x002D => KeyCode::KeyX,
            0x002E => KeyCode::KeyC,
            0x002F => KeyCode::KeyV,
            0x0030 => KeyCode::KeyB,
            0x0031 => KeyCode::KeyN,
            0x0032 => KeyCode::KeyM,
            0x0033 => KeyCode::Comma,
            0x0034 => KeyCode::Period,
            0x0035 => KeyCode::Slash,
            0x0036 => KeyCode::ShiftRight,
            0x0037 => KeyCode::NumpadMultiply,
            0x0038 => KeyCode::AltLeft,
            0x0039 => KeyCode::Space,
            0x003A => KeyCode::CapsLock,
            0x003B => KeyCode::F1,
            0x003C => KeyCode::F2,
            0x003D => KeyCode::F3,
            0x003E => KeyCode::F4,
            0x003F => KeyCode::F5,
            0x0040 => KeyCode::F6,
            0x0041 => KeyCode::F7,
            0x0042 => KeyCode::F8,
            0x0043 => KeyCode::F9,
            0x0044 => KeyCode::F10,
            0x0045 => KeyCode::Pause,
            0x0046 => KeyCode::ScrollLock,
            0x0047 => KeyCode::Numpad7,
            0x0048 => KeyCode::Numpad8,
            0x0049 => KeyCode::Numpad9,
            0x004A => KeyCode::NumpadSubtract,
            0x004B => KeyCode::Numpad4,
            0x004C => KeyCode::Numpad5,
            0x004D => KeyCode::Numpad6,
            0x004E => KeyCode::NumpadAdd,
            0x004F => KeyCode::Numpad1,
            0x0050 => KeyCode::Numpad2,
            0x0051 => KeyCode::Numpad3,
            0x0052 => KeyCode::Numpad0,
            0x0053 => KeyCode::NumpadDecimal,
            0x0054 => KeyCode::PrintScreen,
            0x0056 => KeyCode::IntlBackslash,
            0x0057 => KeyCode::F11,
            0x0058 => KeyCode::F12,
            0x0059 => KeyCode::NumpadEqual,
            0x0064 => KeyCode::F13,
            0x0065 => KeyCode::F14,
            0x0066 => KeyCode::F15,
            0x0067 => KeyCode::F16,
            0x0068 => KeyCode::F17,
            0x0069 => KeyCode::F18,
            0x006A => KeyCode::F19,
            0x006B => KeyCode::F20,
            0x006C => KeyCode::F21,
            0x006D => KeyCode::F22,
            0x006E => KeyCode::F23,
            0x0070 => KeyCode::KanaMode,
            0x0071 => KeyCode::Lang2,
            0x0072 => KeyCode::Lang1,
            0x0073 => KeyCode::IntlRo,
            0x0076 => KeyCode::F24,
            0x0077 => KeyCode::Lang4,
            0x0078 => KeyCode::Lang3,
            0x0079 => KeyCode::Convert,
            0x007B => KeyCode::NonConvert,
            0x007D => KeyCode::IntlYen,
            0x007E => KeyCode::NumpadComma,
            0xE008 => KeyCode::Undo,
            0xE00A => KeyCode::Paste,
            0xE010 => KeyCode::MediaTrackPrevious,
            0xE017 => KeyCode::Cut,
            0xE018 => KeyCode::Copy,
            0xE019 => KeyCode::MediaTrackNext,
            0xE01C => KeyCode::NumpadEnter,
            0xE01D => KeyCode::ControlRight,
            0xE01E => KeyCode::LaunchMail,
            0xE020 => KeyCode::AudioVolumeMute,
            0xE021 => KeyCode::LaunchApp2,
            0xE022 => KeyCode::MediaPlayPause,
            0xE024 => KeyCode::MediaStop,
            0xE02C => KeyCode::Eject,
            0xE02E => KeyCode::AudioVolumeDown,
            0xE030 => KeyCode::AudioVolumeUp,
            0xE032 => KeyCode::BrowserHome,
            0xE035 => KeyCode::NumpadDivide,
            0xE036 => KeyCode::ShiftRight,
            0xE037 => KeyCode::PrintScreen,
            0xE038 => KeyCode::AltRight,
            0xE03B => KeyCode::Help,
            0xE045 => KeyCode::NumLock,
            0xE046 => KeyCode::Pause,
            0xE047 => KeyCode::Home,
            0xE048 => KeyCode::ArrowUp,
            0xE049 => KeyCode::PageUp,
            0xE04B => KeyCode::ArrowLeft,
            0xE04D => KeyCode::ArrowRight,
            0xE04F => KeyCode::End,
            0xE050 => KeyCode::ArrowDown,
            0xE051 => KeyCode::PageDown,
            0xE052 => KeyCode::Insert,
            0xE053 => KeyCode::Delete,
            0xE05B => KeyCode::MetaLeft,
            0xE05C => KeyCode::MetaRight,
            0xE05D => KeyCode::ContextMenu,
            0xE05E => KeyCode::Power,
            0xE05F => KeyCode::Sleep,
            0xE063 => KeyCode::WakeUp,
            0xE065 => KeyCode::BrowserSearch,
            0xE066 => KeyCode::BrowserFavorites,
            0xE067 => KeyCode::BrowserRefresh,
            0xE068 => KeyCode::BrowserStop,
            0xE069 => KeyCode::BrowserForward,
            0xE06A => KeyCode::BrowserBack,
            0xE06B => KeyCode::LaunchApp1,
            0xE06C => KeyCode::LaunchMail,
            0xE06D => KeyCode::MediaSelect,
            0xE0F1 => KeyCode::Lang2,
            0xE0F2 => KeyCode::Lang1,
            _ => { return None; },
        },
    )
}

/// The scan code under which a key that can produce a character is found in
/// the scan code table.
pub fn resolvable_scan_code(key_code: KeyCode) -> (r: Option<u32>)
    ensures
        r == key_scan_code(key_code),
{
    Some(
        match key_code {
            KeyCode::Backquote => 0x0029,
            KeyCode::Backslash => 0x002B,
            KeyCode::BracketLeft => 0x001A,
            KeyCode::BracketRight => 0x001B,
            KeyCode::Comma => 0x0033,
            KeyCode::Digit1 => 0x0002,
            KeyCode::Digit2 => 0x0003,
            KeyCode::Digit3 => 0x0004,
            KeyCode::Digit4 => 0x0005,
            KeyCode::Digit5 => 0x0006,
            KeyCode::Digit6 => 0x0007,
            KeyCode::Digit7 => 0x0008,
            KeyCode::Digit8 => 0x0009,
            KeyCode::Digit9 => 0x000A,
            KeyCode::Digit0 => 0x000B,
            KeyCode::Equal => 0x000D,
            KeyCode::IntlBackslash => 0x0056,
            KeyCode::IntlRo => 0x0073,
            KeyCode::IntlYen => 0x007D,
            KeyCode::KeyA => 0x001E,
            KeyCode::KeyB => 0x0030,
            KeyCode::KeyC => 0x002E,
            KeyCode::KeyD => 0x0020,
            KeyCode::KeyE => 0x0012,
            KeyCode::KeyF => 0x0021,
            KeyCode::KeyG => 0x0022,
            KeyCode::KeyH => 0x0023,
            KeyCode::KeyI => 0x0017,
            KeyCode::KeyJ => 0x0024,
            KeyCode::KeyK => 0x0025,
            KeyCode::KeyL => 0x0026,
            KeyCode::KeyM => 0x0032,
            KeyCode::KeyN => 0x0031,
            KeyCode::KeyO => 0x0018,
            KeyCode::KeyP => 0x0019,
            KeyCode::KeyQ => 0x0010,
            KeyCode::KeyR => 0x0013,
            KeyCode::KeyS => 0x001F,
            KeyCode::KeyT => 0x0014,
            KeyCode::KeyU => 0x0016,
            KeyCode::KeyV => 0x002F,
            KeyCode::KeyW => 0x0011,
            KeyCode::KeyX => 0x002D,
            KeyCode::KeyY => 0x0015,
            KeyCode::KeyZ => 0x002C,
            KeyCode::Minus => 0x000C,
            KeyCode::Period => 0x0034,
            KeyCode::Quote => 0x0028,
            KeyCode::Semicolon => 0x0027,
            KeyCode::Slash => 0x0035,
            _ => { return None; },
        },
    )
}

/// Every key that has a scan code of its own for producing a character is
/// found again under that scan code.
pub proof fn law_scan_code_round_trip(key_code: KeyCode)
    requires
        key_scan_code(key_code) is Some,
    ensures
        scan_code_key(key_scan_code(key_code)->0) == Some(key_code),
{
}

/// A key that can produce a character stands in the table once: the scan
/// code under which the table holds it is the one given for it.
pub proof fn law_scan_code_of_key_unique(value: u32, key_code: KeyCode)
    requires
        scan_code_key(value) == Some(key_code),
        key_scan_code(key_code) is Some,
    ensures
        key_scan_code(key_code) == Some(value),
{
}

/// The table holds plain scan codes from 0x01 to 0x7E and extended ones from
/// 0xE008 to 0xE0F2, and nothing else.
pub proof fn law_table_range(value: u32)
    requires
        scan_code_key(value) is Some,
    ensures
        0x0001 <= value <= 0x007E || 0xE008 <= value <= 0xE0F2,
{
}

/// Folding never turns the scan code of an extended key into the number of
/// its plain twin, and a scan code that is too large to fold has no key.
pub proof fn law_folded(scan_code: u32, flags: u32)
    ensures
        !spec_is_extended(flags) ==> spec_folded(scan_code, flags) == scan_code,
        spec_is_extended(flags) && scan_code + EXTENDED_OFFSET <= u32::MAX ==> spec_folded(
            scan_code,
            flags,
        ) == scan_code + EXTENDED_OFFSET,
        spec_is_extended(flags) && scan_code + EXTENDED_OFFSET > u32::MAX ==> scan_code_key(
            spec_folded(scan_code, flags),
        ) is None,
{
}

} // verus!
