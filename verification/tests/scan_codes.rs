use livesplit_core::hotkey::windows::scan_code::{
    folded_scan_code, parse_scan_code, resolvable_scan_code, EXTENDED_OFFSET,
};
use livesplit_core::hotkey::KeyCode;

#[test]
fn plain_scan_codes_are_found() {
    assert_eq!(parse_scan_code(0x0001), Some(KeyCode::Escape));
    assert_eq!(parse_scan_code(0x001E), Some(KeyCode::KeyA));
    assert_eq!(parse_scan_code(0x001D), Some(KeyCode::ControlLeft));
    assert_eq!(parse_scan_code(0x0039), Some(KeyCode::Space));
    assert_eq!(parse_scan_code(0x0058), Some(KeyCode::F12));
    assert_eq!(parse_scan_code(0x0076), Some(KeyCode::F24));
    assert_eq!(parse_scan_code(0x007E), Some(KeyCode::NumpadComma));
}

#[test]
fn extended_scan_codes_are_found() {
    assert_eq!(parse_scan_code(0xE048), Some(KeyCode::ArrowUp));
    assert_eq!(parse_scan_code(0xE01C), Some(KeyCode::NumpadEnter));
    assert_eq!(parse_scan_code(0xE01D), Some(KeyCode::ControlRight));
    assert_eq!(parse_scan_code(0xE038), Some(KeyCode::AltRight));
    assert_eq!(parse_scan_code(0xE05B), Some(KeyCode::MetaLeft));
    assert_eq!(parse_scan_code(0xE0F2), Some(KeyCode::Lang1));
}

#[test]
fn extended_keys_differ_from_their_plain_twins() {
    assert_eq!(parse_scan_code(0x0048), Some(KeyCode::Numpad8));
    assert_eq!(parse_scan_code(0xE048), Some(KeyCode::ArrowUp));
    assert_eq!(parse_scan_code(0x001C), Some(KeyCode::Enter));
    assert_eq!(parse_scan_code(0xE01C), Some(KeyCode::NumpadEnter));
    assert_eq!(parse_scan_code(0x0035), Some(KeyCode::Slash));
    assert_eq!(parse_scan_code(0xE035), Some(KeyCode::NumpadDivide));
}

#[test]
fn keys_with_two_scan_codes() {
    assert_eq!(parse_scan_code(0x0036), Some(KeyCode::ShiftRight));
    assert_eq!(parse_scan_code(0xE036), Some(KeyCode::ShiftRight));
    assert_eq!(parse_scan_code(0x0045), Some(KeyCode::Pause));
    assert_eq!(parse_scan_code(0xE046), Some(KeyCode::Pause));
    assert_eq!(parse_scan_code(0x0054), Some(KeyCode::PrintScreen));
    assert_eq!(parse_scan_code(0xE037), Some(KeyCode::PrintScreen));
    assert_eq!(parse_scan_code(0xE01E), Some(KeyCode::LaunchMail));
    assert_eq!(parse_scan_code(0xE06C), Some(KeyCode::LaunchMail));
}

#[test]
fn unknown_scan_codes_are_not_found() {
    assert_eq!(parse_scan_code(0), None);
    assert_eq!(parse_scan_code(0x0055), None);
    assert_eq!(parse_scan_code(0x005C), None);
    assert_eq!(parse_scan_code(0x00FF), None);
    assert_eq!(parse_scan_code(0xE000), None);
    assert_eq!(parse_scan_code(0xE11D), None);
    assert_eq!(parse_scan_code(u32::MAX), None);
}

#[test]
fn the_table_has_all_its_entries() {
    let mut found = 0;
    for value in 0..=0x1_0000u32 {
        if parse_scan_code(value).is_some() {
            found += 1;
            assert!((0x0001..=0x007E).contains(&value) || (0xE008..=0xE0F2).contains(&value));
        }
    }
    assert_eq!(found, 161);
}

#[test]
fn keys_that_produce_characters_have_a_scan_code() {
    assert_eq!(resolvable_scan_code(KeyCode::KeyA), Some(0x001E));
    assert_eq!(resolvable_scan_code(KeyCode::KeyZ), Some(0x002C));
    assert_eq!(resolvable_scan_code(KeyCode::Digit0), Some(0x000B));
    assert_eq!(resolvable_scan_code(KeyCode::Digit1), Some(0x0002));
    assert_eq!(resolvable_scan_code(KeyCode::Backquote), Some(0x0029));
    assert_eq!(resolvable_scan_code(KeyCode::IntlYen), Some(0x007D));
    assert_eq!(resolvable_scan_code(KeyCode::Slash), Some(0x0035));
}

#[test]
fn other_keys_have_no_scan_code_to_resolve() {
    assert_eq!(resolvable_scan_code(KeyCode::F1), None);
    assert_eq!(resolvable_scan_code(KeyCode::ControlLeft), None);
    assert_eq!(resolvable_scan_code(KeyCode::ShiftRight), None);
    assert_eq!(resolvable_scan_code(KeyCode::MediaPlayPause), None);
    assert_eq!(resolvable_scan_code(KeyCode::ArrowUp), None);
    assert_eq!(resolvable_scan_code(KeyCode::Numpad1), None);
    assert_eq!(resolvable_scan_code(KeyCode::Space), None);
    assert_eq!(resolvable_scan_code(KeyCode::Enter), None);
}

#[test]
fn scan_codes_round_trip() {
    let mut resolvable = 0;
    for value in 0..=0x1_0000u32 {
        if let Some(key_code) = parse_scan_code(value) {
            if let Some(back) = resolvable_scan_code(key_code) {
                resolvable += 1;
                assert_eq!(back, value);
                assert_eq!(parse_scan_code(back), Some(key_code));
            }
        }
    }
    assert_eq!(resolvable, 50);
}

#[test]
fn folding_adds_the_offset_for_extended_keys() {
    assert_eq!(EXTENDED_OFFSET, 0xE000);
    assert_eq!(folded_scan_code(0x48, 0), Some(0x48));
    assert_eq!(folded_scan_code(0x48, 1), Some(0xE048));
    assert_eq!(folded_scan_code(0x1D, 1), Some(0xE01D));
    assert_eq!(folded_scan_code(0x1D, 0x80), Some(0x1D));
    assert_eq!(folded_scan_code(0x1D, 0x81), Some(0xE01D));
    assert_eq!(folded_scan_code(0x1D, 0x10), Some(0x1D));
}

#[test]
fn folding_reports_a_missing_scan_code() {
    assert_eq!(folded_scan_code(0, 0), None);
    assert_eq!(folded_scan_code(0, 1), None);
    assert_eq!(folded_scan_code(0, 0x80), None);
}

#[test]
fn folding_a_scan_code_that_is_too_large_finds_no_key() {
    assert_eq!(folded_scan_code(u32::MAX, 1), Some(u32::MAX));
    assert_eq!(folded_scan_code(0xFFFF_2001, 1), Some(u32::MAX));
    assert_eq!(folded_scan_code(0xFFFF_1FFF, 1), Some(u32::MAX));
    assert_eq!(folded_scan_code(0xFFFF_1FFE, 1), Some(0xFFFF_FFFE));
    assert_eq!(folded_scan_code(u32::MAX, 0), Some(u32::MAX));
    assert_eq!(parse_scan_code(u32::MAX), None);
}

#[test]
fn the_extended_flag_is_the_one_of_the_platform() {
    let flag = windows_sys::Win32::UI::WindowsAndMessaging::LLKHF_EXTENDED;
    assert_eq!(folded_scan_code(0x48, flag), Some(0xE048));
    assert_eq!(folded_scan_code(0x48, !flag), Some(0x48));
}
