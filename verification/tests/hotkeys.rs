use vdesk::events::HotkeyAction;
use vdesk::hotkeys::{
    digit_from_vk, is_win_key, HookState, KeyEvent, KeyVerdict, HC_ACTION, VK_LWIN, VK_RWIN, WM_KEYDOWN,
    WM_KEYUP, WM_SYSKEYDOWN, WM_SYSKEYUP,
};

fn key(message: u32, vk_code: u32, shift_down: bool) -> KeyEvent {
    KeyEvent { code: HC_ACTION, message, vk_code, shift_down }
}

const PASS: KeyVerdict = KeyVerdict { suppress: false, hotkey: None };
const SWALLOW: KeyVerdict = KeyVerdict { suppress: true, hotkey: None };

#[test]
fn digit_keys_map_to_desktop_numbers() {
    assert_eq!(digit_from_vk(0x31), Some(1));
    assert_eq!(digit_from_vk(0x35), Some(5));
    assert_eq!(digit_from_vk(0x39), Some(9));
    assert_eq!(digit_from_vk(0x30), None);
    assert_eq!(digit_from_vk(0x3A), None);
    assert_eq!(digit_from_vk(0x61), None);
    assert_eq!(digit_from_vk(u32::MAX), None);
}

#[test]
fn windows_keys_are_recognised() {
    assert!(is_win_key(0x5B));
    assert!(is_win_key(0x5C));
    assert!(!is_win_key(0x5D));
    assert!(!is_win_key(0x31));
}

#[test]
fn decode_needs_the_windows_key() {
    let mut hook = HookState::new();
    assert_eq!(hook.decode_hotkey(0x32, false), None);
    hook.process_key(key(WM_KEYDOWN, VK_LWIN, false));
    assert!(hook.win_pressed());
    assert_eq!(hook.decode_hotkey(0x32, false), Some(HotkeyAction::SwitchToDesktop(2)));
    assert_eq!(hook.decode_hotkey(0x32, true), Some(HotkeyAction::MoveFocusedAndSwitch(2)));
    assert_eq!(hook.decode_hotkey(0x41, false), None);
}

#[test]
fn win_press_is_swallowed() {
    let mut hook = HookState::new();
    assert_eq!(hook.process_key(key(WM_KEYDOWN, VK_RWIN, false)), SWALLOW);
    assert!(hook.win_pressed());
    let mut hook = HookState::new();
    assert_eq!(hook.process_key(key(WM_SYSKEYDOWN, VK_LWIN, false)), SWALLOW);
    assert!(hook.win_pressed());
}

#[test]
fn win_release_without_hotkey_is_handed_on() {
    let mut hook = HookState::new();
    hook.process_key(key(WM_KEYDOWN, VK_LWIN, false));
    assert_eq!(hook.process_key(key(WM_KEYUP, VK_LWIN, false)), PASS);
    assert!(!hook.win_pressed());
}

#[test]
fn win_release_after_hotkey_is_swallowed_once() {
    let mut hook = HookState::new();
    hook.process_key(key(WM_KEYDOWN, VK_LWIN, false));
    let v = hook.process_key(key(WM_KEYDOWN, 0x33, false));
    assert_eq!(v, KeyVerdict { suppress: true, hotkey: Some(HotkeyAction::SwitchToDesktop(3)) });
    assert_eq!(hook.process_key(key(WM_KEYUP, 0x33, false)), SWALLOW);
    assert_eq!(hook.process_key(key(WM_KEYUP, VK_LWIN, false)), SWALLOW);
    assert!(!hook.win_pressed());
    hook.process_key(key(WM_KEYDOWN, VK_LWIN, false));
    assert_eq!(hook.process_key(key(WM_SYSKEYUP, VK_LWIN, false)), PASS);
}

#[test]
fn hotkey_reported_once_per_press() {
    let mut hook = HookState::new();
    hook.process_key(key(WM_KEYDOWN, VK_LWIN, false));
    let first = hook.process_key(key(WM_KEYDOWN, 0x37, true));
    assert_eq!(first, KeyVerdict { suppress: true, hotkey: Some(HotkeyAction::MoveFocusedAndSwitch(7)) });
    assert_eq!(hook.process_key(key(WM_KEYDOWN, 0x37, true)), SWALLOW);
    assert_eq!(hook.process_key(key(WM_KEYUP, 0x37, true)), SWALLOW);
    assert_eq!(hook.process_key(key(WM_KEYDOWN, 0x37, true)), first);
}

#[test]
fn digit_release_after_win_release_is_still_swallowed() {
    let mut hook = HookState::new();
    hook.process_key(key(WM_KEYDOWN, VK_LWIN, false));
    hook.process_key(key(WM_KEYDOWN, 0x31, false));
    assert_eq!(hook.process_key(key(WM_KEYUP, VK_LWIN, false)), SWALLOW);
    assert_eq!(hook.process_key(key(WM_KEYUP, 0x31, false)), SWALLOW);
    assert_eq!(hook.process_key(key(WM_KEYUP, 0x31, false)), PASS);
}

#[test]
fn other_codes_pass_through() {
    let mut hook = HookState::new();
    let e = KeyEvent { code: 3, message: WM_KEYDOWN, vk_code: VK_LWIN, shift_down: false };
    assert_eq!(hook.process_key(e), PASS);
    assert!(!hook.win_pressed());
}

#[test]
fn plain_keys_pass_through() {
    let mut hook = HookState::new();
    assert_eq!(hook.process_key(key(WM_KEYDOWN, 0x33, false)), PASS);
    assert_eq!(hook.process_key(key(WM_KEYUP, 0x33, false)), PASS);
    assert_eq!(hook.process_key(key(WM_KEYDOWN, 0x41, false)), PASS);
    hook.process_key(key(WM_KEYDOWN, VK_LWIN, false));
    assert_eq!(hook.process_key(key(WM_KEYDOWN, 0x30, false)), PASS);
    assert_eq!(hook.process_key(key(0x0200, 0x33, false)), PASS);
}

#[test]
fn mark_and_unmark_report_membership() {
    let mut hook = HookState::new();
    assert!(hook.mark_key_consumed(0x34));
    assert!(!hook.mark_key_consumed(0x34));
    assert!(hook.unmark_key_consumed(0x34));
    assert!(!hook.unmark_key_consumed(0x34));
}

#[test]
fn many_auto_repeats_report_once() {
    let mut hook = HookState::new();
    hook.process_key(key(WM_KEYDOWN, VK_LWIN, false));
    let first = hook.process_key(key(WM_KEYDOWN, 0x33, false));
    assert_eq!(first, KeyVerdict { suppress: true, hotkey: Some(HotkeyAction::SwitchToDesktop(3)) });
    for _ in 0..5 {
        assert_eq!(hook.process_key(key(WM_KEYDOWN, 0x33, false)), SWALLOW);
    }
    assert_eq!(hook.process_key(key(WM_KEYUP, 0x33, false)), SWALLOW);
    assert!(hook.mark_key_consumed(0x33));
}
