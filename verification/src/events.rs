use vstd::prelude::*;

verus! {

/// What a recognised hotkey asks the desktop layer to do. The number is the
/// 1-based desktop number typed on the keyboard.
#[derive(Debug, Clone, Copy, PartialEq, Eq, Structural)]
pub enum HotkeyAction {
    SwitchToDesktop(u32),
    MoveFocusedAndSwitch(u32),
}

/// Everything that can wake the application's event loop.
#[derive(Debug, Clone, Copy, PartialEq, Eq, Structural)]
pub enum AppEvent {
    Hotkey(HotkeyAction),
    ToggleHooks,
    ToggleStartup,
    Exit,
}

} // verus!
