use vdesk::app::{run, startup, AppAction};
use vdesk::config::AppConfig;
use vdesk::events::{AppEvent, HotkeyAction};

fn cfg(hooks_enabled: bool, autostart_enabled: bool) -> AppConfig {
    AppConfig { hooks_enabled, autostart_enabled }
}

#[test]
fn default_config_enables_everything() {
    assert_eq!(AppConfig::default(), cfg(true, true));
}

#[test]
fn startup_uses_loaded_or_default_settings() {
    let (config, actions) = startup(None);
    assert_eq!(config, cfg(true, true));
    assert_eq!(actions, vec![AppAction::SetStartup(true), AppAction::ShowTray, AppAction::StartHook]);
    let (config, actions) = startup(Some(cfg(false, false)));
    assert_eq!(config, cfg(false, false));
    assert_eq!(actions, vec![AppAction::SetStartup(false), AppAction::ShowTray]);
}

#[test]
fn hotkeys_only_while_enabled() {
    let mut config = cfg(true, false);
    let step = run(&mut config, AppEvent::Hotkey(HotkeyAction::SwitchToDesktop(2)));
    assert_eq!(step.actions, vec![AppAction::ExecuteDesktop(HotkeyAction::SwitchToDesktop(2))]);
    assert!(!step.exit);
    let mut config = cfg(false, false);
    let step = run(&mut config, AppEvent::Hotkey(HotkeyAction::MoveFocusedAndSwitch(2)));
    assert!(step.actions.is_empty());
    assert_eq!(config, cfg(false, false));
}

#[test]
fn toggle_hooks_twice_restores() {
    let mut config = cfg(true, true);
    let step = run(&mut config, AppEvent::ToggleHooks);
    assert_eq!(config, cfg(false, true));
    assert_eq!(step.actions, vec![AppAction::StopHook, AppAction::SaveConfig(cfg(false, true))]);
    let step = run(&mut config, AppEvent::ToggleHooks);
    assert_eq!(config, cfg(true, true));
    assert_eq!(step.actions, vec![AppAction::StartHook, AppAction::SaveConfig(cfg(true, true))]);
}

#[test]
fn toggle_startup_applies_and_saves() {
    let mut config = cfg(true, true);
    let step = run(&mut config, AppEvent::ToggleStartup);
    assert_eq!(config, cfg(true, false));
    assert_eq!(step.actions, vec![AppAction::SetStartup(false), AppAction::SaveConfig(cfg(true, false))]);
    run(&mut config, AppEvent::ToggleStartup);
    assert_eq!(config, cfg(true, true));
}

#[test]
fn exit_ends_the_loop() {
    let mut config = cfg(true, true);
    let step = run(&mut config, AppEvent::Exit);
    assert!(step.exit);
    assert!(step.actions.is_empty());
    assert_eq!(config, cfg(true, true));
}

#[test]
fn only_desktop_failures_are_survivable() {
    assert!(!AppAction::ExecuteDesktop(HotkeyAction::SwitchToDesktop(1)).aborts_on_failure());
    assert!(AppAction::StartHook.aborts_on_failure());
    assert!(AppAction::StopHook.aborts_on_failure());
    assert!(AppAction::ShowTray.aborts_on_failure());
    assert!(AppAction::SetStartup(true).aborts_on_failure());
    assert!(AppAction::SaveConfig(cfg(true, true)).aborts_on_failure());
}
