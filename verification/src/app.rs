use vstd::prelude::*;

use crate::config::AppConfig;
use crate::events::{AppEvent, HotkeyAction};

verus! {

/// Outside work that the application's event loop performs for an event.
#[derive(Debug, Clone, Copy, PartialEq, Eq)]
pub enum AppAction {
    /// Add the program to the user's autostart list (`true`) or take it out.
    SetStartup(bool),
    /// Show the tray icon with its menu.
    ShowTray,
    /// Install the keyboard hook.
    StartHook,
    /// Remove the keyboard hook.
    StopHook,
    /// Write the settings to the settings file.
    SaveConfig(AppConfig),
    /// Carry out a hotkey action on the virtual desktops (see `desktop::execute`).
    ExecuteDesktop(HotkeyAction),
}

/// The actions for one event, to be performed in order, and whether the loop ends.
pub struct AppStep {
    pub actions: Vec<AppAction>,
    pub exit: bool,
}

/// The settings used when none can be loaded.
pub open spec fn default_config() -> AppConfig {
    AppConfig { hooks_enabled: true, autostart_enabled: true }
}

/// Whether a failure of the action ends the program with that error. A failed
/// desktop action is only reported; every other failure is fatal.
pub open spec fn spec_aborts_on_failure(action: AppAction) -> bool {
    !(action is ExecuteDesktop)
}

/// What the program does before it waits for events.
pub open spec fn startup_actions(config: AppConfig) -> Seq<AppAction> {
    seq![AppAction::SetStartup(config.autostart_enabled), AppAction::ShowTray] + if config.hooks_enabled {
        seq![AppAction::StartHook]
    } else {
        Seq::<AppAction>::empty()
    }
}

/// One turn of the event loop: the settings after the event, the actions, and
/// whether the loop ends.
pub open spec fn run_spec(config: AppConfig, event: AppEvent) -> (AppConfig, Seq<AppAction>, bool) {
    match event {
        AppEvent::Hotkey(action) => (
            config,
            if config.hooks_enabled {
                seq![AppAction::ExecuteDesktop(action)]
            } else {
                Seq::<AppAction>::empty()
            },
            false,
        ),
        AppEvent::ToggleHooks => {
            let next = AppConfig { hooks_enabled: !config.hooks_enabled, ..config };
            (
                next,
                seq![
                    if next.hooks_enabled { AppAction::StartHook } else { AppAction::StopHook },
                    AppAction::SaveConfig(next),
                ],
                false,
            )
        },
        AppEvent::ToggleStartup => {
            let next = AppConfig { autostart_enabled: !config.autostart_enabled, ..config };
            (
                next,
                seq![AppAction::SetStartup(next.autostart_enabled), AppAction::SaveConfig(next)],
                false,
            )
        },
        AppEvent::Exit => (config, Seq::<AppAction>::empty(), true),
    }
}

impl AppAction {
    /// Whether a failure of this action ends the program.
    pub fn aborts_on_failure(&self) -> (r: bool)
        ensures
            r == spec_aborts_on_failure(*self),
    {
        match self {
            AppAction::ExecuteDesktop(_) => false,
            _ => true,
        }
    }
}

/// The settings the program runs with, from what loading the settings file
/// gave (`None` when there is no file or it cannot be read or parsed), and
/// what it does before it waits for events.
pub fn startup(loaded: Option<AppConfig>) -> (r: (AppConfig, Vec<AppAction>))
    ensures
        r.0 == (match loaded {
            Some(config) => config,
            None => default_config(),
        }),
        r.1@ == startup_actions(r.0),
        r.1@.contains(AppAction::ShowTray),
{
    proof {
        law_startup_shows_tray(match loaded {
            Some(config) => config,
            None => default_config(),
        });
    }
    let config = match loaded {
        Some(config) => config,
        None => AppConfig::default(),
    };
    let mut actions: Vec<AppAction> = Vec::new();
    actions.push(AppAction::SetStartup(config.autostart_enabled));
    actions.push(AppAction::ShowTray);
    if config.hooks_enabled {
        actions.push(AppAction::StartHook);
    }
    proof {
        assert(actions@ =~= startup_actions(config));
    }
    (config, actions)
}

/// One turn of the application's event loop: hotkeys are carried out only
/// while the hooks are enabled; the two toggles flip their setting, apply it
/// and save the settings; `Exit` ends the loop.
pub fn run(config: &mut AppConfig, event: AppEvent) -> (r: AppStep)
    ensures
        (*final(config), r.actions@, r.exit) == run_spec(*old(config), event),
{
    let mut actions: Vec<AppAction> = Vec::new();
    match event {
        AppEvent::Hotkey(action) => {
            if config.hooks_enabled {
                actions.push(AppAction::ExecuteDesktop(action));
            }
        },
        AppEvent::ToggleHooks => {
            config.hooks_enabled = !config.hooks_enabled;
            if config.hooks_enabled {
                actions.push(AppAction::StartHook);
            } else {
                actions.push(AppAction::StopHook);
            }
            actions.push(AppAction::SaveConfig(*config));
        },
        AppEvent::ToggleStartup => {
            config.autostart_enabled = !config.autostart_enabled;
            actions.push(AppAction::SetStartup(config.autostart_enabled));
            actions.push(AppAction::SaveConfig(*config));
        },
        AppEvent::Exit => {
            return AppStep { actions, exit: true };
        },
    }
    proof {
        assert(actions@ =~= run_spec(*old(config), event).1);
    }
    AppStep { actions, exit: false }
}

/// Whether the keyboard hook is installed after performing the actions, when
/// it was `running` before.
pub open spec fn hook_after(running: bool, actions: Seq<AppAction>) -> bool
    decreases actions.len(),
{
    if actions.len() == 0 {
        running
    } else {
        let next = match actions[0] {
            AppAction::StartHook => true,
            AppAction::StopHook => false,
            _ => running,
        };
        hook_after(next, actions.drop_first())
    }
}

/// Whether the program is in the autostart list after performing the
/// actions, when it was `registered` before.
pub open spec fn registered_after(registered: bool, actions: Seq<AppAction>) -> bool
    decreases actions.len(),
{
    if actions.len() == 0 {
        registered
    } else {
        let next = match actions[0] {
            AppAction::SetStartup(on) => on,
            _ => registered,
        };
        registered_after(next, actions.drop_first())
    }
}

proof fn lemma_after_seq(running: bool, registered: bool, actions: Seq<AppAction>)
    requires
        actions.len() <= 3,
    ensures
        hook_after(running, actions) == if actions.len() >= 1 && hook_effect(actions.last()) is Some {
            hook_effect(actions.last()).unwrap()
        } else if actions.len() >= 2 && hook_effect(actions[actions.len() - 2]) is Some {
            hook_effect(actions[actions.len() - 2]).unwrap()
        } else if actions.len() >= 3 && hook_effect(actions[0]) is Some {
            hook_effect(actions[0]).unwrap()
        } else {
            running
        },
        registered_after(registered, actions) == if actions.len() >= 1
            && startup_effect(actions.last()) is Some {
            startup_effect(actions.last()).unwrap()
        } else if actions.len() >= 2 && startup_effect(actions[actions.len() - 2]) is Some {
            startup_effect(actions[actions.len() - 2]).unwrap()
        } else if actions.len() >= 3 && startup_effect(actions[0]) is Some {
            startup_effect(actions[0]).unwrap()
        } else {
            registered
        },
    decreases actions.len(),
{
    if actions.len() > 0 {
        let rest = actions.drop_first();
        let h = match actions[0] {
            AppAction::StartHook => true,
            AppAction::StopHook => false,
            _ => running,
        };
        let r = match actions[0] {
            AppAction::SetStartup(on) => on,
            _ => registered,
        };
        lemma_after_seq(h, r, rest);
        if actions.len() >= 2 {
            assert(rest.last() == actions.last());
        }
        if actions.len() == 3 {
            assert(rest[0] == actions[1]);
        }
    }
}

/// The effect of one action on whether the hook is installed.
pub open spec fn hook_effect(action: AppAction) -> Option<bool> {
    match action {
        AppAction::StartHook => Some(true),
        AppAction::StopHook => Some(false),
        _ => None,
    }
}

/// The effect of one action on whether the program is in the autostart list.
pub open spec fn startup_effect(action: AppAction) -> Option<bool> {
    match action {
        AppAction::SetStartup(on) => Some(on),
        _ => None,
    }
}

/// After the start the keyboard hook is installed exactly when the hotkeys are
/// enabled, and the autostart entry matches the setting, whatever held before.
pub proof fn law_startup_applies_settings(config: AppConfig, registered: bool)
    ensures
        hook_after(false, startup_actions(config)) == config.hooks_enabled,
        registered_after(registered, startup_actions(config)) == config.autostart_enabled,
{
    lemma_after_seq(false, registered, startup_actions(config));
}

/// Every turn of the loop keeps the keyboard hook installed exactly while the
/// hotkeys are enabled, and the autostart entry in line with its setting.
pub proof fn law_run_keeps_settings_applied(config: AppConfig, event: AppEvent)
    ensures
        hook_after(config.hooks_enabled, run_spec(config, event).1) == run_spec(config, event).0.hooks_enabled,
        registered_after(config.autostart_enabled, run_spec(config, event).1) == run_spec(
            config,
            event,
        ).0.autostart_enabled,
{
    lemma_after_seq(config.hooks_enabled, config.autostart_enabled, run_spec(config, event).1);
}

/// Hotkeys are carried out exactly while they are enabled, and never change
/// the settings or end the loop.
pub proof fn law_hotkeys_gated(config: AppConfig, action: HotkeyAction)
    ensures
        run_spec(config, AppEvent::Hotkey(action)).0 == config,
        !run_spec(config, AppEvent::Hotkey(action)).2,
        run_spec(config, AppEvent::Hotkey(action)).1.contains(AppAction::ExecuteDesktop(action))
            <==> config.hooks_enabled,
{
    let actions = run_spec(config, AppEvent::Hotkey(action)).1;
    if config.hooks_enabled {
        assert(actions[0] == AppAction::ExecuteDesktop(action));
    }
}

/// Toggling a setting twice restores the settings.
pub proof fn law_toggle_twice_restores(config: AppConfig)
    ensures
        run_spec(run_spec(config, AppEvent::ToggleHooks).0, AppEvent::ToggleHooks).0 == config,
        run_spec(run_spec(config, AppEvent::ToggleStartup).0, AppEvent::ToggleStartup).0 == config,
{
}

/// Whenever a turn changes the settings, its last action saves the new
/// settings; only the two toggles change them, and only `Exit` ends the loop.
pub proof fn law_changes_are_saved(config: AppConfig, event: AppEvent)
    ensures
        run_spec(config, event).0 != config ==> {
            &&& run_spec(config, event).1.len() > 0
            &&& run_spec(config, event).1.last() == AppAction::SaveConfig(run_spec(config, event).0)
            &&& (event is ToggleHooks || event is ToggleStartup)
        },
        run_spec(config, event).2 <==> event is Exit,
{
}

/// Whatever the settings, the start applies the autostart setting first,
/// then shows the tray icon exactly once (it is the only way to toggle the
/// settings or exit), then installs the hook exactly when hotkeys are
/// enabled; it never removes the hook, saves settings or acts on a desktop.
pub proof fn law_startup_shows_tray(config: AppConfig)
    ensures
        startup_actions(config)[0] == AppAction::SetStartup(config.autostart_enabled),
        startup_actions(config)[1] == AppAction::ShowTray,
        startup_actions(config).contains(AppAction::ShowTray),
        forall|i: int|
            0 <= i < startup_actions(config).len() && #[trigger] startup_actions(config)[i] == AppAction::ShowTray
                ==> i == 1,
        startup_actions(config).contains(AppAction::StartHook) <==> config.hooks_enabled,
        startup_actions(config).len() == if config.hooks_enabled { 3int } else { 2int },
{
    let acts = startup_actions(config);
    assert(acts[1] == AppAction::ShowTray);
    if config.hooks_enabled {
        assert(acts[2] == AppAction::StartHook);
    } else {
        assert(!acts.contains(AppAction::StartHook)) by {
            if acts.contains(AppAction::StartHook) {
                let i = choose|i: int| 0 <= i < acts.len() && acts[i] == AppAction::StartHook;
                assert(i == 0 || i == 1);
            }
        }
    }
}

/// What each turn may do: a hotkey only carries out that very hotkey (once,
/// and only while enabled); toggling the hooks only starts or stops the hook
/// and saves; toggling autostart only updates the autostart entry and saves;
/// `Exit` does nothing but end the loop. No turn does more than two things,
/// and only the toggles save.
pub proof fn law_turn_actions_confined(config: AppConfig, event: AppEvent)
    ensures
        run_spec(config, event).1.len() <= 2,
        forall|i: int|
            0 <= i < run_spec(config, event).1.len() ==> match #[trigger] run_spec(config, event).1[i] {
                AppAction::ExecuteDesktop(a) => event == AppEvent::Hotkey(a) && config.hooks_enabled
                    && run_spec(config, event).1.len() == 1,
                AppAction::StartHook => event is ToggleHooks && !config.hooks_enabled && i == 0,
                AppAction::StopHook => event is ToggleHooks && config.hooks_enabled && i == 0,
                AppAction::SetStartup(on) => event is ToggleStartup && on == !config.autostart_enabled
                    && i == 0,
                AppAction::SaveConfig(saved) => (event is ToggleHooks || event is ToggleStartup) && i == 1
                    && saved == run_spec(config, event).0,
                AppAction::ShowTray => false,
            },
        event is Exit ==> run_spec(config, event).1.len() == 0,
{
}

} // verus!
