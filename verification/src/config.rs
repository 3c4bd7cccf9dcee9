use vstd::prelude::*;

verus! {

/// The user's settings: whether the Win+digit hotkeys are active, and whether
/// the program starts with the user session.
#[derive(Debug, Clone, Copy, PartialEq, Eq, Structural)]
pub struct AppConfig {
    pub hooks_enabled: bool,
    pub autostart_enabled: bool,
}

impl Default for AppConfig {
    /// Both settings on, as on a first start.
    fn default() -> (r: Self)
        ensures
            r.hooks_enabled,
            r.autostart_enabled,
    {
        AppConfig { hooks_enabled: true, autostart_enabled: true }
    }
}

} // verus!
