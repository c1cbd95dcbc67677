use vstd::prelude::*;

verus! {

/// The settings tab's own state: whether the toggle hotkey is being
/// rebound, and the last message shown (with whether it reports success).
#[derive(Debug, Clone)]
pub struct SettingsState {
    pub capturing_toggle: bool,
    pub feedback: Option<(String, bool)>,
}

impl Default for SettingsState {
    /// Not capturing, no message.
    fn default() -> (r: Self)
        ensures
            !r.capturing_toggle,
            r.feedback is None,
    {
        SettingsState { capturing_toggle: false, feedback: None }
    }
}

/// A change asked for on the settings tab.
#[derive(Debug, Clone, Copy, PartialEq, Eq, Structural)]
pub enum SettingsAction {
    SetAutostart(bool),
    SetCloseToTray(bool),
    SetStartMinimized(bool),
    SetResizableWindow(bool),
}

} // verus!
