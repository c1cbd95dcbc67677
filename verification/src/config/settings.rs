use vstd::prelude::*;

use crate::engine::command::HotkeyBinding;
use crate::ui::theme::Theme;

verus! {

/// Schema number of the settings file.
pub const SETTINGS_SCHEMA: u32 = 1;

/// Virtual-key code of F6, the default toggle hotkey.
pub const VK_F6: u16 = 0x75;

/// Virtual-key code of F8, the default macro-record hotkey.
pub const VK_F8: u16 = 0x77;

/// Persisted application settings.
#[derive(Debug, Clone, Copy, PartialEq, Eq, Structural)]
pub struct Settings {
    pub schema: u32,
    pub autostart: bool,
    pub close_to_tray: bool,
    pub start_minimized: bool,
    pub resizable_window: bool,
    pub theme: Theme,
    pub interval_ms: u64,
    pub toggle_hotkey: HotkeyBinding,
    pub macro_record_hotkey: HotkeyBinding,
}

/// A bare hotkey on the given key.
pub open spec fn plain_binding(vk: u16) -> HotkeyBinding {
    HotkeyBinding { vk, ctrl: false, shift: false, alt: false, win: false }
}

/// The settings of a first launch: everything off, dark theme, 100 ms
/// interval, F6 to toggle and F8 to record.
pub open spec fn default_settings() -> Settings {
    Settings {
        schema: SETTINGS_SCHEMA,
        autostart: false,
        close_to_tray: false,
        start_minimized: false,
        resizable_window: false,
        theme: Theme::Dark,
        interval_ms: 100,
        toggle_hotkey: plain_binding(VK_F6),
        macro_record_hotkey: plain_binding(VK_F8),
    }
}

/// Loaded settings made current: the schema set to this version, and an
/// unbound hotkey replaced by its default.
pub open spec fn upgraded(s: Settings) -> Settings {
    Settings {
        schema: SETTINGS_SCHEMA,
        toggle_hotkey: if s.toggle_hotkey.vk == 0 {
            plain_binding(VK_F6)
        } else {
            s.toggle_hotkey
        },
        macro_record_hotkey: if s.macro_record_hotkey.vk == 0 {
            plain_binding(VK_F8)
        } else {
            s.macro_record_hotkey
        },
        ..s
    }
}

/// The schema number written into settings.
pub fn default_schema() -> (r: u32)
    ensures
        r == SETTINGS_SCHEMA,
{
    SETTINGS_SCHEMA
}

/// The fixed interval of a first launch, in milliseconds.
pub fn default_interval() -> (r: u64)
    ensures
        r == 100,
{
    100
}

/// The start/stop hotkey of a first launch: F6.
pub fn default_toggle_hk() -> (b: HotkeyBinding)
    ensures
        b == plain_binding(VK_F6),
{
    HotkeyBinding::new(VK_F6)
}

/// The record hotkey of a first launch: F8.
pub fn default_macro_record_hk() -> (b: HotkeyBinding)
    ensures
        b == plain_binding(VK_F8),
{
    HotkeyBinding::new(VK_F8)
}

impl Default for Settings {
    fn default() -> (s: Self)
        ensures
            s == default_settings(),
    {
        Settings {
            schema: SETTINGS_SCHEMA,
            autostart: false,
            close_to_tray: false,
            start_minimized: false,
            resizable_window: false,
            theme: Theme::Dark,
            interval_ms: 100,
            toggle_hotkey: default_toggle_hk(),
            macro_record_hotkey: default_macro_record_hk(),
        }
    }
}

impl Settings {
    /// Makes settings read from disk current (see `upgraded`).
    pub fn from_loaded(loaded: Settings) -> (s: Settings)
        ensures
            s == upgraded(loaded),
    {
        let mut s = loaded;
        s.schema = SETTINGS_SCHEMA;
        if !s.toggle_hotkey.is_set() {
            s.toggle_hotkey = default_toggle_hk();
        }
        if !s.macro_record_hotkey.is_set() {
            s.macro_record_hotkey = default_macro_record_hk();
        }
        s
    }

    /// The settings to use: the loaded ones made current, or the defaults
    /// when nothing could be loaded.
    pub fn load(loaded: Option<Settings>) -> (s: Settings)
        ensures
            s == match loaded {
                Some(l) => upgraded(l),
                None => default_settings(),
            },
    {
        match loaded {
            Some(l) => Settings::from_loaded(l),
            None => Settings::default(),
        }
    }
}

/// Loaded settings always come back with both hotkeys bound.
pub proof fn lemma_upgraded_hotkeys_bound(s: Settings)
    ensures
        upgraded(s).toggle_hotkey.vk != 0,
        upgraded(s).macro_record_hotkey.vk != 0,
        upgraded(upgraded(s)) == upgraded(s),
{
}

} // verus!
