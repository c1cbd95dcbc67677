use vstd::prelude::*;

use crate::engine::command::{KeyMods, TriggerMode};

verus! {

/// Virtual-key code of the `A` key, the default key to press.
pub const VK_A: u16 = 0x41;

/// The keyboard tab's settings. `capturing_key` is set while the next key
/// press is taken as the key to press.
#[derive(Debug, Clone, Copy, PartialEq, Eq, Structural)]
pub struct KeyPressConfig {
    pub selected_vk: u16,
    pub mods: KeyMods,
    pub mode: TriggerMode,
    pub capturing_key: bool,
}

/// The `A` key with no modifiers, in auto mode, not capturing.
pub open spec fn default_keypress_config() -> KeyPressConfig {
    KeyPressConfig {
        selected_vk: VK_A,
        mods: KeyMods { ctrl: false, shift: false, alt: false, win: false },
        mode: TriggerMode::Auto,
        capturing_key: false,
    }
}

impl Default for KeyPressConfig {
    fn default() -> (r: Self)
        ensures
            r == default_keypress_config(),
    {
        KeyPressConfig {
            selected_vk: VK_A,
            mods: KeyMods { ctrl: false, shift: false, alt: false, win: false },
            mode: TriggerMode::Auto,
            capturing_key: false,
        }
    }
}

} // verus!
