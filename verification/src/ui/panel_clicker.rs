use vstd::prelude::*;

use crate::engine::command::{ClickPattern, MouseButton, Target, TriggerMode};

verus! {

/// The mouse tab's settings.
#[derive(Debug, Clone, Copy, PartialEq, Eq, Structural)]
pub struct MouseConfig {
    pub button: MouseButton,
    pub pattern: ClickPattern,
    pub use_fixed_point: bool,
    pub fixed_x: i32,
    pub fixed_y: i32,
    pub mode: TriggerMode,
}

/// Single left clicks at the cursor, in auto mode.
pub open spec fn default_mouse_config() -> MouseConfig {
    MouseConfig {
        button: MouseButton::Left,
        pattern: ClickPattern::Single,
        use_fixed_point: false,
        fixed_x: 0,
        fixed_y: 0,
        mode: TriggerMode::Auto,
    }
}

impl Default for MouseConfig {
    fn default() -> (r: Self)
        ensures
            r == default_mouse_config(),
    {
        MouseConfig {
            button: MouseButton::Left,
            pattern: ClickPattern::Single,
            use_fixed_point: false,
            fixed_x: 0,
            fixed_y: 0,
            mode: TriggerMode::Auto,
        }
    }
}

/// Where the configured clicks land.
pub open spec fn target_of(cfg: MouseConfig) -> Target {
    if cfg.use_fixed_point {
        Target::FixedPoint { x: cfg.fixed_x, y: cfg.fixed_y }
    } else {
        Target::Cursor
    }
}

impl MouseConfig {
    /// The fixed point when one is chosen, else the cursor.
    pub fn target(&self) -> (t: Target)
        ensures
            t == target_of(*self),
    {
        if self.use_fixed_point {
            Target::FixedPoint { x: self.fixed_x, y: self.fixed_y }
        } else {
            Target::Cursor
        }
    }
}

} // verus!
