pub mod panel_clicker;
pub mod panel_keypress;
pub mod panel_macros;
pub mod panel_rate;
pub mod panel_settings;
pub mod theme;
pub mod widgets;
