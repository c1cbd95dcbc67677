use vstd::prelude::*;

verus! {

#[derive(Debug, Clone, Copy, PartialEq, Eq, Structural)]
pub enum Theme {
    Dark,
    Light,
}

impl Default for Theme {
    fn default() -> (t: Self)
        ensures
            t == Theme::Dark,
    {
        Theme::Dark
    }
}

/// The palette index a theme is stored as: 0 for dark, 1 for light.
pub open spec fn theme_index(t: Theme) -> u8 {
    match t {
        Theme::Dark => 0,
        Theme::Light => 1,
    }
}

/// The theme of a stored palette index: 1 is light, anything else dark.
pub open spec fn theme_of_index(i: u8) -> Theme {
    if i == 1 {
        Theme::Light
    } else {
        Theme::Dark
    }
}

/// The theme that the stored palette index stands for.
pub fn current(stored: u8) -> (t: Theme)
    ensures
        t == theme_of_index(stored),
{
    match stored {
        1 => Theme::Light,
        _ => Theme::Dark,
    }
}

/// The palette index to store for a theme.
pub fn set_current(theme: Theme) -> (stored: u8)
    ensures
        stored == theme_index(theme),
{
    match theme {
        Theme::Dark => 0,
        Theme::Light => 1,
    }
}

/// Storing a theme and reading it back gives the same theme.
pub proof fn lemma_current_of_stored(t: Theme)
    ensures
        theme_of_index(theme_index(t)) == t,
{
}

/// A color as a Win32 `COLORREF`: red in the low byte, then green, then
/// blue.
pub fn colorref(r: u8, g: u8, b: u8) -> (c: u32)
    ensures
        c == r as int + g as int * 0x100 + b as int * 0x1_0000,
{
    r as u32 + g as u32 * 0x100 + b as u32 * 0x1_0000
}

} // verus!
