use vstd::prelude::*;

verus! {

/// A virtual-key code and its display name.
#[derive(Debug, Clone, Copy)]
pub struct KeyDef {
    pub vk: u16,
    pub name: &'static str,
}

/// The display name of a virtual-key code (US layout), if it has one.
pub open spec fn key_name(vk: u16) -> Option<&'static str> {
    match vk {
        0x41 => Some("A"),
        0x42 => Some("B"),
        0x43 => Some("C"),
        0x44 => Some("D"),
        0x45 => Some("E"),
        0x46 => Some("F"),
        0x47 => Some("G"),
        0x48 => Some("H"),
        0x49 => Some("I"),
        0x4A => Some("J"),
        0x4B => Some("K"),
        0x4C => Some("L"),
        0x4D => Some("M"),
        0x4E => Some("N"),
        0x4F => Some("O"),
        0x50 => Some("P"),
        0x51 => Some("Q"),
        0x52 => Some("R"),
        0x53 => Some("S"),
        0x54 => Some("T"),
        0x55 => Some("U"),
        0x56 => Some("V"),
        0x57 => Some("W"),
        0x58 => Some("X"),
        0x59 => Some("Y"),
        0x5A => Some("Z"),
        0x30 => Some("0"),
        0x31 => Some("1"),
        0x32 => Some("2"),
        0x33 => Some("3"),
        0x34 => Some("4"),
        0x35 => Some("5"),
        0x36 => Some("6"),
        0x37 => Some("7"),
        0x38 => Some("8"),
        0x39 => Some("9"),
        0x70 => Some("F1"),
        0x71 => Some("F2"),
        0x72 => Some("F3"),
        0x73 => Some("F4"),
        0x74 => Some("F5"),
        0x75 => Some("F6"),
        0x76 => Some("F7"),
        0x77 => Some("F8"),
        0x78 => Some("F9"),
        0x79 => Some("F10"),
        0x7A => Some("F11"),
        0x7B => Some("F12"),
        0x25 => Some("Left"),
        0x26 => Some("Up"),
        0x27 => Some("Right"),
        0x28 => Some("Down"),
        0x21 => Some("Page Up"),
        0x22 => Some("Page Down"),
        0x23 => Some("End"),
        0x24 => Some("Home"),
        0x2D => Some("Insert"),
        0x2E => Some("Delete"),
        0x20 => Some("Space"),
        0x0D => Some("Enter"),
        0x09 => Some("Tab"),
        0x1B => Some("Escape"),
        0x08 => Some("Backspace"),
        0x14 => Some("Caps Lock"),
        0x90 => Some("Num Lock"),
        0x91 => Some("Scroll Lock"),
        0x2C => Some("Print Screen"),
        0x13 => Some("Pause"),
        0x5D => Some("Menu"),
        0x60 => Some("Num 0"),
        0x61 => Some("Num 1"),
        0x62 => Some("Num 2"),
        0x63 => Some("Num 3"),
        0x64 => Some("Num 4"),
        0x65 => Some("Num 5"),
        0x66 => Some("Num 6"),
        0x67 => Some("Num 7"),
        0x68 => Some("Num 8"),
        0x69 => Some("Num 9"),
        0x6A => Some("Num *"),
        0x6B => Some("Num +"),
        0x6D => Some("Num -"),
        0x6E => Some("Num ."),
        0x6F => Some("Num /"),
        0xBA => Some(";"),
        0xBB => Some("="),
        0xBC => Some(","),
        0xBD => Some("-"),
        0xBE => Some("."),
        0xBF => Some("/"),
        0xC0 => Some("`"),
        0xDB => Some("["),
        0xDC => Some("\\"),
        0xDD => Some("]"),
        0xDE => Some("'"),
        _ => None,
    }
}

/// The display name of a virtual-key code (see `key_name`).
pub fn lookup_name(vk: u16) -> (r: Option<&'static str>)
    ensures
        r == key_name(vk),
{
    match vk {
        0x41 => Some("A"),
        0x42 => Some("B"),
        0x43 => Some("C"),
        0x44 => Some("D"),
        0x45 => Some("E"),
        0x46 => Some("F"),
        0x47 => Some("G"),
        0x48 => Some("H"),
        0x49 => Some("I"),
        0x4A => Some("J"),
        0x4B => Some("K"),
        0x4C => Some("L"),
        0x4D => Some("M"),
        0x4E => Some("N"),
        0x4F => Some("O"),
        0x50 => Some("P"),
        0x51 => Some("Q"),
        0x52 => Some("R"),
        0x53 => Some("S"),
        0x54 => Some("T"),
        0x55 => Some("U"),
        0x56 => Some("V"),
        0x57 => Some("W"),
        0x58 => Some("X"),
        0x59 => Some("Y"),
        0x5A => Some("Z"),
        0x30 => Some("0"),
        0x31 => Some("1"),
        0x32 => Some("2"),
        0x33 => Some("3"),
        0x34 => Some("4"),
        0x35 => Some("5"),
        0x36 => Some("6"),
        0x37 => Some("7"),
        0x38 => Some("8"),
        0x39 => Some("9"),
        0x70 => Some("F1"),
        0x71 => Some("F2"),
        0x72 => Some("F3"),
        0x73 => Some("F4"),
        0x74 => Some("F5"),
        0x75 => Some("F6"),
        0x76 => Some("F7"),
        0x77 => Some("F8"),
        0x78 => Some("F9"),
        0x79 => Some("F10"),
        0x7A => Some("F11"),
        0x7B => Some("F12"),
        0x25 => Some("Left"),
        0x26 => Some("Up"),
        0x27 => Some("Right"),
        0x28 => Some("Down"),
        0x21 => Some("Page Up"),
        0x22 => Some("Page Down"),
        0x23 => Some("End"),
        0x24 => Some("Home"),
        0x2D => Some("Insert"),
        0x2E => Some("Delete"),
        0x20 => Some("Space"),
        0x0D => Some("Enter"),
        0x09 => Some("Tab"),
        0x1B => Some("Escape"),
        0x08 => Some("Backspace"),
        0x14 => Some("Caps Lock"),
        0x90 => Some("Num Lock"),
        0x91 => Some("Scroll Lock"),
        0x2C => Some("Print Screen"),
        0x13 => Some("Pause"),
        0x5D => Some("Menu"),
        0x60 => Some("Num 0"),
        0x61 => Some("Num 1"),
        0x62 => Some("Num 2"),
        0x63 => Some("Num 3"),
        0x64 => Some("Num 4"),
        0x65 => Some("Num 5"),
        0x66 => Some("Num 6"),
        0x67 => Some("Num 7"),
        0x68 => Some("Num 8"),
        0x69 => Some("Num 9"),
        0x6A => Some("Num *"),
        0x6B => Some("Num +"),
        0x6D => Some("Num -"),
        0x6E => Some("Num ."),
        0x6F => Some("Num /"),
        0xBA => Some(";"),
        0xBB => Some("="),
        0xBC => Some(","),
        0xBD => Some("-"),
        0xBE => Some("."),
        0xBF => Some("/"),
        0xC0 => Some("`"),
        0xDB => Some("["),
        0xDC => Some("\\"),
        0xDD => Some("]"),
        0xDE => Some("'"),
        _ => None,
    }
}

/// Keys whose scan code needs the extended-key flag: Page Up/Down, End,
/// Home, the arrows, Print Screen, Insert, Delete, the Windows keys, Menu,
/// numpad divide, Num Lock, right Ctrl and right Alt.
pub open spec fn extended_key(vk: u16) -> bool {
    (0x21 <= vk && vk <= 0x28) || vk == 0x2C || vk == 0x2D || vk == 0x2E || vk == 0x5B || vk == 0x5C
        || vk == 0x5D || vk == 0x6F || vk == 0x90 || vk == 0xA3 || vk == 0xA5
}

pub fn is_extended(vk: u16) -> (r: bool)
    ensures
        r == extended_key(vk),
{
    match vk {
        0x21..=0x28 | 0x2C | 0x2D | 0x2E | 0x5B | 0x5C | 0x5D | 0x6F | 0x90 | 0xA3 | 0xA5 => true,
        _ => false,
    }
}

/// The keys a key chip or a hotkey chip accepts when it captures a press.
#[derive(Debug, Clone, Copy, PartialEq, Eq, Structural)]
pub enum CaptureKey {
    A,
    B,
    C,
    D,
    E,
    F,
    G,
    H,
    I,
    J,
    K,
    L,
    M,
    N,
    O,
    P,
    Q,
    R,
    S,
    T,
    U,
    V,
    W,
    X,
    Y,
    Z,
    Num0,
    Num1,
    Num2,
    Num3,
    Num4,
    Num5,
    Num6,
    Num7,
    Num8,
    Num9,
    F1,
    F2,
    F3,
    F4,
    F5,
    F6,
    F7,
    F8,
    F9,
    F10,
    F11,
    F12,
    ArrowLeft,
    ArrowUp,
    ArrowRight,
    ArrowDown,
    PageUp,
    PageDown,
    End,
    Home,
    Insert,
    Delete,
    Space,
    Enter,
    Tab,
    Escape,
    Backspace,
    Semicolon,
    Equals,
    Comma,
    Minus,
    Period,
    Slash,
    Backtick,
    OpenBracket,
    Backslash,
    CloseBracket,
    Quote,
}

/// The virtual-key code of a capturable key.
pub open spec fn capture_vk(k: CaptureKey) -> u16 {
    match k {
        CaptureKey::A => 0x41,
        CaptureKey::B => 0x42,
        CaptureKey::C => 0x43,
        CaptureKey::D => 0x44,
        CaptureKey::E => 0x45,
        CaptureKey::F => 0x46,
        CaptureKey::G => 0x47,
        CaptureKey::H => 0x48,
        CaptureKey::I => 0x49,
        CaptureKey::J => 0x4A,
        CaptureKey::K => 0x4B,
        CaptureKey::L => 0x4C,
        CaptureKey::M => 0x4D,
        CaptureKey::N => 0x4E,
        CaptureKey::O => 0x4F,
        CaptureKey::P => 0x50,
        CaptureKey::Q => 0x51,
        CaptureKey::R => 0x52,
        CaptureKey::S => 0x53,
        CaptureKey::T => 0x54,
        CaptureKey::U => 0x55,
        CaptureKey::V => 0x56,
        CaptureKey::W => 0x57,
        CaptureKey::X => 0x58,
        CaptureKey::Y => 0x59,
        CaptureKey::Z => 0x5A,
        CaptureKey::Num0 => 0x30,
        CaptureKey::Num1 => 0x31,
        CaptureKey::Num2 => 0x32,
        CaptureKey::Num3 => 0x33,
        CaptureKey::Num4 => 0x34,
        CaptureKey::Num5 => 0x35,
        CaptureKey::Num6 => 0x36,
        CaptureKey::Num7 => 0x37,
        CaptureKey::Num8 => 0x38,
        CaptureKey::Num9 => 0x39,
        CaptureKey::F1 => 0x70,
        CaptureKey::F2 => 0x71,
        CaptureKey::F3 => 0x72,
        CaptureKey::F4 => 0x73,
        CaptureKey::F5 => 0x74,
        CaptureKey::F6 => 0x75,
        CaptureKey::F7 => 0x76,
        CaptureKey::F8 => 0x77,
        CaptureKey::F9 => 0x78,
        CaptureKey::F10 => 0x79,
        CaptureKey::F11 => 0x7A,
        CaptureKey::F12 => 0x7B,
        CaptureKey::ArrowLeft => 0x25,
        CaptureKey::ArrowUp => 0x26,
        CaptureKey::ArrowRight => 0x27,
        CaptureKey::ArrowDown => 0x28,
        CaptureKey::PageUp => 0x21,
        CaptureKey::PageDown => 0x22,
        CaptureKey::End => 0x23,
        CaptureKey::Home => 0x24,
        CaptureKey::Insert => 0x2D,
        CaptureKey::Delete => 0x2E,
        CaptureKey::Space => 0x20,
        CaptureKey::Enter => 0x0D,
        CaptureKey::Tab => 0x09,
        CaptureKey::Escape => 0x1B,
        CaptureKey::Backspace => 0x08,
        CaptureKey::Semicolon => 0xBA,
        CaptureKey::Equals => 0xBB,
        CaptureKey::Comma => 0xBC,
        CaptureKey::Minus => 0xBD,
        CaptureKey::Period => 0xBE,
        CaptureKey::Slash => 0xBF,
        CaptureKey::Backtick => 0xC0,
        CaptureKey::OpenBracket => 0xDB,
        CaptureKey::Backslash => 0xDC,
        CaptureKey::CloseBracket => 0xDD,
        CaptureKey::Quote => 0xDE,
    }
}

/// The virtual-key code of a capturable key (see `capture_vk`).
pub fn key_vk(k: CaptureKey) -> (vk: u16)
    ensures
        vk == capture_vk(k),
{
    match k {
        CaptureKey::A => 0x41,
        CaptureKey::B => 0x42,
        CaptureKey::C => 0x43,
        CaptureKey::D => 0x44,
        CaptureKey::E => 0x45,
        CaptureKey::F => 0x46,
        CaptureKey::G => 0x47,
        CaptureKey::H => 0x48,
        CaptureKey::I => 0x49,
        CaptureKey::J => 0x4A,
        CaptureKey::K => 0x4B,
        CaptureKey::L => 0x4C,
        CaptureKey::M => 0x4D,
        CaptureKey::N => 0x4E,
        CaptureKey::O => 0x4F,
        CaptureKey::P => 0x50,
        CaptureKey::Q => 0x51,
        CaptureKey::R => 0x52,
        CaptureKey::S => 0x53,
        CaptureKey::T => 0x54,
        CaptureKey::U => 0x55,
        CaptureKey::V => 0x56,
        CaptureKey::W => 0x57,
        CaptureKey::X => 0x58,
        CaptureKey::Y => 0x59,
        CaptureKey::Z => 0x5A,
        CaptureKey::Num0 => 0x30,
        CaptureKey::Num1 => 0x31,
        CaptureKey::Num2 => 0x32,
        CaptureKey::Num3 => 0x33,
        CaptureKey::Num4 => 0x34,
        CaptureKey::Num5 => 0x35,
        CaptureKey::Num6 => 0x36,
        CaptureKey::Num7 => 0x37,
        CaptureKey::Num8 => 0x38,
        CaptureKey::Num9 => 0x39,
        CaptureKey::F1 => 0x70,
        CaptureKey::F2 => 0x71,
        CaptureKey::F3 => 0x72,
        CaptureKey::F4 => 0x73,
        CaptureKey::F5 => 0x74,
        CaptureKey::F6 => 0x75,
        CaptureKey::F7 => 0x76,
        CaptureKey::F8 => 0x77,
        CaptureKey::F9 => 0x78,
        CaptureKey::F10 => 0x79,
        CaptureKey::F11 => 0x7A,
        CaptureKey::F12 => 0x7B,
        CaptureKey::ArrowLeft => 0x25,
        CaptureKey::ArrowUp => 0x26,
        CaptureKey::ArrowRight => 0x27,
        CaptureKey::ArrowDown => 0x28,
        CaptureKey::PageUp => 0x21,
        CaptureKey::PageDown => 0x22,
        CaptureKey::End => 0x23,
        CaptureKey::Home => 0x24,
        CaptureKey::Insert => 0x2D,
        CaptureKey::Delete => 0x2E,
        CaptureKey::Space => 0x20,
        CaptureKey::Enter => 0x0D,
        CaptureKey::Tab => 0x09,
        CaptureKey::Escape => 0x1B,
        CaptureKey::Backspace => 0x08,
        CaptureKey::Semicolon => 0xBA,
        CaptureKey::Equals => 0xBB,
        CaptureKey::Comma => 0xBC,
        CaptureKey::Minus => 0xBD,
        CaptureKey::Period => 0xBE,
        CaptureKey::Slash => 0xBF,
        CaptureKey::Backtick => 0xC0,
        CaptureKey::OpenBracket => 0xDB,
        CaptureKey::Backslash => 0xDC,
        CaptureKey::CloseBracket => 0xDD,
        CaptureKey::Quote => 0xDE,
    }
}

/// Every key a chip can capture has a display name, so a captured key or
/// hotkey can always be shown.
pub proof fn lemma_capturable_keys_named(k: CaptureKey)
    ensures
        key_name(capture_vk(k)) is Some,
{
}

/// The capturable key with code `vk`, if any.
spec fn capture_key_of(vk: u16) -> Option<CaptureKey> {
    match vk {
        0x41 => Some(CaptureKey::A),
        0x42 => Some(CaptureKey::B),
        0x43 => Some(CaptureKey::C),
        0x44 => Some(CaptureKey::D),
        0x45 => Some(CaptureKey::E),
        0x46 => Some(CaptureKey::F),
        0x47 => Some(CaptureKey::G),
        0x48 => Some(CaptureKey::H),
        0x49 => Some(CaptureKey::I),
        0x4A => Some(CaptureKey::J),
        0x4B => Some(CaptureKey::K),
        0x4C => Some(CaptureKey::L),
        0x4D => Some(CaptureKey::M),
        0x4E => Some(CaptureKey::N),
        0x4F => Some(CaptureKey::O),
        0x50 => Some(CaptureKey::P),
        0x51 => Some(CaptureKey::Q),
        0x52 => Some(CaptureKey::R),
        0x53 => Some(CaptureKey::S),
        0x54 => Some(CaptureKey::T),
        0x55 => Some(CaptureKey::U),
        0x56 => Some(CaptureKey::V),
        0x57 => Some(CaptureKey::W),
        0x58 => Some(CaptureKey::X),
        0x59 => Some(CaptureKey::Y),
        0x5A => Some(CaptureKey::Z),
        0x30 => Some(CaptureKey::Num0),
        0x31 => Some(CaptureKey::Num1),
        0x32 => Some(CaptureKey::Num2),
        0x33 => Some(CaptureKey::Num3),
        0x34 => Some(CaptureKey::Num4),
        0x35 => Some(CaptureKey::Num5),
        0x36 => Some(CaptureKey::Num6),
        0x37 => Some(CaptureKey::Num7),
        0x38 => Some(CaptureKey::Num8),
        0x39 => Some(CaptureKey::Num9),
        0x70 => Some(CaptureKey::F1),
        0x71 => Some(CaptureKey::F2),
        0x72 => Some(CaptureKey::F3),
        0x73 => Some(CaptureKey::F4),
        0x74 => Some(CaptureKey::F5),
        0x75 => Some(CaptureKey::F6),
        0x76 => Some(CaptureKey::F7),
        0x77 => Some(CaptureKey::F8),
        0x78 => Some(CaptureKey::F9),
        0x79 => Some(CaptureKey::F10),
        0x7A => Some(CaptureKey::F11),
        0x7B => Some(CaptureKey::F12),
        0x25 => Some(CaptureKey::ArrowLeft),
        0x26 => Some(CaptureKey::ArrowUp),
        0x27 => Some(CaptureKey::ArrowRight),
        0x28 => Some(CaptureKey::ArrowDown),
        0x21 => Some(CaptureKey::PageUp),
        0x22 => Some(CaptureKey::PageDown),
        0x23 => Some(CaptureKey::End),
        0x24 => Some(CaptureKey::Home),
        0x2D => Some(CaptureKey::Insert),
        0x2E => Some(CaptureKey::Delete),
        0x20 => Some(CaptureKey::Space),
        0x0D => Some(CaptureKey::Enter),
        0x09 => Some(CaptureKey::Tab),
        0x1B => Some(CaptureKey::Escape),
        0x08 => Some(CaptureKey::Backspace),
        0xBA => Some(CaptureKey::Semicolon),
        0xBB => Some(CaptureKey::Equals),
        0xBC => Some(CaptureKey::Comma),
        0xBD => Some(CaptureKey::Minus),
        0xBE => Some(CaptureKey::Period),
        0xBF => Some(CaptureKey::Slash),
        0xC0 => Some(CaptureKey::Backtick),
        0xDB => Some(CaptureKey::OpenBracket),
        0xDC => Some(CaptureKey::Backslash),
        0xDD => Some(CaptureKey::CloseBracket),
        0xDE => Some(CaptureKey::Quote),
        _ => None,
    }
}

/// Distinct capturable keys have distinct codes, and the code of each key
/// is the one whose display name is that key's own label (the code of
/// `Minus` is named "-", that of `F9` "F9", and so on), so the key pressed
/// on a chip is the key the engine presses and the key shown.
pub proof fn lemma_capture_codes_name_the_key()
    ensures
        forall|a: CaptureKey, b: CaptureKey| capture_vk(a) == capture_vk(b) ==> a == b,
        key_name(capture_vk(CaptureKey::A)) == Some("A"),
        key_name(capture_vk(CaptureKey::B)) == Some("B"),
        key_name(capture_vk(CaptureKey::C)) == Some("C"),
        key_name(capture_vk(CaptureKey::D)) == Some("D"),
        key_name(capture_vk(CaptureKey::E)) == Some("E"),
        key_name(capture_vk(CaptureKey::F)) == Some("F"),
        key_name(capture_vk(CaptureKey::G)) == Some("G"),
        key_name(capture_vk(CaptureKey::H)) == Some("H"),
        key_name(capture_vk(CaptureKey::I)) == Some("I"),
        key_name(capture_vk(CaptureKey::J)) == Some("J"),
        key_name(capture_vk(CaptureKey::K)) == Some("K"),
        key_name(capture_vk(CaptureKey::L)) == Some("L"),
        key_name(capture_vk(CaptureKey::M)) == Some("M"),
        key_name(capture_vk(CaptureKey::N)) == Some("N"),
        key_name(capture_vk(CaptureKey::O)) == Some("O"),
        key_name(capture_vk(CaptureKey::P)) == Some("P"),
        key_name(capture_vk(CaptureKey::Q)) == Some("Q"),
        key_name(capture_vk(CaptureKey::R)) == Some("R"),
        key_name(capture_vk(CaptureKey::S)) == Some("S"),
        key_name(capture_vk(CaptureKey::T)) == Some("T"),
        key_name(capture_vk(CaptureKey::U)) == Some("U"),
        key_name(capture_vk(CaptureKey::V)) == Some("V"),
        key_name(capture_vk(CaptureKey::W)) == Some("W"),
        key_name(capture_vk(CaptureKey::X)) == Some("X"),
        key_name(capture_vk(CaptureKey::Y)) == Some("Y"),
        key_name(capture_vk(CaptureKey::Z)) == Some("Z"),
        key_name(capture_vk(CaptureKey::Num0)) == Some("0"),
        key_name(capture_vk(CaptureKey::Num1)) == Some("1"),
        key_name(capture_vk(CaptureKey::Num2)) == Some("2"),
        key_name(capture_vk(CaptureKey::Num3)) == Some("3"),
        key_name(capture_vk(CaptureKey::Num4)) == Some("4"),
        key_name(capture_vk(CaptureKey::Num5)) == Some("5"),
        key_name(capture_vk(CaptureKey::Num6)) == Some("6"),
        key_name(capture_vk(CaptureKey::Num7)) == Some("7"),
        key_name(capture_vk(CaptureKey::Num8)) == Some("8"),
        key_name(capture_vk(CaptureKey::Num9)) == Some("9"),
        key_name(capture_vk(CaptureKey::F1)) == Some("F1"),
        key_name(capture_vk(CaptureKey::F2)) == Some("F2"),
        key_name(capture_vk(CaptureKey::F3)) == Some("F3"),
        key_name(capture_vk(CaptureKey::F4)) == Some("F4"),
        key_name(capture_vk(CaptureKey::F5)) == Some("F5"),
        key_name(capture_vk(CaptureKey::F6)) == Some("F6"),
        key_name(capture_vk(CaptureKey::F7)) == Some("F7"),
        key_name(capture_vk(CaptureKey::F8)) == Some("F8"),
        key_name(capture_vk(CaptureKey::F9)) == Some("F9"),
        key_name(capture_vk(CaptureKey::F10)) == Some("F10"),
        key_name(capture_vk(CaptureKey::F11)) == Some("F11"),
        key_name(capture_vk(CaptureKey::F12)) == Some("F12"),
        key_name(capture_vk(CaptureKey::ArrowLeft)) == Some("Left"),
        key_name(capture_vk(CaptureKey::ArrowUp)) == Some("Up"),
        key_name(capture_vk(CaptureKey::ArrowRight)) == Some("Right"),
        key_name(capture_vk(CaptureKey::ArrowDown)) == Some("Down"),
        key_name(capture_vk(CaptureKey::PageUp)) == Some("Page Up"),
        key_name(capture_vk(CaptureKey::PageDown)) == Some("Page Down"),
        key_name(capture_vk(CaptureKey::End)) == Some("End"),
        key_name(capture_vk(CaptureKey::Home)) == Some("Home"),
        key_name(capture_vk(CaptureKey::Insert)) == Some("Insert"),
        key_name(capture_vk(CaptureKey::Delete)) == Some("Delete"),
        key_name(capture_vk(CaptureKey::Space)) == Some("Space"),
        key_name(capture_vk(CaptureKey::Enter)) == Some("Enter"),
        key_name(capture_vk(CaptureKey::Tab)) == Some("Tab"),
        key_name(capture_vk(CaptureKey::Escape)) == Some("Escape"),
        key_name(capture_vk(CaptureKey::Backspace)) == Some("Backspace"),
        key_name(capture_vk(CaptureKey::Semicolon)) == Some(";"),
        key_name(capture_vk(CaptureKey::Equals)) == Some("="),
        key_name(capture_vk(CaptureKey::Comma)) == Some(","),
        key_name(capture_vk(CaptureKey::Minus)) == Some("-"),
        key_name(capture_vk(CaptureKey::Period)) == Some("."),
        key_name(capture_vk(CaptureKey::Slash)) == Some("/"),
        key_name(capture_vk(CaptureKey::Backtick)) == Some("`"),
        key_name(capture_vk(CaptureKey::OpenBracket)) == Some("["),
        key_name(capture_vk(CaptureKey::Backslash)) == Some("\\"),
        key_name(capture_vk(CaptureKey::CloseBracket)) == Some("]"),
        key_name(capture_vk(CaptureKey::Quote)) == Some("'"),
{
    assert forall|a: CaptureKey| capture_key_of(#[trigger] capture_vk(a)) == Some(a) by {}
    assert forall|a: CaptureKey, b: CaptureKey| capture_vk(a) == capture_vk(b) implies a == b by {
        assert(capture_key_of(capture_vk(a)) == Some(a));
        assert(capture_key_of(capture_vk(b)) == Some(b));
    }
}

} // verus!
