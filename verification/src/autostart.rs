use vstd::prelude::*;

use crate::text::chars_of;

verus! {

/// The registry key, below the current user's hive, whose values Windows
/// launches at login.
pub const RUN_KEY: &'static str = "Software\\Microsoft\\Windows\\CurrentVersion\\Run";

/// The name of this program's value under `RUN_KEY`.
pub const VALUE_NAME: &'static str = "MKAC";

/// The registry change that turns launch-at-login on or off.
#[derive(Debug, Clone)]
pub enum RunKeyChange {
    /// Write `VALUE_NAME` under `RUN_KEY` with this UTF-16 text (NUL-ended).
    SetValue(Vec<u16>),
    /// Delete `VALUE_NAME` under `RUN_KEY`.
    DeleteValue,
}

/// The command line stored for launch-at-login: the quoted program path and
/// `--minimized`.
pub open spec fn launch_command(exe: Seq<char>) -> Seq<char> {
    "\""@ + exe + "\" --minimized"@
}

/// The UTF-16 code units of one character.
pub open spec fn utf16_of(c: char) -> Seq<u16> {
    let u = c as u32 as int;
    if u < 0x1_0000 {
        seq![u as u16]
    } else {
        seq![(0xD800 + (u - 0x1_0000) / 0x400) as u16, (0xDC00 + (u - 0x1_0000) % 0x400) as u16]
    }
}

/// The UTF-16 encoding of a text.
pub open spec fn utf16(s: Seq<char>) -> Seq<u16>
    decreases s.len(),
{
    if s.len() == 0 {
        seq![]
    } else {
        utf16(s.drop_last()) + utf16_of(s.last())
    }
}

/// A text as NUL-ended UTF-16, the form the registry functions take.
pub fn to_wide(s: &str) -> (w: Vec<u16>)
    ensures
        w@ == utf16(s@).push(0u16),
{
    let cs = chars_of(s);
    let mut w: Vec<u16> = Vec::new();
    let mut i: usize = 0;
    while i < cs.len()
        invariant
            i <= cs.len(),
            cs@ == s@,
            w@ == utf16(cs@.take(i as int)),
        decreases cs.len() - i,
    {
        assert(cs@.take(i + 1).drop_last() =~= cs@.take(i as int));
        let u = cs[i] as u32;
        if u < 0x1_0000 {
            w.push(u as u16);
        } else {
            let v = u - 0x1_0000;
            w.push((0xD800 + v / 0x400) as u16);
            w.push((0xDC00 + v % 0x400) as u16);
        }
        assert(w@ =~= utf16(cs@.take(i + 1)));
        i += 1;
    }
    assert(cs@.take(cs.len() as int) =~= cs@);
    w.push(0);
    w
}

/// The command line stored for launch-at-login (see `launch_command`).
pub fn launch_command_for(exe: &str) -> (r: String)
    ensures
        r@ == launch_command(exe@),
{
    let mut r = String::from_str("\"");
    r.append(exe);
    r.append("\" --minimized");
    r
}

/// The registry change that turns launch-at-login on (storing the launch
/// command for the program at `exe_path`) or off.
pub fn set(enabled: bool, exe_path: &str) -> (c: RunKeyChange)
    ensures
        enabled ==> (c matches RunKeyChange::SetValue(w) && w@ == utf16(launch_command(exe_path@)).push(
            0u16,
        )),
        !enabled ==> c is DeleteValue,
{
    if enabled {
        let value = launch_command_for(exe_path);
        RunKeyChange::SetValue(to_wide(value.as_str()))
    } else {
        RunKeyChange::DeleteValue
    }
}

} // verus!
