use vstd::prelude::*;

use super::command::{KeyMods, MouseButton};
use super::input::{modifier_keys, InputOp, VK_CONTROL, VK_LWIN, VK_MENU, VK_SHIFT};

verus! {

/// The byte that stands for a mouse button in the latch table.
pub open spec fn button_byte(b: MouseButton) -> u8 {
    match b {
        MouseButton::Left => 1,
        MouseButton::Right => 2,
        MouseButton::Middle => 3,
    }
}

/// The mouse button that a latch-table byte stands for (unknown bytes: Left).
pub open spec fn byte_button(b: u8) -> MouseButton {
    if b == 2 {
        MouseButton::Right
    } else if b == 3 {
        MouseButton::Middle
    } else {
        MouseButton::Left
    }
}

pub fn mb_to_byte(b: MouseButton) -> (r: u8)
    ensures
        r == button_byte(b),
{
    match b {
        MouseButton::Left => 1,
        MouseButton::Right => 2,
        MouseButton::Middle => 3,
    }
}

pub fn byte_to_mb(b: u8) -> (r: MouseButton)
    ensures
        r == byte_button(b),
{
    match b {
        2 => MouseButton::Right,
        3 => MouseButton::Middle,
        _ => MouseButton::Left,
    }
}

/// Elements of `s` that do not occur in `t`, in the order of `s`.
pub open spec fn not_in(s: Seq<u16>, t: Seq<u16>) -> Seq<u16>
    decreases s.len(),
{
    if s.len() == 0 {
        s
    } else if t.contains(s.last()) {
        not_in(s.drop_last(), t)
    } else {
        not_in(s.drop_last(), t).push(s.last())
    }
}

/// Elements of `s` that also occur in `t`, in the order of `s`.
pub open spec fn only_in(s: Seq<u16>, t: Seq<u16>) -> Seq<u16>
    decreases s.len(),
{
    if s.len() == 0 {
        s
    } else if t.contains(s.last()) {
        only_in(s.drop_last(), t).push(s.last())
    } else {
        only_in(s.drop_last(), t)
    }
}

/// A key press for each key, in order.
pub open spec fn key_downs(s: Seq<u16>) -> Seq<InputOp>
    decreases s.len(),
{
    if s.len() == 0 {
        seq![]
    } else {
        key_downs(s.drop_last()).push(InputOp::KeyDown { vk: s.last() })
    }
}

/// A key release for each key, in order.
pub open spec fn key_ups(s: Seq<u16>) -> Seq<InputOp>
    decreases s.len(),
{
    if s.len() == 0 {
        seq![]
    } else {
        key_ups(s.drop_last()).push(InputOp::KeyUp { vk: s.last() })
    }
}

/// A latched-button release for each latch-table entry, in order.
pub open spec fn latch_releases(s: Seq<(u8, isize)>) -> Seq<InputOp>
    decreases s.len(),
{
    if s.len() == 0 {
        seq![]
    } else {
        latch_releases(s.drop_last()).push(
            InputOp::HoldButtonUp { button: byte_button(s.last().0), target: s.last().1 },
        )
    }
}

/// The keys of a latched combo: its modifiers (Ctrl, Shift, Alt, Win), then
/// the key itself unless it is one of those modifiers.
pub open spec fn combo_keys(vk: u16, mods: KeyMods) -> Seq<u16> {
    if modifier_keys(mods).contains(vk) {
        modifier_keys(mods)
    } else {
        modifier_keys(mods).push(vk)
    }
}

/// Whether some latch-table entry is for the byte.
pub open spec fn has_byte(m: Seq<(u8, isize)>, b: u8) -> bool {
    exists|i: int| 0 <= i < m.len() && m[i].0 == b
}

/// The latch-table entries whose byte differs from `b`, in order.
pub open spec fn without_byte(m: Seq<(u8, isize)>, b: u8) -> Seq<(u8, isize)>
    decreases m.len(),
{
    if m.len() == 0 {
        m
    } else if m.last().0 == b {
        without_byte(m.drop_last(), b)
    } else {
        without_byte(m.drop_last(), b).push(m.last())
    }
}

/// The window that the latch-table entry for byte `b` went to.
pub open spec fn target_of(m: Seq<(u8, isize)>, b: u8) -> isize
    decreases m.len(),
{
    if m.len() == 0 {
        0
    } else if m.last().0 == b {
        m.last().1
    } else {
        target_of(m.drop_last(), b)
    }
}

/// The latch table with the window of the entry for byte `b` set to `t`.
pub open spec fn with_target(m: Seq<(u8, isize)>, b: u8, t: isize) -> Seq<(u8, isize)> {
    Seq::new(m.len(), |i: int| if m[i].0 == b { (b, t) } else { m[i] })
}

/// Strictly ascending.
pub open spec fn ascending(s: Seq<u16>) -> bool {
    forall|i: int, j: int| 0 <= i < j < s.len() ==> s[i] < s[j]
}

/// The keys in ascending order: the one ascending sequence with the same
/// elements (see `lemma_ascending_unique`).
pub open spec fn sorted_keys(keys: Seq<u16>) -> Seq<u16> {
    choose|r: Seq<u16>| ascending(r) && forall|k: u16| r.contains(k) <==> keys.contains(k)
}

/// The latched mouse buttons in button order: Left, Right, Middle.
pub open spec fn latched_buttons(m: Seq<(u8, isize)>) -> Seq<MouseButton> {
    (if has_byte(m, 1) { seq![MouseButton::Left] } else { seq![] }) + (if has_byte(m, 2) {
        seq![MouseButton::Right]
    } else {
        seq![]
    }) + (if has_byte(m, 3) { seq![MouseButton::Middle] } else { seq![] })
}

/// What is latched: the held keys in the order they went down, and for each
/// held mouse button (by byte) the window its press went to.
pub struct HoldView {
    pub keys: Seq<u16>,
    pub mouse: Seq<(u8, isize)>,
}

/// Keys and mouse buttons latched down by hold-mode actions. Each key and
/// each button is latched at most once.
pub struct VirtualHold {
    keys: Vec<u16>,
    mouse_buttons: Vec<(u8, isize)>,
}

impl View for VirtualHold {
    type V = HoldView;

    closed spec fn view(&self) -> HoldView {
        HoldView { keys: self.keys@, mouse: self.mouse_buttons@ }
    }
}

/// No key or button byte occurs twice, and button bytes are 1, 2 or 3.
pub open spec fn hold_wf(v: HoldView) -> bool {
    &&& v.keys.no_duplicates()
    &&& forall|i: int, j: int|
        #![trigger v.mouse[i], v.mouse[j]]
        0 <= i < v.mouse.len() && 0 <= j < v.mouse.len() && i != j ==> v.mouse[i].0
            != v.mouse[j].0
    &&& forall|i: int| 0 <= i < v.mouse.len() ==> 1 <= #[trigger] v.mouse[i].0 <= 3
}

fn vec_contains(v: &Vec<u16>, x: u16) -> (r: bool)
    ensures
        r == v@.contains(x),
{
    let mut i: usize = 0;
    while i < v.len()
        invariant
            i <= v.len(),
            forall|j: int| 0 <= j < i ==> v@[j] != x,
        decreases v.len() - i,
    {
        if v[i] == x {
            return true;
        }
        i += 1;
    }
    false
}

proof fn lemma_contains_push<A>(r: Seq<A>, y: A, x: A)
    ensures
        r.push(y).contains(x) <==> (r.contains(x) || x == y),
{
    if r.push(y).contains(x) {
        let i = choose|i: int| 0 <= i < r.push(y).len() && r.push(y)[i] == x;
        if i < r.len() {
            assert(r[i] == x);
        }
    }
    if x == y {
        assert(r.push(y)[r.len() as int] == x);
    }
    if r.contains(x) {
        let i = choose|i: int| 0 <= i < r.len() && r[i] == x;
        assert(r.push(y)[i] == x);
    }
}

proof fn lemma_contains_last<A>(s: Seq<A>, x: A)
    requires
        s.len() > 0,
    ensures
        s.contains(x) <==> (s.drop_last().contains(x) || x == s.last()),
{
    assert(s.drop_last().push(s.last()) =~= s);
    lemma_contains_push(s.drop_last(), s.last(), x);
}

proof fn lemma_no_dup_last<A>(s: Seq<A>)
    requires
        s.len() > 0,
    ensures
        s.no_duplicates() <==> (s.drop_last().no_duplicates() && !s.drop_last().contains(
            s.last(),
        )),
{
    if s.no_duplicates() && s.drop_last().contains(s.last()) {
        let i = choose|i: int| 0 <= i < s.drop_last().len() && s.drop_last()[i] == s.last();
        assert(s[i] == s[s.len() - 1]);
    }
    if s.drop_last().no_duplicates() && !s.drop_last().contains(s.last()) {
        assert forall|i: int, j: int| 0 <= i < s.len() && 0 <= j < s.len() && i != j implies s[i]
            != s[j] by {
            if i == s.len() - 1 {
                assert(s.drop_last()[j] == s[j]);
            } else if j == s.len() - 1 {
                assert(s.drop_last()[i] == s[i]);
            } else {
                assert(s.drop_last()[i] == s[i] && s.drop_last()[j] == s[j]);
            }
        }
    }
}

proof fn lemma_not_in_contains(s: Seq<u16>, t: Seq<u16>, x: u16)
    ensures
        not_in(s, t).contains(x) <==> (s.contains(x) && !t.contains(x)),
    decreases s.len(),
{
    if s.len() > 0 {
        lemma_not_in_contains(s.drop_last(), t, x);
        lemma_contains_last(s, x);
        if !t.contains(s.last()) {
            lemma_contains_push(not_in(s.drop_last(), t), s.last(), x);
        }
    }
}

proof fn lemma_not_in_no_dup(s: Seq<u16>, t: Seq<u16>)
    requires
        s.no_duplicates(),
    ensures
        not_in(s, t).no_duplicates(),
    decreases s.len(),
{
    if s.len() > 0 {
        lemma_no_dup_last(s);
        lemma_not_in_no_dup(s.drop_last(), t);
        if !t.contains(s.last()) {
            let r = not_in(s.drop_last(), t);
            lemma_not_in_contains(s.drop_last(), t, s.last());
            assert(r.push(s.last()).drop_last() =~= r);
            lemma_no_dup_last(r.push(s.last()));
        }
    }
}

proof fn lemma_only_in_contains(s: Seq<u16>, t: Seq<u16>, x: u16)
    ensures
        only_in(s, t).contains(x) <==> (s.contains(x) && t.contains(x)),
    decreases s.len(),
{
    if s.len() > 0 {
        lemma_only_in_contains(s.drop_last(), t, x);
        lemma_contains_last(s, x);
        if t.contains(s.last()) {
            lemma_contains_push(only_in(s.drop_last(), t), s.last(), x);
        }
    }
}

proof fn lemma_combo_no_dup(vk: u16, mods: KeyMods)
    ensures
        combo_keys(vk, mods).no_duplicates(),
        combo_keys(vk, mods).contains(vk),
{
    let m = modifier_keys(mods);
    assert(m.no_duplicates());
    if m.contains(vk) {
    } else {
        assert(m.push(vk).drop_last() =~= m);
        lemma_no_dup_last(m.push(vk));
        lemma_contains_push(m, vk, vk);
    }
}

/// The modifier keys of `mods` as a vector (see `modifier_keys`).
fn modifier_vec(mods: KeyMods) -> (v: Vec<u16>)
    ensures
        v@ == modifier_keys(mods),
{
    let mut combo: Vec<u16> = Vec::new();
    if mods.ctrl {
        combo.push(VK_CONTROL);
    }
    if mods.shift {
        combo.push(VK_SHIFT);
    }
    if mods.alt {
        combo.push(VK_MENU);
    }
    if mods.win {
        combo.push(VK_LWIN);
    }
    assert(combo@ =~= modifier_keys(mods));
    combo
}

/// The keys of the combo as a vector (see `combo_keys`).
fn combo_vec(vk: u16, mods: KeyMods) -> (v: Vec<u16>)
    ensures
        v@ == combo_keys(vk, mods),
{
    let mut combo = modifier_vec(mods);
    if !vec_contains(&combo, vk) {
        combo.push(vk);
    }
    combo
}

/// The elements of `s` that are not in `t` (see `not_in`).
fn vec_not_in(s: &Vec<u16>, t: &Vec<u16>) -> (r: Vec<u16>)
    ensures
        r@ == not_in(s@, t@),
{
    let mut r: Vec<u16> = Vec::new();
    let mut i: usize = 0;
    while i < s.len()
        invariant
            i <= s.len(),
            r@ == not_in(s@.take(i as int), t@),
        decreases s.len() - i,
    {
        assert(s@.take(i + 1).drop_last() =~= s@.take(i as int));
        if !vec_contains(t, s[i]) {
            r.push(s[i]);
        }
        i += 1;
    }
    assert(s@.take(s.len() as int) =~= s@);
    r
}

fn has_byte_exec(m: &Vec<(u8, isize)>, b: u8) -> (r: bool)
    ensures
        r == has_byte(m@, b),
{
    let mut i: usize = 0;
    while i < m.len()
        invariant
            i <= m.len(),
            forall|j: int| 0 <= j < i ==> m@[j].0 != b,
        decreases m.len() - i,
    {
        if m[i].0 == b {
            return true;
        }
        i += 1;
    }
    false
}

proof fn lemma_without_byte(m: Seq<(u8, isize)>, b: u8)
    ensures
        forall|i: int|
            0 <= i < without_byte(m, b).len() ==> exists|j: int|
                0 <= j < m.len() && m[j] == #[trigger] without_byte(m, b)[i] && m[j].0 != b,
        forall|i: int, k: int|
            0 <= i < k < without_byte(m, b).len() ==> exists|j1: int, j2: int|
                0 <= j1 < j2 < m.len() && m[j1] == #[trigger] without_byte(m, b)[i] && m[j2]
                    == #[trigger] without_byte(m, b)[k],
    decreases m.len(),
{
    if m.len() > 0 {
        lemma_without_byte(m.drop_last(), b);
        let r = without_byte(m.drop_last(), b);
        assert forall|i: int|
            0 <= i < without_byte(m, b).len() implies exists|j: int|
                0 <= j < m.len() && m[j] == #[trigger] without_byte(m, b)[i] && m[j].0 != b by {
            if m.last().0 != b && i == r.len() {
                assert(m[m.len() - 1] == without_byte(m, b)[i]);
            } else {
                assert(without_byte(m, b)[i] == r[i]);
                let j = choose|j: int| 0 <= j < m.drop_last().len() && m.drop_last()[j] == r[i]
                    && m.drop_last()[j].0 != b;
                assert(m[j] == m.drop_last()[j]);
            }
        }
        assert forall|i: int, k: int| 0 <= i < k < without_byte(m, b).len() implies exists|
            j1: int,
            j2: int,
        |
            0 <= j1 < j2 < m.len() && m[j1] == #[trigger] without_byte(m, b)[i] && m[j2]
                == #[trigger] without_byte(m, b)[k] by {
            if m.last().0 != b && k == r.len() {
                assert(without_byte(m, b)[i] == r[i]);
                let j = choose|j: int| 0 <= j < m.drop_last().len() && m.drop_last()[j] == r[i]
                    && m.drop_last()[j].0 != b;
                assert(m[j] == m.drop_last()[j]);
                assert(m[m.len() - 1] == without_byte(m, b)[k]);
            } else {
                assert(without_byte(m, b)[i] == r[i]);
                assert(without_byte(m, b)[k] == r[k]);
                let (j1, j2) = choose|j1: int, j2: int|
                    0 <= j1 < j2 < m.drop_last().len() && m.drop_last()[j1] == r[i]
                        && m.drop_last()[j2] == r[k];
                assert(m[j1] == m.drop_last()[j1] && m[j2] == m.drop_last()[j2]);
            }
        }
    }
}

impl VirtualHold {
    #[verifier::type_invariant]
    closed spec fn inv(&self) -> bool {
        hold_wf(self@)
    }

    /// Nothing latched.
    pub fn new() -> (h: Self)
        ensures
            h@.keys == Seq::<u16>::empty(),
            h@.mouse == Seq::<(u8, isize)>::empty(),
    {
        VirtualHold { keys: Vec::new(), mouse_buttons: Vec::new() }
    }

    /// Toggles the latch of a key combo, keyed by its main key. When the key
    /// is not latched, the combo keys not yet latched go down (modifiers
    /// first) and `true` is returned; otherwise the latched combo keys are
    /// released in reverse order and `false` is returned. The key presses or
    /// releases are appended to `out`.
    pub fn toggle_combo(&mut self, vk: u16, mods: KeyMods, out: &mut Vec<InputOp>) -> (latched:
        bool)
        ensures
            latched == !old(self)@.keys.contains(vk),
            latched ==> final(self)@.keys == old(self)@.keys + not_in(
                combo_keys(vk, mods),
                old(self)@.keys,
            ),
            latched ==> final(out)@ == old(out)@ + key_downs(
                not_in(combo_keys(vk, mods), old(self)@.keys),
            ),
            !latched ==> final(self)@.keys == not_in(old(self)@.keys, combo_keys(vk, mods)),
            !latched ==> final(out)@ == old(out)@ + key_ups(
                only_in(combo_keys(vk, mods).reverse(), old(self)@.keys),
            ),
            final(self)@.mouse == old(self)@.mouse,
    {
        proof {
            use_type_invariant(&*self);
            lemma_combo_no_dup(vk, mods);
        }
        let combo = combo_vec(vk, mods);
        if vec_contains(&self.keys, vk) {
            let ghost rev = combo@.reverse();
            let ghost out0 = out@;
            let mut k: usize = combo.len();
            while k > 0
                invariant
                    hold_wf(self@),
                    k <= combo.len(),
                    rev == combo@.reverse(),
                    out@ == out0 + key_ups(only_in(rev.take(combo.len() - k), self.keys@)),
                decreases k,
            {
                let ghost n = combo.len() - k;
                assert(rev.take(n + 1).drop_last() =~= rev.take(n));
                assert(rev[n] == combo@[k - 1]);
                let key = combo[k - 1];
                assert(rev.take(n + 1).last() == key);
                if vec_contains(&self.keys, key) {
                    let ghost prev = out@;
                    out.push(InputOp::KeyUp { vk: key });
                    let ghost u = only_in(rev.take(n + 1), self.keys@);
                    assert(u =~= only_in(rev.take(n), self.keys@).push(key));
                    assert(u.drop_last() =~= only_in(rev.take(n), self.keys@));
                    assert(key_ups(u) =~= key_ups(only_in(rev.take(n), self.keys@)).push(
                        InputOp::KeyUp { vk: key },
                    ));
                    assert(out@ =~= out0 + key_ups(only_in(rev.take(n + 1), self.keys@)));
                } else {
                    assert(out@ =~= out0 + key_ups(only_in(rev.take(n + 1), self.keys@)));
                }
                k -= 1;
            }
            assert(rev.take(combo.len() as int) =~= rev);
            let remaining = vec_not_in(&self.keys, &combo);
            proof {
                lemma_not_in_no_dup(self.keys@, combo@);
            }
            assert(remaining@.no_duplicates());
            assert(hold_wf(self@));
            assert(self@.mouse == self.mouse_buttons@);
            assert(hold_wf(HoldView { keys: remaining@, mouse: self.mouse_buttons@ }));
            self.keys = remaining;
            false
        } else {
            let pressed = vec_not_in(&combo, &self.keys);
            let ghost out0 = out@;
            let ghost keys0 = self.keys@;
            proof {
                lemma_not_in_no_dup(combo@, keys0);
                assert forall|i: int, j: int|
                    0 <= i < keys0.len() && 0 <= j < pressed@.len() implies keys0[i]
                    != pressed@[j] by {
                    assert(pressed@.contains(pressed@[j]));
                    lemma_not_in_contains(combo@, keys0, pressed@[j]);
                    assert(keys0.contains(keys0[i]));
                }
                vstd::seq_lib::lemma_no_dup_in_concat(keys0, pressed@);
            }
            let mut new_keys: Vec<u16> = Vec::new();
            let mut i: usize = 0;
            while i < self.keys.len()
                invariant
                    hold_wf(self@),
                    self.keys@ == keys0,
                    i <= self.keys.len(),
                    new_keys@ == self.keys@.take(i as int),
                decreases self.keys.len() - i,
            {
                new_keys.push(self.keys[i]);
                assert(new_keys@ =~= self.keys@.take(i + 1));
                i += 1;
            }
            assert(new_keys@ =~= keys0);
            let mut j: usize = 0;
            while j < pressed.len()
                invariant
                    hold_wf(self@),
                    self.keys@ == keys0,
                    j <= pressed.len(),
                    new_keys@ == keys0 + pressed@.take(j as int),
                    out@ == out0 + key_downs(pressed@.take(j as int)),
                decreases pressed.len() - j,
            {
                assert(pressed@.take(j + 1).drop_last() =~= pressed@.take(j as int));
                new_keys.push(pressed[j]);
                out.push(InputOp::KeyDown { vk: pressed[j] });
                assert(new_keys@ =~= keys0 + pressed@.take(j + 1));
                assert(out@ =~= out0 + key_downs(pressed@.take(j + 1)));
                j += 1;
            }
            assert(pressed@.take(pressed.len() as int) =~= pressed@);
            assert(new_keys@.no_duplicates());
            assert(hold_wf(self@));
            assert(self@.mouse == self.mouse_buttons@);
            assert(hold_wf(HoldView { keys: new_keys@, mouse: self.mouse_buttons@ }));
            self.keys = new_keys;
            true
        }
    }

    /// Toggles the latch of a mouse button. When it is latched, its entry is
    /// dropped, a release on the window its press went to is appended to
    /// `out` and `false` is returned. Otherwise an entry with window 0 is
    /// added, a latched press is appended to `out` and `true` is returned;
    /// the window the press went to is then set with `record_mouse_target`.
    pub fn toggle_mouse(&mut self, button: MouseButton, out: &mut Vec<InputOp>) -> (latched: bool)
        ensures
            latched == !has_byte(old(self)@.mouse, button_byte(button)),
            !latched ==> final(self)@.mouse == without_byte(old(self)@.mouse, button_byte(button)),
            !latched ==> final(out)@ == old(out)@.push(
                InputOp::HoldButtonUp {
                    button,
                    target: target_of(old(self)@.mouse, button_byte(button)),
                },
            ),
            latched ==> final(self)@.mouse == old(self)@.mouse.push((button_byte(button), 0isize)),
            latched ==> final(out)@ == old(out)@.push(InputOp::HoldButtonDown { button }),
            final(self)@.keys == old(self)@.keys,
    {
        proof {
            use_type_invariant(&*self);
        }
        let byte = mb_to_byte(button);
        if has_byte_exec(&self.mouse_buttons, byte) {
            let mut target: isize = 0;
            let mut rest: Vec<(u8, isize)> = Vec::new();
            let mut i: usize = 0;
            while i < self.mouse_buttons.len()
                invariant
                    hold_wf(self@),
                    i <= self.mouse_buttons.len(),
                    target == target_of(self.mouse_buttons@.take(i as int), byte),
                    rest@ == without_byte(self.mouse_buttons@.take(i as int), byte),
                decreases self.mouse_buttons.len() - i,
            {
                assert(self.mouse_buttons@.take(i + 1).drop_last() =~= self.mouse_buttons@.take(
                    i as int,
                ));
                let entry = self.mouse_buttons[i];
                if entry.0 == byte {
                    target = entry.1;
                } else {
                    rest.push(entry);
                }
                i += 1;
            }
            assert(self.mouse_buttons@.take(self.mouse_buttons.len() as int)
                =~= self.mouse_buttons@);
            out.push(InputOp::HoldButtonUp { button, target });
            proof {
                lemma_without_byte(self.mouse_buttons@, byte);
                let m = self.mouse_buttons@;
                let r = rest@;
                assert forall|a: int, c: int| 0 <= a < r.len() && 0 <= c < r.len() && a != c implies r[a].0
                    != r[c].0 by {
                    if a < c {
                        let (j1, j2) = choose|j1: int, j2: int|
                            0 <= j1 < j2 < m.len() && m[j1] == r[a] && m[j2] == r[c];
                    } else {
                        let (j1, j2) = choose|j1: int, j2: int|
                            0 <= j1 < j2 < m.len() && m[j1] == r[c] && m[j2] == r[a];
                    }
                }
                assert forall|a: int| 0 <= a < r.len() implies 1 <= #[trigger] r[a].0 <= 3 by {
                    let j = choose|j: int| 0 <= j < m.len() && m[j] == r[a] && m[j].0 != byte;
                }
            }
            assert(hold_wf(self@));
            assert(self@.keys == self.keys@);
            assert(hold_wf(HoldView { keys: self.keys@, mouse: rest@ }));
            self.mouse_buttons = rest;
            false
        } else {
            let ghost m0 = self.mouse_buttons@;
            assert(hold_wf(self@));
            assert forall|a: int, c: int|
                0 <= a < m0.push((byte, 0isize)).len() && 0 <= c < m0.push((byte, 0isize)).len()
                    && a != c implies m0.push((byte, 0isize))[a].0 != m0.push((byte, 0isize))[c].0 by {
                if a == m0.len() {
                    assert(m0[c].0 != byte);
                } else if c == m0.len() {
                    assert(m0[a].0 != byte);
                }
            }
            let mut grown: Vec<(u8, isize)> = Vec::new();
            let mut i: usize = 0;
            while i < self.mouse_buttons.len()
                invariant
                    hold_wf(self@),
                    self.mouse_buttons@ == m0,
                    i <= self.mouse_buttons.len(),
                    grown@ == m0.take(i as int),
                decreases self.mouse_buttons.len() - i,
            {
                grown.push(self.mouse_buttons[i]);
                assert(grown@ =~= m0.take(i + 1));
                i += 1;
            }
            grown.push((byte, 0));
            assert(grown@ =~= m0.push((byte, 0isize)));
            assert(self@.keys == self.keys@);
            assert(hold_wf(HoldView { keys: self.keys@, mouse: grown@ }));
            self.mouse_buttons = grown;
            out.push(InputOp::HoldButtonDown { button });
            true
        }
    }

    /// Sets the window that the latched press of `button` went to.
    pub fn record_mouse_target(&mut self, button: MouseButton, target: isize)
        ensures
            final(self)@.mouse == with_target(old(self)@.mouse, button_byte(button), target),
            final(self)@.keys == old(self)@.keys,
    {
        proof {
            use_type_invariant(&*self);
        }
        let byte = mb_to_byte(button);
        let mut updated: Vec<(u8, isize)> = Vec::new();
        let mut i: usize = 0;
        while i < self.mouse_buttons.len()
            invariant
                hold_wf(self@),
                i <= self.mouse_buttons.len(),
                updated.len() == i,
                forall|j: int|
                    0 <= j < i ==> updated@[j] == (if self.mouse_buttons@[j].0 == byte {
                        (byte, target)
                    } else {
                        self.mouse_buttons@[j]
                    }),
            decreases self.mouse_buttons.len() - i,
        {
            let entry = self.mouse_buttons[i];
            if entry.0 == byte {
                updated.push((byte, target));
            } else {
                updated.push(entry);
            }
            i += 1;
        }
        assert(updated@ =~= with_target(self.mouse_buttons@, byte, target));
        assert(hold_wf(self@));
        assert(self@.mouse == self.mouse_buttons@);
        assert forall|j: int| 0 <= j < updated@.len() implies #[trigger] updated@[j].0
            == self.mouse_buttons@[j].0 by {}
        assert forall|a: int, c: int|
            0 <= a < updated@.len() && 0 <= c < updated@.len() && a != c implies updated@[a].0
            != updated@[c].0 by {
            assert(updated@[a].0 == self.mouse_buttons@[a].0);
            assert(updated@[c].0 == self.mouse_buttons@[c].0);
        }
        assert forall|a: int| 0 <= a < updated@.len() implies 1 <= #[trigger] updated@[a].0
            <= 3 by {
            assert(updated@[a].0 == self.mouse_buttons@[a].0);
        }
        assert(self@.keys == self.keys@);
        assert(hold_wf(HoldView { keys: self.keys@, mouse: updated@ }));
        self.mouse_buttons = updated;
    }

    /// Releases everything latched: each key in the order it went down, then
    /// each mouse button on the window its press went to.
    pub fn release_all(&mut self, out: &mut Vec<InputOp>)
        ensures
            final(out)@ == old(out)@ + key_ups(old(self)@.keys) + latch_releases(old(self)@.mouse),
            final(self)@.keys == Seq::<u16>::empty(),
            final(self)@.mouse == Seq::<(u8, isize)>::empty(),
    {
        let ghost out0 = out@;
        let mut i: usize = 0;
        while i < self.keys.len()
            invariant
                i <= self.keys.len(),
                out@ == out0 + key_ups(self.keys@.take(i as int)),
            decreases self.keys.len() - i,
        {
            assert(self.keys@.take(i + 1).drop_last() =~= self.keys@.take(i as int));
            out.push(InputOp::KeyUp { vk: self.keys[i] });
            assert(out@ =~= out0 + key_ups(self.keys@.take(i + 1)));
            i += 1;
        }
        assert(self.keys@.take(self.keys.len() as int) =~= self.keys@);
        let ghost out1 = out@;
        let mut j: usize = 0;
        while j < self.mouse_buttons.len()
            invariant
                j <= self.mouse_buttons.len(),
                out@ == out1 + latch_releases(self.mouse_buttons@.take(j as int)),
            decreases self.mouse_buttons.len() - j,
        {
            assert(self.mouse_buttons@.take(j + 1).drop_last() =~= self.mouse_buttons@.take(
                j as int,
            ));
            let entry = self.mouse_buttons[j];
            let b = byte_to_mb(entry.0);
            out.push(InputOp::HoldButtonUp { button: b, target: entry.1 });
            assert(out@ =~= out1 + latch_releases(self.mouse_buttons@.take(j + 1)));
            j += 1;
        }
        assert(self.mouse_buttons@.take(self.mouse_buttons.len() as int) =~= self.mouse_buttons@);
        assert(out@ =~= out0 + key_ups(self.keys@) + latch_releases(self.mouse_buttons@));
        *self = VirtualHold { keys: Vec::new(), mouse_buttons: Vec::new() };
    }

    /// The latched keys in ascending order.
    pub fn held_keys(&self) -> (r: Vec<u16>)
        ensures
            r@ == sorted_keys(self@.keys),
            ascending(r@),
            forall|k: u16| r@.contains(k) <==> self@.keys.contains(k),
            (r@.len() > 0) == (self@.keys.len() > 0),
    {
        let mut r: Vec<u16> = Vec::new();
        let mut i: usize = 0;
        while i < self.keys.len()
            invariant
                i <= self.keys.len(),
                ascending(r@),
                forall|k: u16| r@.contains(k) <==> self.keys@.take(i as int).contains(k),
            decreases self.keys.len() - i,
        {
            let k = self.keys[i];
            let mut p: usize = 0;
            while p < r.len() && r[p] < k
                invariant
                    p <= r.len(),
                    forall|q: int| 0 <= q < p ==> r@[q] < k,
                    i < self.keys.len(),
                    k == self.keys@[i as int],
                    ascending(r@),
                    forall|x: u16| r@.contains(x) <==> self.keys@.take(i as int).contains(x),
                decreases r.len() - p,
            {
                p += 1;
            }
            let ghost r0 = r@;
            if p < r.len() && r[p] == k {
                assert forall|x: u16| r@.contains(x) <==> (r0.contains(x) || x == k) by {
                    if x == k {
                        assert(r0[p as int] == x);
                    }
                }
            } else {
                r.insert(p, k);
                assert forall|a: int, c: int| 0 <= a < c < r@.len() implies r@[a] < r@[c] by {
                    if c < p {
                        assert(r@[a] == r0[a] && r@[c] == r0[c]);
                    } else if c == p {
                        assert(r@[a] == r0[a]);
                    } else if a < p {
                        assert(r@[c] == r0[c - 1]);
                        assert(r@[a] == r0[a]);
                        assert(r0[p as int] >= k);
                        if c - 1 > p {
                            assert(r0[p as int] < r0[c - 1]);
                        }
                    } else if a == p {
                        assert(r@[c] == r0[c - 1]);
                        if c - 1 > p {
                            assert(r0[p as int] < r0[c - 1]);
                        }
                    } else {
                        assert(r@[a] == r0[a - 1] && r@[c] == r0[c - 1]);
                    }
                }
                assert forall|x: u16| r@.contains(x) <==> (r0.contains(x) || x == k) by {
                    if r@.contains(x) {
                        let q = choose|q: int| 0 <= q < r@.len() && r@[q] == x;
                        if q < p {
                            assert(r0[q] == x);
                        } else if q > p {
                            assert(r0[q - 1] == x);
                        }
                    }
                    if r0.contains(x) {
                        let q = choose|q: int| 0 <= q < r0.len() && r0[q] == x;
                        if q < p {
                            assert(r@[q] == x);
                        } else {
                            assert(r@[q + 1] == x);
                        }
                    }
                    if x == k {
                        assert(r@[p as int] == x);
                    }
                }
            }
            proof {
                assert(self.keys@.take(i + 1).drop_last() =~= self.keys@.take(i as int));
                assert(self.keys@.take(i + 1).last() == k);
                assert forall|x: u16| self.keys@.take(i + 1).contains(x) <==> (self.keys@.take(
                    i as int,
                ).contains(x) || x == k) by {
                    lemma_contains_last(self.keys@.take(i + 1), x);
                }
                assert forall|x: u16| r@.contains(x) <==> self.keys@.take(i + 1).contains(x) by {
                    assert(r@.contains(x) <==> (r0.contains(x) || x == k));
                    assert(r0.contains(x) <==> self.keys@.take(i as int).contains(x));
                    assert(self.keys@.take(i + 1).contains(x) <==> (self.keys@.take(
                        i as int,
                    ).contains(x) || x == k));
                }
            }
            i += 1;
        }
        assert(self.keys@.take(self.keys.len() as int) =~= self.keys@);
        proof {
            let c = sorted_keys(self.keys@);
            assert(ascending(c) && forall|k: u16| c.contains(k) <==> self.keys@.contains(k));
            lemma_ascending_unique(r@, c);
            if self.keys@.len() > 0 {
                assert(self.keys@.contains(self.keys@[0]));
                assert(r@.contains(self.keys@[0]));
            }
            if r@.len() > 0 {
                assert(r@.contains(r@[0]));
            }
        }
        r
    }

    /// The latched mouse buttons in button order (see `latched_buttons`).
    pub fn held_mouse_buttons(&self) -> (r: Vec<MouseButton>)
        ensures
            r@ == latched_buttons(self@.mouse),
            (r@.len() > 0) == (self@.mouse.len() > 0),
    {
        proof {
            use_type_invariant(self);
            if self.mouse_buttons@.len() > 0 {
                let b = self.mouse_buttons@[0].0;
                assert(self@.mouse == self.mouse_buttons@);
                assert(1 <= self@.mouse[0].0 <= 3);
                assert(has_byte(self.mouse_buttons@, b));
            }
        }
        let mut r: Vec<MouseButton> = Vec::new();
        if has_byte_exec(&self.mouse_buttons, 1) {
            r.push(MouseButton::Left);
        }
        if has_byte_exec(&self.mouse_buttons, 2) {
            r.push(MouseButton::Right);
        }
        if has_byte_exec(&self.mouse_buttons, 3) {
            r.push(MouseButton::Middle);
        }
        assert(r@ =~= latched_buttons(self.mouse_buttons@));
        r
    }
}

/// Two ascending sequences with the same elements are equal.
pub proof fn lemma_ascending_unique(a: Seq<u16>, b: Seq<u16>)
    requires
        ascending(a),
        ascending(b),
        forall|k: u16| a.contains(k) <==> b.contains(k),
    ensures
        a == b,
    decreases a.len(),
{
    if a.len() == 0 {
        if b.len() > 0 {
            assert(b.contains(b[0]));
        }
        assert(a =~= b);
    } else {
        assert(a.contains(a[0]));
        assert(b.contains(a[0]));
        assert(b.len() > 0);
        assert(b.contains(b[0]));
        assert(a.contains(b[0]));
        let ja = choose|j: int| 0 <= j < b.len() && b[j] == a[0];
        let jb = choose|j: int| 0 <= j < a.len() && a[j] == b[0];
        assert(b[0] <= a[0]) by {
            if ja > 0 {
                assert(b[0] < b[ja]);
            }
        }
        assert(a[0] <= b[0]) by {
            if jb > 0 {
                assert(a[0] < a[jb]);
            }
        }
        let a1 = a.subrange(1, a.len() as int);
        let b1 = b.subrange(1, b.len() as int);
        assert forall|k: u16| a1.contains(k) <==> b1.contains(k) by {
            if a1.contains(k) {
                let i = choose|i: int| 0 <= i < a1.len() && a1[i] == k;
                assert(a[i + 1] == k);
                assert(a.contains(k));
                assert(b.contains(k));
                let m = choose|m: int| 0 <= m < b.len() && b[m] == k;
                assert(a[0] < a[i + 1]);
                if m == 0 {
                    assert(false);
                }
                assert(b1[m - 1] == k);
            }
            if b1.contains(k) {
                let i = choose|i: int| 0 <= i < b1.len() && b1[i] == k;
                assert(b[i + 1] == k);
                assert(b.contains(k));
                assert(a.contains(k));
                let m = choose|m: int| 0 <= m < a.len() && a[m] == k;
                assert(b[0] < b[i + 1]);
                if m == 0 {
                    assert(false);
                }
                assert(a1[m - 1] == k);
            }
        }
        lemma_ascending_unique(a1, b1);
        assert(a =~= b) by {
            assert forall|i: int| 0 <= i < a.len() implies a[i] == b[i] by {
                if i > 0 {
                    assert(a[i] == a1[i - 1]);
                    assert(b[i] == b1[i - 1]);
                }
            }
        }
    }
}

proof fn lemma_not_in_disjoint(s: Seq<u16>, t: Seq<u16>)
    requires
        forall|i: int| 0 <= i < s.len() ==> !t.contains(s[i]),
    ensures
        not_in(s, t) == s,
    decreases s.len(),
{
    if s.len() > 0 {
        lemma_not_in_disjoint(s.drop_last(), t);
        assert(s.drop_last().push(s.last()) =~= s);
    }
}

proof fn lemma_not_in_covered(s: Seq<u16>, t: Seq<u16>)
    requires
        forall|i: int| 0 <= i < s.len() ==> t.contains(s[i]),
    ensures
        not_in(s, t) == Seq::<u16>::empty(),
    decreases s.len(),
{
    if s.len() > 0 {
        lemma_not_in_covered(s.drop_last(), t);
    }
}

proof fn lemma_not_in_concat(a: Seq<u16>, b: Seq<u16>, t: Seq<u16>)
    ensures
        not_in(a + b, t) == not_in(a, t) + not_in(b, t),
    decreases b.len(),
{
    if b.len() == 0 {
        assert(a + b =~= a);
        assert(not_in(a, t) + not_in(b, t) =~= not_in(a, t));
    } else {
        assert((a + b).drop_last() =~= a + b.drop_last());
        assert((a + b).last() == b.last());
        lemma_not_in_concat(a, b.drop_last(), t);
        if !t.contains(b.last()) {
            assert(not_in(a, t) + not_in(b.drop_last(), t).push(b.last()) =~= (not_in(a, t)
                + not_in(b.drop_last(), t)).push(b.last()));
        }
    }
}

proof fn lemma_only_in_covered(s: Seq<u16>, t: Seq<u16>)
    requires
        forall|i: int| 0 <= i < s.len() ==> t.contains(s[i]),
    ensures
        only_in(s, t) == s,
    decreases s.len(),
{
    if s.len() > 0 {
        lemma_only_in_covered(s.drop_last(), t);
        assert(s.drop_last().push(s.last()) =~= s);
    }
}

/// Hold mode on a key combo none of whose keys is held: the first toggle
/// presses every key of the combo in order (modifiers first) and latches
/// them after the keys already held; the second toggle releases exactly
/// those keys in reverse order and leaves the held keys as they were.
pub proof fn lemma_combo_round_trip(keys: Seq<u16>, vk: u16, mods: KeyMods)
    requires
        forall|i: int|
            0 <= i < combo_keys(vk, mods).len() ==> !keys.contains(
                #[trigger] combo_keys(vk, mods)[i],
            ),
    ensures
        ({
            let c = combo_keys(vk, mods);
            let latched = keys + not_in(c, keys);
            &&& !keys.contains(vk)
            &&& not_in(c, keys) == c
            &&& latched.contains(vk)
            &&& not_in(latched, c) == keys
            &&& only_in(c.reverse(), latched) == c.reverse()
        }),
{
    let c = combo_keys(vk, mods);
    lemma_combo_no_dup(vk, mods);
    let iv = choose|i: int| 0 <= i < c.len() && c[i] == vk;
    assert(!keys.contains(c[iv]));
    lemma_not_in_disjoint(c, keys);
    let latched = keys + c;
    assert(latched[keys.len() + iv] == vk);
    assert(forall|i: int| 0 <= i < keys.len() ==> !c.contains(#[trigger] keys[i])) by {
        assert forall|i: int| 0 <= i < keys.len() implies !c.contains(#[trigger] keys[i]) by {
            if c.contains(keys[i]) {
                let j = choose|j: int| 0 <= j < c.len() && c[j] == keys[i];
                assert(keys.contains(c[j]));
            }
        }
    }
    lemma_not_in_disjoint(keys, c);
    assert forall|i: int| 0 <= i < c.len() implies c.contains(#[trigger] c[i]) by {}
    lemma_not_in_covered(c, c);
    lemma_not_in_concat(keys, c, c);
    assert(keys + Seq::<u16>::empty() =~= keys);
    assert forall|i: int| 0 <= i < c.reverse().len() implies latched.contains(
        #[trigger] c.reverse()[i],
    ) by {
        let j = c.len() - 1 - i;
        assert(c.reverse()[i] == c[j]);
        assert(latched[keys.len() + j] == c[j]);
    }
    lemma_only_in_covered(c.reverse(), latched);
}

/// Hold mode on a mouse button that is not latched: after the press is
/// latched and the window it went to is noted, the release goes to that
/// window and the latch table is as it was before.
pub proof fn lemma_mouse_round_trip(m: Seq<(u8, isize)>, b: u8, target: isize)
    requires
        !has_byte(m, b),
    ensures
        ({
            let latched = with_target(m.push((b, 0isize)), b, target);
            &&& has_byte(latched, b)
            &&& target_of(latched, b) == target
            &&& without_byte(latched, b) == m
        }),
{
    let latched = with_target(m.push((b, 0isize)), b, target);
    assert(latched[m.len() as int] == (b, target));
    assert(latched.drop_last() =~= m) by {
        assert forall|i: int| 0 <= i < m.len() implies latched.drop_last()[i] == m[i] by {
            if m[i].0 == b {
                assert(has_byte(m, b));
            }
        }
    }
    assert(forall|i: int| 0 <= i < m.len() ==> #[trigger] m[i].0 != b);
    lemma_without_byte_absent(m, b);
}

proof fn lemma_without_byte_absent(m: Seq<(u8, isize)>, b: u8)
    requires
        forall|i: int| 0 <= i < m.len() ==> #[trigger] m[i].0 != b,
    ensures
        without_byte(m, b) == m,
    decreases m.len(),
{
    if m.len() > 0 {
        lemma_without_byte_absent(m.drop_last(), b);
        assert(m.drop_last().push(m.last()) =~= m);
    }
}

} // verus!
