//! The values that key and mouse bindings are written in.
use vstd::prelude::*;
use vstd::string::StringSliceAdditionalSpecFns;
use crate::Xid;
use crate::geometry::Point;

verus! {

/// A key press, as the bindings see it.
#[derive(Debug, Clone, PartialEq, Eq, Hash)]
pub enum KeyPress {
    /// A key that stands for text.
    Utf8(String),
    Return,
    Escape,
    Tab,
    Backspace,
    Delete,
    PageUp,
    PageDown,
    Up,
    Down,
    Left,
    Right,
}

/// A bit mask of held modifiers.
pub type KeyCodeMask = u16;

/// A key code.
pub type KeyCodeValue = u8;

/// A key and the modifiers held with it.
#[derive(Debug, PartialEq, Eq, Structural, Hash, Clone, Copy)]
pub struct KeyCode {
    pub mask: KeyCodeMask,
    pub code: KeyCodeValue,
}

impl KeyCode {
    /// The same key with the modifiers of `mask` no longer held.
    pub fn ignoring_modifier(&self, mask: KeyCodeMask) -> (r: KeyCode)
        ensures
            r.mask == self.mask & !mask,
            r.code == self.code,
    {
        KeyCode { mask: self.mask & !mask, code: self.code }
    }
}

/// The mouse buttons that bindings can name.
#[derive(Debug, PartialEq, Eq, Structural, Hash, Clone, Copy)]
pub enum MouseButton {
    Left,
    Middle,
    Right,
    ScrollUp,
    ScrollDown,
}

/// The button's number in the display protocol.
pub open spec fn button_number(b: MouseButton) -> u8 {
    match b {
        MouseButton::Left => 1,
        MouseButton::Middle => 2,
        MouseButton::Right => 3,
        MouseButton::ScrollUp => 4,
        MouseButton::ScrollDown => 5,
    }
}

impl From<MouseButton> for u8 {
    fn from(b: MouseButton) -> (r: u8) {
        match b {
            MouseButton::Left => 1,
            MouseButton::Middle => 2,
            MouseButton::Right => 3,
            MouseButton::ScrollUp => 4,
            MouseButton::ScrollDown => 5,
        }
    }
}

impl vstd::std_specs::convert::FromSpecImpl<MouseButton> for u8 {
    open spec fn obeys_from_spec() -> bool {
        true
    }

    open spec fn from_spec(b: MouseButton) -> u8 {
        button_number(b)
    }
}

/// The modifier keys that bindings can name, in their order.
#[derive(Debug, PartialEq, Eq, Structural, Hash, Clone, Copy, PartialOrd, Ord)]
pub enum ModifierKey {
    Ctrl,
    Alt,
    Shift,
    Meta,
}

/// A binding named a modifier that does not exist.
#[derive(Debug, Clone, PartialEq, Eq)]
pub enum BindingError {
    UnknownModifier(String),
}

impl ModifierKey {
    /// All modifiers, in their order.
    pub fn all() -> (r: Vec<ModifierKey>)
        ensures
            r@ == seq![ModifierKey::Ctrl, ModifierKey::Alt, ModifierKey::Shift, ModifierKey::Meta],
    {
        vec![ModifierKey::Ctrl, ModifierKey::Alt, ModifierKey::Shift, ModifierKey::Meta]
    }

    /// The modifier that a one letter name stands for: "C", "A", "S" or "M".
    pub fn from_name(s: &str) -> (r: Result<ModifierKey, BindingError>)
        ensures
            s.spec_bytes() == seq!['C' as u8] ==> r == Ok::<ModifierKey, BindingError>(ModifierKey::Ctrl),
            s.spec_bytes() == seq!['A' as u8] ==> r == Ok::<ModifierKey, BindingError>(ModifierKey::Alt),
            s.spec_bytes() == seq!['S' as u8] ==> r == Ok::<ModifierKey, BindingError>(ModifierKey::Shift),
            s.spec_bytes() == seq!['M' as u8] ==> r == Ok::<ModifierKey, BindingError>(ModifierKey::Meta),
            r is Err <==> !(s.spec_bytes() == seq!['C' as u8] || s.spec_bytes() == seq!['A' as u8]
                || s.spec_bytes() == seq!['S' as u8] || s.spec_bytes() == seq!['M' as u8]),
            r matches Err(BindingError::UnknownModifier(name)) ==> name@ == s@,
    {
        let b = s.as_bytes();
        if b.len() == 1 {
            let c = b[0];
            proof {
                assert(b@ =~= seq![c]);
            }
            if c == 67 {
                return Ok(ModifierKey::Ctrl);
            } else if c == 65 {
                return Ok(ModifierKey::Alt);
            } else if c == 83 {
                return Ok(ModifierKey::Shift);
            } else if c == 77 {
                return Ok(ModifierKey::Meta);
            }
        }
        Err(BindingError::UnknownModifier(s.to_owned()))
    }
}

/// How many times `k` occurs in `s`.
pub open spec fn count_of(s: Seq<ModifierKey>, k: ModifierKey) -> nat
    decreases s.len(),
{
    if s.len() == 0 {
        0
    } else {
        count_of(s.drop_last(), k) + if s.last() == k {
            1nat
        } else {
            0nat
        }
    }
}

/// `n` copies of `k`.
pub open spec fn copies(k: ModifierKey, n: nat) -> Seq<ModifierKey> {
    Seq::new(n, |_i: int| k)
}

/// The modifiers of `s` in their order: each as many times as `s` holds it.
pub open spec fn sorted_modifiers(s: Seq<ModifierKey>) -> Seq<ModifierKey> {
    copies(ModifierKey::Ctrl, count_of(s, ModifierKey::Ctrl)) + copies(ModifierKey::Alt, count_of(s, ModifierKey::Alt))
        + copies(ModifierKey::Shift, count_of(s, ModifierKey::Shift)) + copies(
        ModifierKey::Meta,
        count_of(s, ModifierKey::Meta),
    )
}

fn push_copies(out: &mut Vec<ModifierKey>, k: ModifierKey, n: usize)
    ensures
        final(out)@ == old(out)@ + copies(k, n as nat),
{
    let mut j: usize = 0;
    while j < n
        invariant
            j <= n,
            out@ == old(out)@ + copies(k, j as nat),
        decreases n - j,
    {
        out.push(k);
        j = j + 1;
        proof {
            assert(out@ =~= old(out)@ + copies(k, j as nat));
        }
    }
}

/// A mouse button with the modifiers held while it is pressed.
#[derive(Debug, PartialEq, Eq, Hash, Clone)]
pub struct MouseState {
    pub button: MouseButton,
    /// Held modifiers, in their order.
    pub modifiers: Vec<ModifierKey>,
}

impl MouseState {
    /// A mouse state; the modifiers are put in their order, so that states
    /// that name the same modifiers in another order are equal.
    pub fn new(button: MouseButton, modifiers: Vec<ModifierKey>) -> (r: Self)
        ensures
            r.button == button,
            r.modifiers@ == sorted_modifiers(modifiers@),
    {
        let mut counts: [usize; 4] = [0, 0, 0, 0];
        let mut i: usize = 0;
        while i < modifiers.len()
            invariant
                i <= modifiers@.len(),
                counts@[0] == count_of(modifiers@.subrange(0, i as int), ModifierKey::Ctrl),
                counts@[1] == count_of(modifiers@.subrange(0, i as int), ModifierKey::Alt),
                counts@[2] == count_of(modifiers@.subrange(0, i as int), ModifierKey::Shift),
                counts@[3] == count_of(modifiers@.subrange(0, i as int), ModifierKey::Meta),
                counts@[0] <= i && counts@[1] <= i && counts@[2] <= i && counts@[3] <= i,
            decreases modifiers@.len() - i,
        {
            proof {
                let next = modifiers@.subrange(0, i + 1);
                assert(next.drop_last() =~= modifiers@.subrange(0, i as int));
            }
            let slot: usize = match modifiers[i] {
                ModifierKey::Ctrl => 0,
                ModifierKey::Alt => 1,
                ModifierKey::Shift => 2,
                ModifierKey::Meta => 3,
            };
            counts[slot] = counts[slot] + 1;
            i = i + 1;
        }
        assert(modifiers@.subrange(0, modifiers@.len() as int) =~= modifiers@);
        let mut out: Vec<ModifierKey> = Vec::new();
        push_copies(&mut out, ModifierKey::Ctrl, counts[0]);
        push_copies(&mut out, ModifierKey::Alt, counts[1]);
        push_copies(&mut out, ModifierKey::Shift, counts[2]);
        push_copies(&mut out, ModifierKey::Meta, counts[3]);
        proof {
            assert(out@ =~= sorted_modifiers(modifiers@));
        }
        MouseState { button, modifiers: out }
    }
}

/// What a mouse event reports.
#[derive(Debug, Clone, Copy, Hash, PartialEq, Eq, Structural)]
pub enum MouseEventKind {
    Press,
    Release,
    Motion,
}

/// A mouse event.
#[derive(Debug, Clone, PartialEq, Eq, Hash)]
pub struct MouseEvent {
    /// The window the event happened in.
    pub id: Xid,
    /// Where it happened, in screen coordinates.
    pub rpt: Point,
    /// Where it happened, relative to the window's top left corner.
    pub wpt: Point,
    pub state: MouseState,
    pub kind: MouseEventKind,
}

impl MouseEvent {
    /// A mouse event from the raw values the display reports.
    pub fn new(id: Xid, rx: i16, ry: i16, ex: i16, ey: i16, state: MouseState, kind: MouseEventKind) -> (r: Self)
        ensures
            r.id == id,
            r.rpt == (Point { x: rx as u32, y: ry as u32 }),
            r.wpt == (Point { x: ex as u32, y: ey as u32 }),
            r.state == state,
            r.kind == kind,
    {
        MouseEvent {
            id,
            rpt: Point::new(rx as u32, ry as u32),
            wpt: Point::new(ex as u32, ey as u32),
            state,
            kind,
        }
    }
}

} // verus!
