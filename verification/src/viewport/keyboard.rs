//! The keys that steer the view.
use vstd::prelude::*;
use vstd::string::StrSliceExecFns;

use crate::viewport::{ViewportController, ViewportView};

verus! {

/// Which of the steering keys are held down.
#[derive(Debug, Clone, Copy, PartialEq, Eq, Structural)]
pub struct KeysHeld {
    pub shift: bool,
    pub ctrl: bool,
    pub left: bool,
    pub right: bool,
    pub up: bool,
    pub down: bool,
    pub plus: bool,
    pub minus: bool,
}

/// A steering key.
#[derive(Debug, Clone, Copy, PartialEq, Eq, Structural)]
pub enum Key {
    Up,
    Down,
    Left,
    Right,
    Plus,
    Minus,
    Shift,
    Ctrl,
}

/// The steering key that a key identifier names, if it names one.
pub open spec fn key_named(name: Seq<char>) -> Option<Key> {
    if name == "ArrowUp"@ {
        Some(Key::Up)
    } else if name == "ArrowDown"@ {
        Some(Key::Down)
    } else if name == "ArrowLeft"@ {
        Some(Key::Left)
    } else if name == "ArrowRight"@ {
        Some(Key::Right)
    } else if name == "="@ || name == "+"@ {
        Some(Key::Plus)
    } else if name == "-"@ || name == "_"@ {
        Some(Key::Minus)
    } else if name == "Shift"@ {
        Some(Key::Shift)
    } else if name == "Control"@ {
        Some(Key::Ctrl)
    } else {
        None
    }
}

/// Whether two strings hold the same characters.
fn same_text(a: &str, b: &str) -> (r: bool)
    ensures
        r == (a@ == b@),
{
    let n = a.unicode_len();
    if n != b.unicode_len() {
        return false;
    }
    let mut i: usize = 0;
    while i < n
        invariant
            i <= n,
            n == a@.len(),
            n == b@.len(),
            forall|k: int| 0 <= k < i ==> a@[k] == b@[k],
        decreases n - i,
    {
        if a.get_char(i) != b.get_char(i) {
            return false;
        }
        i += 1;
    }
    assert(a@ =~= b@);
    true
}

impl Key {
    /// Reads a key identifier as the host reports it.
    pub fn from_name(name: &str) -> (r: Option<Key>)
        ensures
            r == key_named(name@),
    {
        if same_text(name, "ArrowUp") {
            Some(Key::Up)
        } else if same_text(name, "ArrowDown") {
            Some(Key::Down)
        } else if same_text(name, "ArrowLeft") {
            Some(Key::Left)
        } else if same_text(name, "ArrowRight") {
            Some(Key::Right)
        } else if same_text(name, "=") || same_text(name, "+") {
            Some(Key::Plus)
        } else if same_text(name, "-") || same_text(name, "_") {
            Some(Key::Minus)
        } else if same_text(name, "Shift") {
            Some(Key::Shift)
        } else if same_text(name, "Control") {
            Some(Key::Ctrl)
        } else {
            None
        }
    }
}

impl KeysHeld {
    /// The flags with the one for `key` set to `held`.
    pub open spec fn with(self, key: Key, held: bool) -> KeysHeld {
        match key {
            Key::Up => KeysHeld { up: held, ..self },
            Key::Down => KeysHeld { down: held, ..self },
            Key::Left => KeysHeld { left: held, ..self },
            Key::Right => KeysHeld { right: held, ..self },
            Key::Plus => KeysHeld { plus: held, ..self },
            Key::Minus => KeysHeld { minus: held, ..self },
            Key::Shift => KeysHeld { shift: held, ..self },
            Key::Ctrl => KeysHeld { ctrl: held, ..self },
        }
    }

    /// No key held.
    pub open spec fn none() -> KeysHeld {
        KeysHeld {
            shift: false,
            ctrl: false,
            left: false,
            right: false,
            up: false,
            down: false,
            plus: false,
            minus: false,
        }
    }

    /// Whether a key is held that moves or zooms the view at every frame.
    pub open spec fn any_motion(self) -> bool {
        self.plus || self.minus || self.left || self.right || self.up || self.down
    }

    /// Records that `key` went down (`held`) or up.
    pub fn set(&mut self, key: Key, held: bool)
        ensures
            *final(self) == old(self).with(key, held),
    {
        match key {
            Key::Up => self.up = held,
            Key::Down => self.down = held,
            Key::Left => self.left = held,
            Key::Right => self.right = held,
            Key::Plus => self.plus = held,
            Key::Minus => self.minus = held,
            Key::Shift => self.shift = held,
            Key::Ctrl => self.ctrl = held,
        }
    }

    /// Whether the view has to be advanced at every frame.
    pub fn in_motion(&self) -> (r: bool)
        ensures
            r == self.any_motion(),
    {
        self.plus || self.minus || self.left || self.right || self.up || self.down
    }
}

/// The flags after the key that `name` names went down (`held`) or up; a
/// name of no steering key changes nothing.
pub open spec fn keys_after(keys: KeysHeld, name: Seq<char>, held: bool) -> KeysHeld {
    match key_named(name) {
        Some(key) => keys.with(key, held),
        None => keys,
    }
}

impl ViewportController {
    /// Records a key press or release.
    fn key_event(&mut self, name: &str, held: bool) -> (r: bool)
        ensures
            final(self)@ == (ViewportView {
                keys_held: keys_after(old(self)@.keys_held, name@, held),
                ..old(self)@
            }),
            r == final(self)@.keys_held.any_motion(),
    {
        match Key::from_name(name) {
            Some(key) => self.keys_held.set(key, held),
            None => {},
        }
        self.keys_held.in_motion()
    }

    /// A key went down. Returns whether the view has to be advanced at every
    /// frame from now on.
    pub fn key_down(&mut self, name: &str) -> (r: bool)
        ensures
            final(self)@ == (ViewportView {
                keys_held: keys_after(old(self)@.keys_held, name@, true),
                ..old(self)@
            }),
            r == final(self)@.keys_held.any_motion(),
    {
        self.key_event(name, true)
    }

    /// A key went up. Returns whether the view still has to be advanced at
    /// every frame.
    pub fn key_up(&mut self, name: &str) -> (r: bool)
        ensures
            final(self)@ == (ViewportView {
                keys_held: keys_after(old(self)@.keys_held, name@, false),
                ..old(self)@
            }),
            r == final(self)@.keys_held.any_motion(),
    {
        self.key_event(name, false)
    }
}

impl Default for KeysHeld {
    fn default() -> (r: Self)
        ensures
            r == KeysHeld::none(),
    {
        KeysHeld {
            shift: false,
            ctrl: false,
            left: false,
            right: false,
            up: false,
            down: false,
            plus: false,
            minus: false,
        }
    }
}

} // verus!
