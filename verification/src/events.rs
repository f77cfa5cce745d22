//! The input events the text-field engine consumes, with the modifier and
//! shortcut conventions of the host platform.

use vstd::prelude::*;

verus! {

/// The host platform family; it decides word-jump modifiers and one
/// delete-key quirk.
#[derive(Clone, Copy, PartialEq, Eq, Structural, Debug)]
pub enum HostOs {
    Mac,
    Windows,
    Other,
}

/// Keyboard modifier state as the host reports it. `command` stands for the
/// platform's primary shortcut modifier (command on a Mac, control
/// elsewhere); the host fills it consistently with `ctrl` and `mac_cmd`.
#[derive(Clone, Copy, PartialEq, Eq, Structural, Debug, Default)]
pub struct Modifiers {
    pub alt: bool,
    pub ctrl: bool,
    pub shift: bool,
    pub mac_cmd: bool,
    pub command: bool,
}

/// Whether pressed modifiers `m` match a shortcut `pattern` on its primary
/// modifier, treating control and command as platform-interchangeable.
pub open spec fn cmd_ctrl_matches(m: Modifiers, pattern: Modifiers) -> bool {
    if pattern.mac_cmd {
        m.mac_cmd && pattern.ctrl == m.ctrl
    } else if !pattern.ctrl && !pattern.command {
        !m.ctrl && !m.command
    } else {
        (pattern.ctrl ==> m.ctrl) && (pattern.command ==> m.command)
    }
}

/// Whether pressed modifiers `m` match a shortcut `pattern`, requiring the
/// pattern's alt and shift but tolerating extra ones.
pub open spec fn matches_logically(m: Modifiers, pattern: Modifiers) -> bool {
    &&& (pattern.alt ==> m.alt)
    &&& (pattern.shift ==> m.shift)
    &&& cmd_ctrl_matches(m, pattern)
}

impl Modifiers {
    /// No modifier held.
    pub open spec fn spec_is_none(self) -> bool {
        !self.alt && !self.ctrl && !self.shift && !self.mac_cmd && !self.command
    }

    pub fn is_none(&self) -> (r: bool)
        ensures
            r == self.spec_is_none(),
    {
        !self.alt && !self.ctrl && !self.shift && !self.mac_cmd && !self.command
    }

    pub fn check_matches_logically(&self, pattern: &Modifiers) -> (r: bool)
        ensures
            r == matches_logically(*self, *pattern),
    {
        if pattern.alt && !self.alt {
            return false;
        }
        if pattern.shift && !self.shift {
            return false;
        }
        if pattern.mac_cmd {
            self.mac_cmd && pattern.ctrl == self.ctrl
        } else if !pattern.ctrl && !pattern.command {
            !self.ctrl && !self.command
        } else {
            (!pattern.ctrl || self.ctrl) && (!pattern.command || self.command)
        }
    }
}

/// The keys the engine reacts to. Everything else never reaches it.
#[derive(Clone, Copy, PartialEq, Eq, Structural, Debug)]
pub enum Key {
    ArrowDown,
    ArrowLeft,
    ArrowRight,
    ArrowUp,
    Home,
    End,
    Tab,
    Enter,
    Backspace,
    Delete,
    A,
    B,
    E,
    F,
    H,
    K,
    N,
    P,
    U,
    W,
    Y,
    Z,
}

/// A configurable key combination, such as the submit key.
#[derive(Clone, Copy, PartialEq, Eq, Structural, Debug)]
pub struct KeyCombo {
    pub key: Key,
    pub modifiers: Modifiers,
}

/// The redo shortcut: command+Y, or shift+command+Z.
pub open spec fn is_redo_shortcut(key: Key, m: Modifiers) -> bool {
    ||| key == Key::Y && m.command
    ||| key == Key::Z && m.command && m.shift
}

/// The undo shortcut: command+Z (the redo arm is checked first, so
/// shift+command+Z never reaches it).
pub open spec fn is_undo_shortcut(key: Key, m: Modifiers) -> bool {
    key == Key::Z && m.command
}

/// An input-method composition sub-event.
#[derive(Clone, Debug)]
pub enum ImeEvent {
    Enabled,
    Preedit(Vec<char>),
    Commit(Vec<char>),
    Disabled,
}

/// One input event relevant to the text field, already filtered by the host.
#[derive(Clone, Debug)]
pub enum TextEvent {
    /// Copy the selection to the clipboard.
    Copy,
    /// Copy the selection to the clipboard, then delete it.
    Cut,
    /// Clipboard contents pasted into the field.
    Paste(Vec<char>),
    /// Characters typed into the field.
    Text(Vec<char>),
    /// A key pressed with the given modifiers.
    Key { key: Key, modifiers: Modifiers, repeat: bool },
    /// An input-method composition sub-event.
    Ime(ImeEvent),
}

} // verus!
