//! The decoded terminal input events that the router classifies.
//!
//! The terminal collaborator decodes the raw input stream outside this
//! library; what the routing rules read of an event is carried here as plain
//! values: the event's kind, a key's character and modifier set, a mouse
//! event's kind and position.

use vstd::prelude::*;

verus! {

/// The modifier set carried by a key event.
#[derive(Clone, Copy, Debug, PartialEq, Eq, Structural)]
pub struct Modifiers {
    /// Shift was held.
    pub shift: bool,
    /// Control was held.
    pub control: bool,
    /// Alt was held.
    pub alt: bool,
}

impl Modifiers {
    /// The empty modifier set.
    pub fn none() -> (m: Modifiers)
        ensures
            m == (Modifiers { shift: false, control: false, alt: false }),
    {
        Modifiers { shift: false, control: false, alt: false }
    }

    /// The modifier set holding control alone.
    pub fn control_only() -> (m: Modifiers)
        ensures
            m == (Modifiers { shift: false, control: true, alt: false }),
    {
        Modifiers { shift: false, control: true, alt: false }
    }
}

/// A key's code.
#[derive(Clone, Copy, Debug, PartialEq, Eq, Structural)]
pub enum KeyCode {
    /// A character key.
    Char(char),
    /// Any non-character key (enter, escape, arrows, function keys, ...).
    NonChar,
}

/// A decoded keystroke: a code and a modifier set.
#[derive(Clone, Copy, Debug, PartialEq, Eq, Structural)]
pub struct KeyEvent {
    /// Which key was pressed.
    pub code: KeyCode,
    /// The modifiers held with it.
    pub modifiers: Modifiers,
}

/// The kind of a mouse event.
#[derive(Clone, Copy, Debug, PartialEq, Eq, Structural)]
pub enum MouseKind {
    /// A button was pressed.
    Down,
    /// A button was released.
    Up,
    /// The pointer moved, with or without a button held.
    Moved,
    /// The scroll wheel turned.
    Scroll,
}

/// A decoded mouse event: a kind and a position.
#[derive(Clone, Copy, Debug, PartialEq, Eq, Structural)]
pub struct MouseEvent {
    /// What the mouse did.
    pub kind: MouseKind,
    /// The column of the pointer, in terminal cells.
    pub column: u16,
    /// The row of the pointer, in terminal cells.
    pub row: u16,
}

/// A decoded terminal input event, consumed exactly once by the router.
#[derive(Clone, Copy, Debug, PartialEq, Eq, Structural)]
pub enum InputEvent {
    /// A keystroke.
    Key(KeyEvent),
    /// A mouse action.
    Mouse(MouseEvent),
    /// Anything else the terminal reports (focus, resize, paste, ...).
    Other,
}

} // verus!
