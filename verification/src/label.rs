//! The shared label's value and the two signal categories.

use vstd::prelude::*;

verus! {

/// The category of a classified signal: which queue it was sent on.
#[derive(Clone, Copy, Debug, PartialEq, Eq, Structural)]
pub enum Category {
    /// A key event other than the hard-exit chord.
    Keypress,
    /// A mouse button-down event.
    Click,
}

/// The value held by the shared label slot: the most recently classified
/// category since startup, or `Nothing` before the first signal.
#[derive(Clone, Copy, Debug, PartialEq, Eq, Structural)]
pub enum Label {
    /// No signal has been received yet.
    Nothing,
    /// The most recent signal was a keypress.
    KeyPressed,
    /// The most recent signal was a click.
    Clicked,
}

/// The label a category listener writes into the shared slot when it receives
/// a signal of category `c`.
pub open spec fn spec_label_for(c: Category) -> Label {
    match c {
        Category::Keypress => Label::KeyPressed,
        Category::Click => Label::Clicked,
    }
}

/// Executable form of [`spec_label_for`].
pub fn label_for(c: Category) -> (l: Label)
    ensures
        l == spec_label_for(c),
{
    match c {
        Category::Keypress => Label::KeyPressed,
        Category::Click => Label::Clicked,
    }
}

impl Label {
    /// The exact text the printer emits for this label.
    pub open spec fn spec_text(self) -> Seq<char> {
        match self {
            Label::Nothing => "nothing"@,
            Label::KeyPressed => "key pressed"@,
            Label::Clicked => "clicked"@,
        }
    }

    /// The line printed for this label, without the trailing carriage return
    /// that raw terminal mode asks for.
    pub fn text(self) -> (s: &'static str)
        ensures
            s@ == self.spec_text(),
    {
        match self {
            Label::Nothing => "nothing",
            Label::KeyPressed => "key pressed",
            Label::Clicked => "clicked",
        }
    }
}

} // verus!
