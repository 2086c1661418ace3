//! The keys that the game listens to.

use vstd::prelude::*;

verus! {

/// A key press, reduced to what the game tells apart. Two presses are the same
/// key exactly when they are equal.
#[derive(Clone, Copy, Debug, PartialEq, Eq, Structural)]
pub enum Key {
    Enter,
    Esc,
    Tab,
    Backspace,
    Up,
    Down,
    Left,
    Right,
    /// A character key.
    Char(char),
    /// Any key that the game gives no meaning.
    Other,
}

} // verus!
