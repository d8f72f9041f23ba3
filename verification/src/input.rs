//! Key presses, as the desktop and its applications read them.

use vstd::prelude::*;

verus! {

/// A key press. Keys that no screen reacts to are `Other`.
#[derive(Clone, Copy, Debug, PartialEq, Eq, Structural)]
pub enum Key {
    Char(char),
    Enter,
    Backspace,
    Esc,
    Left,
    Right,
    Other,
}

} // verus!
