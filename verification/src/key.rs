//! Key presses, independent of any terminal library.

use vstd::prelude::*;

verus! {

/// One key press as the state machines see it.
#[derive(Clone, Copy, Debug, PartialEq, Eq, Structural)]
pub enum Key {
    /// A printable character.
    Char(char),
    Backspace,
    Tab,
    Enter,
    Esc,
    /// Any key that has no meaning here.
    Other,
}

} // verus!
