//! The key inputs the controllers decide on. The terminal front end maps its
//! own event type onto this one before handing a key to the library.

use vstd::prelude::*;

verus! {

/// One keyboard input, as the view controllers see it.
#[derive(PartialEq, Eq, Structural, Debug, Clone, Copy)]
pub enum Key {
    Left,
    Right,
    Up,
    Down,
    Enter,
    Esc,
    Tab,
    Backspace,
    Char(char),
    /// The interrupt chord that quits the application.
    CtrlC,
    /// Any key the controllers never distinguish.
    Other,
}

} // verus!
