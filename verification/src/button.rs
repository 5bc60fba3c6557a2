//! The mouse button a click burst acts on.

use vstd::prelude::*;

verus! {

/// Identity of the emulated mouse button.
#[derive(Clone, Copy, Debug, PartialEq, Eq, Structural)]
pub enum MouseButton {
    /// The primary (left) button.
    Left,
    /// The secondary (right) button.
    Right,
}

impl Default for MouseButton {
    /// The button used when the configuration names none.
    fn default() -> (r: Self)
        ensures
            r == MouseButton::Left,
    {
        MouseButton::Left
    }
}

} // verus!
