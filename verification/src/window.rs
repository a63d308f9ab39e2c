//! The rectangular play field that paddles and ball move in.

use vstd::prelude::*;

verus! {

/// Dimensions of the play field.  Fixed for the whole run of a game.
#[derive(Clone, Copy, Debug, PartialEq, Eq, Structural)]
pub struct Window {
    pub width: isize,
    pub height: isize,
}

impl Window {
    /// A play field has strictly positive extent on both axes.
    pub open spec fn wf(self) -> bool {
        self.width > 0 && self.height > 0
    }
}

} // verus!
