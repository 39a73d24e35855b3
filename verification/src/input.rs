//! Movement input: from the set of held keys to a step direction.

use vstd::prelude::*;

verus! {

/// A snapshot of the four movement keys, taken once per frame.
#[derive(Clone, Copy, Debug, PartialEq, Eq, Structural)]
pub struct HeldKeys {
    pub up: bool,
    pub down: bool,
    pub left: bool,
    pub right: bool,
}

/// The direction in which the player moves during one frame.  Each
/// component is -1, 0 or 1; the vector is not normalised, so a diagonal
/// step is longer than an axis-aligned one.
#[derive(Clone, Copy, Debug, PartialEq, Eq, Structural)]
pub struct Direction {
    pub dx: i8,
    pub dy: i8,
}

/// One key's contribution along its axis.
pub open spec fn unit(held: bool) -> int {
    if held { 1 } else { 0 }
}

impl HeldKeys {
    /// The horizontal component: right counts +1, left counts -1.
    pub open spec fn spec_dx(self) -> int {
        unit(self.right) - unit(self.left)
    }

    /// The vertical component: up counts +1, down counts -1.
    pub open spec fn spec_dy(self) -> int {
        unit(self.up) - unit(self.down)
    }

    /// Sums the unit contributions of the held keys.  Opposite keys cancel.
    pub fn direction(&self) -> (d: Direction)
        ensures
            d.dx == self.spec_dx(),
            d.dy == self.spec_dy(),
    {
        let mut dx: i8 = 0;
        let mut dy: i8 = 0;
        if self.up {
            dy = dy + 1;
        }
        if self.down {
            dy = dy - 1;
        }
        if self.left {
            dx = dx - 1;
        }
        if self.right {
            dx = dx + 1;
        }
        Direction { dx, dy }
    }
}

} // verus!
