//! The direction from which a focus change arrives at a view.

use vstd::prelude::*;

verus! {

/// Where a focus request comes from, relative to the target.
#[derive(Clone, Copy, PartialEq, Eq, Structural, Debug)]
pub enum Direction {
    /// No particular direction, for example a programmatic focus move.
    Neutral,
    /// Focus arriving from the front of the tree walk.
    Front,
    /// Focus arriving from the back of the tree walk.
    Back,
}

impl Direction {
    /// The direction used when none applies.
    pub fn none() -> (r: Direction)
        ensures
            r == Direction::Neutral,
    {
        Direction::Neutral
    }
}

} // verus!
