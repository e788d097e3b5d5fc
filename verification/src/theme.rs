//! A minimal model of the color theme. Palette parsing and file loading are
//! external collaborators; the controller only needs the background color
//! for clearing and the shadow flag for floating layers.

use vstd::prelude::*;

verus! {

/// The visual theme applied by the controller.
#[derive(Clone, Copy, PartialEq, Eq, Structural, Debug)]
pub struct Theme {
    /// Whether floating layers cast a drop shadow.
    pub shadow: bool,
    /// Palette index of the background color, handed to the backend when
    /// clearing the screen.
    pub background: u8,
}

/// The theme used when none is set.
pub fn load_default() -> (r: Theme)
    ensures
        r == (Theme { shadow: true, background: 0 }),
{
    Theme { shadow: true, background: 0 }
}

} // verus!
