//! Makes any view wrappable in a scroll wrapper.

use vstd::prelude::*;
use crate::views::scroll::Scroll;

verus! {

/// Makes a view wrappable in a `Scroll`.
pub trait Scrollable: crate::view::View + Sized {
    /// Wraps `self` in a `Scroll`.
    fn scrollable(self) -> (r: Scroll<Self>)
        ensures
            r.view == self,
            !r.scroll_x,
            r.scroll_y,
    {
        Scroll::new(self)
    }
}

impl<T: crate::view::View> Scrollable for T {

}

} // verus!
