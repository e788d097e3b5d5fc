//! Makes any view wrappable under a name.

use vstd::prelude::*;
use crate::views::named::Named;

verus! {

/// Makes a view wrappable in a `Named`.
pub trait Identifiable: crate::view::View + Sized {
    /// Wraps this view under the given name, so that it can be found in
    /// the layout tree later. Call it directly on the view to retrieve,
    /// before other wrappers; otherwise the lookup will hand back the
    /// outer wrapper.
    fn with_id(self, id: &str) -> (r: Named<Self>)
        ensures
            r.name@ == id@,
            r.view == self,
    {
        Named::new(id, self)
    }
}

impl<T: crate::view::View> Identifiable for T {

}

} // verus!
