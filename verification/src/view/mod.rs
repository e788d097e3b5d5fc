//! The component capability every tree node implements, and the selectors
//! used to address a node in the tree.

use vstd::prelude::*;

pub mod boxable;
pub mod scrollable;
pub mod view_path;

pub use view_path::ViewPath;

use crate::direction::Direction;
use crate::event::Event;
use crate::event::EventResult;
use crate::geom::Vec2;
use crate::printer::Printer;
use crate::printer::Surface;

verus! {

/// The capability every node of the component tree exposes.
///
/// `required_size` negotiates: it is a pure function of the available
/// space, safe to call speculatively. `layout` commits: it is called once
/// per frame after measurement settles and may cache size-dependent state.
/// `draw` paints into the surface; the only state it may touch is a
/// transient per-frame cache such as the last drawn offset. `on_event`
/// consumes input or lets it bubble; `take_focus` accepts or declines the
/// focus.
pub trait View {
    /// Paints the view into `surface`, inside the region of `printer`.
    fn draw(&mut self, printer: &Printer, surface: &mut Surface);

    /// Commits the final size for this frame.
    fn layout(&mut self, size: Vec2) {
    }

    /// Whether the cached layout is stale.
    fn needs_relayout(&self) -> bool {
        true
    }

    /// The size the view wants, given the available `constraint`.
    fn required_size(&mut self, constraint: Vec2) -> Vec2 {
        Vec2::new(1, 1)
    }

    /// Offers the view an input event.
    fn on_event(&mut self, event: Event) -> EventResult {
        EventResult::Ignored
    }

    /// Asks the view to accept the focus, arriving from `source`.
    fn take_focus(&mut self, source: Direction) -> bool {
        false
    }
}

/// Addresses a single view (if any) in the tree.
pub enum Selector<'a> {
    /// Selects a view wrapped under the given name.
    Id(&'a str),
    /// Selects a view by the branch choices taken at decision nodes.
    Path(&'a ViewPath<'a>),
}

} // verus!
