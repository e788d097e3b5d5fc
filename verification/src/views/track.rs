//! A wrapper that remembers where it was last drawn.

use vstd::prelude::*;
use crate::direction::Direction;
use crate::event::Event;
use crate::event::EventResult;
use crate::geom::Vec2;
use crate::printer::Printer;
use crate::printer::Surface;
use crate::views::named::Named;

verus! {

/// Wrapper around a view that records the surface offset of its most
/// recent draw, for later external queries such as mouse-to-component
/// mapping. It alters no other behavior.
#[derive(Clone, PartialEq, Eq, Debug)]
pub struct TrackedView<V> {
    /// Wrapped view.
    pub view: V,
    /// Offset of the most recent draw.
    pub last_offset: Vec2,
}

impl<V> TrackedView<V> {
    /// The last offset at which the view was drawn.
    pub fn offset(&self) -> (r: Vec2)
        ensures
            r == self.last_offset,
    {
        self.last_offset
    }

    /// Creates a new `TrackedView` around `view`.
    pub fn new(view: V) -> (r: TrackedView<V>)
        ensures
            r.view == view,
            r.last_offset == (Vec2 { x: 0, y: 0 }),
    {
        TrackedView { view, last_offset: Vec2::zero() }
    }

    /// Wraps itself under a name for easy retrieval.
    pub fn with_id(self, id: &str) -> (r: Named<TrackedView<V>>)
        ensures
            r.name@ == id@,
            r.view == self,
    {
        Named::new(id, self)
    }

    /// A shared reference to the wrapped view.
    pub fn get_inner(&self) -> (r: &V)
        ensures
            r == &self.view,
    {
        &self.view
    }

    /// An exclusive reference to the wrapped view.
    pub fn get_inner_mut(&mut self) -> (r: &mut V)
        ensures
            *r == old(self).view,
            *final(self) == (TrackedView { view: *final(r), last_offset: old(self).last_offset }),
    {
        &mut self.view
    }
}

impl<V: crate::view::View> TrackedView<V> {
    /// Records the draw offset, then draws the wrapped view unchanged.
    pub fn wrap_draw(&mut self, printer: &Printer, surface: &mut Surface)
        ensures
            final(self).last_offset == printer.offset,
    {
        self.last_offset = printer.offset;
        self.view.draw(printer, surface);
    }
}

impl<V: crate::view::View> crate::view::View for TrackedView<V> {
    fn draw(&mut self, printer: &Printer, surface: &mut Surface) {
        self.wrap_draw(printer, surface);
    }

    fn layout(&mut self, size: Vec2) {
        self.view.layout(size);
    }

    fn needs_relayout(&self) -> bool {
        self.view.needs_relayout()
    }

    fn required_size(&mut self, constraint: Vec2) -> Vec2 {
        self.view.required_size(constraint)
    }

    fn on_event(&mut self, event: Event) -> EventResult {
        self.view.on_event(event)
    }

    fn take_focus(&mut self, source: Direction) -> bool {
        self.view.take_focus(source)
    }
}

} // verus!
