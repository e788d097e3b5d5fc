//! A wrapper marking another view as scrollable.

use vstd::prelude::*;
use crate::direction::Direction;
use crate::event::Event;
use crate::event::EventResult;
use crate::geom::Vec2;
use crate::printer::Printer;
use crate::printer::Surface;

verus! {

/// Wrapper that lets the wrapped view scroll on each axis. The scroll
/// position itself belongs to the excluded rendering collaborators; this
/// model keeps the per-axis capability flags and forwards everything.
#[derive(Clone, PartialEq, Eq, Debug)]
pub struct Scroll<V> {
    /// The wrapped view.
    pub view: V,
    /// Whether horizontal scrolling is allowed.
    pub scroll_x: bool,
    /// Whether vertical scrolling is allowed.
    pub scroll_y: bool,
}

impl<V> Scroll<V> {
    /// Wraps `view`, scrollable vertically only, as dialogs usually are.
    pub fn new(view: V) -> (r: Scroll<V>)
        ensures
            r == (Scroll { view, scroll_x: false, scroll_y: true }),
    {
        Scroll { view, scroll_x: false, scroll_y: true }
    }

    /// Allows or forbids horizontal scrolling; chainable variant.
    pub fn scroll_x(self, enabled: bool) -> (r: Scroll<V>)
        ensures
            r == (Scroll { scroll_x: enabled, ..self }),
    {
        Scroll { scroll_x: enabled, ..self }
    }

    /// Allows or forbids vertical scrolling; chainable variant.
    pub fn scroll_y(self, enabled: bool) -> (r: Scroll<V>)
        ensures
            r == (Scroll { scroll_y: enabled, ..self }),
    {
        Scroll { scroll_y: enabled, ..self }
    }

    /// A shared reference to the wrapped view.
    pub fn get_inner(&self) -> (r: &V)
        ensures
            r == &self.view,
    {
        &self.view
    }
}

impl<V: crate::view::View> crate::view::View for Scroll<V> {
    fn draw(&mut self, printer: &Printer, surface: &mut Surface) {
        self.view.draw(printer, surface);
    }

    fn layout(&mut self, size: Vec2) {
        self.view.layout(size);
    }

    fn needs_relayout(&self) -> bool {
        self.view.needs_relayout()
    }

    fn required_size(&mut self, constraint: Vec2) -> Vec2 {
        self.view.required_size(constraint)
    }

    fn on_event(&mut self, event: Event) -> EventResult {
        self.view.on_event(event)
    }

    fn take_focus(&mut self, source: Direction) -> bool {
        self.view.take_focus(source)
    }
}

} // verus!
