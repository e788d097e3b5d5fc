//! A wrapper adding margins around another view.

use vstd::prelude::*;
use crate::direction::Direction;
use crate::event::Event;
use crate::event::EventResult;
use crate::geom::Margins;
use crate::geom::Vec2;
use crate::printer::Printer;
use crate::printer::Surface;

verus! {

/// Adds padding to another view: the wrapped view sees a reduced space,
/// input coordinates translated by the top-left margin, and a drawing
/// region inset on every side.
#[derive(Clone, PartialEq, Eq, Debug)]
pub struct PaddedView<V> {
    /// The space taken around the wrapped view.
    pub margins: Margins,
    /// The wrapped view.
    pub view: V,
}

impl<V: crate::view::View> PaddedView<V> {
    /// Wraps `view` in a new `PaddedView` with the given margins.
    pub fn new(margins: Margins, view: V) -> (r: PaddedView<V>)
        ensures
            r.margins == margins,
            r.view == view,
    {
        PaddedView { margins, view }
    }

    /// Wraps `view` in a new `PaddedView` with the given margins, given as
    /// left, right, top and bottom.
    pub fn lrtb(left: usize, right: usize, top: usize, bottom: usize, view: V) -> (r: PaddedView<
        V,
    >)
        ensures
            r.margins == (Margins { left, right, top, bottom }),
            r.view == view,
    {
        Self::new(Margins::lrtb(left, right, top, bottom), view)
    }

    /// Sets the margins for this view.
    pub fn set_margins(&mut self, margins: Margins)
        ensures
            *final(self) == (PaddedView { margins, view: old(self).view }),
    {
        self.margins = margins;
    }

    /// A shared reference to the wrapped view.
    pub fn get_inner(&self) -> (r: &V)
        ensures
            r == &self.view,
    {
        &self.view
    }

    /// An exclusive reference to the wrapped view.
    pub fn get_inner_mut(&mut self) -> (r: &mut V)
        ensures
            *r == old(self).view,
            *final(self) == (PaddedView { margins: old(self).margins, view: *final(r) }),
    {
        &mut self.view
    }

    /// Measures the wrapped view in the space left by the margins and adds
    /// them back to its answer.
    pub fn wrap_required_size(&mut self, req: Vec2) -> (r: Vec2) {
        let margins = self.margins.combined();
        self.view.required_size(req.saturating_sub(margins)).saturating_add(margins)
    }

    /// Commits to the wrapped view the size left by the margins.
    pub fn wrap_layout(&mut self, size: Vec2) {
        let margins = self.margins.combined();
        self.view.layout(size.saturating_sub(margins));
    }

    /// Hands the event to the wrapped view, translated by the top-left
    /// margin.
    pub fn wrap_on_event(&mut self, event: Event) -> (r: EventResult) {
        let padding = self.margins.top_left();
        self.view.on_event(event.relativized(padding))
    }

    /// Draws the wrapped view in the inset region.
    pub fn wrap_draw(&mut self, printer: &Printer, surface: &mut Surface) {
        let top_left = self.margins.top_left();
        let bot_right = self.margins.bot_right();
        let printer = printer.offset(top_left).shrinked(bot_right);
        self.view.draw(&printer, surface);
    }
}

impl<V: crate::view::View> crate::view::View for PaddedView<V> {
    fn draw(&mut self, printer: &Printer, surface: &mut Surface) {
        self.wrap_draw(printer, surface);
    }

    fn layout(&mut self, size: Vec2) {
        self.wrap_layout(size);
    }

    fn needs_relayout(&self) -> bool {
        self.view.needs_relayout()
    }

    fn required_size(&mut self, constraint: Vec2) -> Vec2 {
        self.wrap_required_size(constraint)
    }

    fn on_event(&mut self, event: Event) -> EventResult {
        self.wrap_on_event(event)
    }

    fn take_focus(&mut self, source: Direction) -> bool {
        self.view.take_focus(source)
    }
}

} // verus!
