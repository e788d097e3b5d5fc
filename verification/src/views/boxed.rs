//! A plainly boxed dynamic view.

use vstd::prelude::*;
use crate::direction::Direction;
use crate::event::Event;
use crate::event::EventResult;
use crate::geom::Vec2;
use crate::printer::Printer;
use crate::printer::Surface;
use crate::views::any::AnyView;
use crate::views::any::IntoBoxedView;

verus! {

/// A boxed dynamic view, with nothing else attached.
#[derive(PartialEq, Eq, Debug)]
pub struct Boxed {
    /// The boxed view.
    pub view: Box<AnyView>,
}

impl Boxed {
    /// Creates a new `Boxed` around the given boxed view.
    pub fn new(view: Box<AnyView>) -> (r: Boxed)
        ensures
            r.view == view,
    {
        Boxed { view }
    }

    /// Boxes the given view.
    pub fn boxed<T: IntoBoxedView>(view: T) -> (r: Boxed)
        ensures
            *r.view == view.to_any_spec(),
    {
        Boxed::new(view.as_boxed_view())
    }

    /// Returns the inner boxed view.
    pub fn unwrap(self) -> (r: Box<AnyView>)
        ensures
            r == self.view,
    {
        self.view
    }

    /// A shared reference to the boxed view.
    pub fn get_inner(&self) -> (r: &AnyView)
        ensures
            r == &*self.view,
    {
        &self.view
    }
}

impl crate::view::View for Boxed {
    fn draw(&mut self, printer: &Printer, surface: &mut Surface) {
        self.view.draw(printer, surface);
    }

    fn layout(&mut self, size: Vec2) {
        self.view.layout(size);
    }

    fn required_size(&mut self, constraint: Vec2) -> Vec2 {
        self.view.required_size(constraint)
    }

    fn on_event(&mut self, event: Event) -> EventResult {
        self.view.on_event(event)
    }

    fn take_focus(&mut self, source: Direction) -> bool {
        self.view.take_focus(source)
    }
}

} // verus!
