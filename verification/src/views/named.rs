//! A wrapper attaching a name to a view, for later retrieval by selector.

use vstd::prelude::*;
use vstd::string::*;
use crate::direction::Direction;
use crate::event::Event;
use crate::event::EventResult;
use crate::geom::Vec2;
use crate::printer::Printer;
use crate::printer::Surface;

verus! {

/// A view wrapped with a string identifier. Names need not be unique:
/// lookup returns the first match in tree-walk order.
#[derive(Clone, PartialEq, Eq, Debug)]
pub struct Named<V> {
    /// The identifier.
    pub name: String,
    /// The wrapped view.
    pub view: V,
}

impl<V> Named<V> {
    /// Wraps `view` under the given name.
    pub fn new(name: &str, view: V) -> (r: Named<V>)
        ensures
            r.name@ == name@,
            r.view == view,
    {
        Named { name: name.to_owned(), view }
    }

    /// A shared reference to the wrapped view.
    pub fn get_inner(&self) -> (r: &V)
        ensures
            r == &self.view,
    {
        &self.view
    }

    /// An exclusive reference to the wrapped view.
    pub fn get_inner_mut(&mut self) -> (r: &mut V)
        ensures
            *r == old(self).view,
            *final(self) == (Named { name: old(self).name, view: *final(r) }),
    {
        &mut self.view
    }
}

impl<V: crate::view::View> crate::view::View for Named<V> {
    fn draw(&mut self, printer: &Printer, surface: &mut Surface) {
        self.view.draw(printer, surface);
    }

    fn layout(&mut self, size: Vec2) {
        self.view.layout(size);
    }

    fn needs_relayout(&self) -> bool {
        self.view.needs_relayout()
    }

    fn required_size(&mut self, constraint: Vec2) -> Vec2 {
        self.view.required_size(constraint)
    }

    fn on_event(&mut self, event: Event) -> EventResult {
        self.view.on_event(event)
    }

    fn take_focus(&mut self, source: Direction) -> bool {
        self.view.take_focus(source)
    }
}

} // verus!
