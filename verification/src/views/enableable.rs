//! A wrapper that can be enabled or disabled at will.

use vstd::prelude::*;
use crate::direction::Direction;
use crate::event::Event;
use crate::event::EventResult;
use crate::geom::Vec2;
use crate::printer::Printer;
use crate::printer::Surface;

verus! {

/// Wrapper around another view that can be enabled or disabled at will.
///
/// When disabled, the wrapped view stops receiving events and is drawn in
/// the inactive style; it is still measured and laid out.
#[derive(Clone, PartialEq, Eq, Debug)]
pub struct Enableable<V> {
    /// The wrapped view.
    pub view: V,
    /// Whether events are forwarded.
    pub enabled: bool,
}

impl<V> Enableable<V> {
    /// Creates a new `Enableable` around `view`, enabled.
    pub fn new(view: V) -> (r: Enableable<V>)
        ensures
            r.view == view,
            r.enabled,
    {
        Enableable { view, enabled: true }
    }

    /// Disables this view: it no longer receives events.
    pub fn disable(&mut self)
        ensures
            *final(self) == (Enableable { view: old(self).view, enabled: false }),
    {
        self.enabled = false;
    }

    /// Disables this view; chainable variant.
    pub fn disabled(self) -> (r: Self)
        ensures
            r == (Enableable { view: self.view, enabled: false }),
    {
        Enableable { view: self.view, enabled: false }
    }

    /// Re-enables this view.
    pub fn enable(&mut self)
        ensures
            *final(self) == (Enableable { view: old(self).view, enabled: true }),
    {
        self.enabled = true;
    }

    /// Enables or disables this view.
    pub fn set_enabled(&mut self, enabled: bool)
        ensures
            *final(self) == (Enableable { view: old(self).view, enabled }),
    {
        self.enabled = enabled;
    }

    /// Whether this view is enabled.
    pub fn is_enabled(&self) -> (r: bool)
        ensures
            r == self.enabled,
    {
        self.enabled
    }

    /// A shared reference to the wrapped view.
    pub fn get_inner(&self) -> (r: &V)
        ensures
            r == &self.view,
    {
        &self.view
    }

    /// An exclusive reference to the wrapped view.
    pub fn get_inner_mut(&mut self) -> (r: &mut V)
        ensures
            *r == old(self).view,
            *final(self) == (Enableable { view: *final(r), enabled: old(self).enabled }),
    {
        &mut self.view
    }
}

impl<V: crate::view::View> Enableable<V> {
    /// Hands the event to the wrapped view only when enabled: a disabled
    /// wrapper ignores every event and leaves the wrapped view untouched.
    pub fn wrap_on_event(&mut self, event: Event) -> (r: EventResult)
        ensures
            !old(self).enabled ==> r == EventResult::Ignored && *final(self) == *old(self),
            final(self).enabled == old(self).enabled,
    {
        if self.enabled {
            self.view.on_event(event)
        } else {
            EventResult::Ignored
        }
    }

    /// Draws the wrapped view, in the inactive style when disabled.
    pub fn wrap_draw(&mut self, printer: &Printer, surface: &mut Surface) {
        let printer = printer.enabled(self.enabled);
        self.view.draw(&printer, surface);
    }
}

impl<V: crate::view::View> crate::view::View for Enableable<V> {
    fn draw(&mut self, printer: &Printer, surface: &mut Surface) {
        self.wrap_draw(printer, surface);
    }

    fn layout(&mut self, size: Vec2) {
        self.view.layout(size);
    }

    fn needs_relayout(&self) -> bool {
        self.view.needs_relayout()
    }

    fn required_size(&mut self, constraint: Vec2) -> Vec2 {
        self.view.required_size(constraint)
    }

    fn on_event(&mut self, event: Event) -> EventResult {
        self.wrap_on_event(event)
    }

    fn take_focus(&mut self, source: Direction) -> bool {
        self.view.take_focus(source)
    }
}

/// Law: a disabled wrapper, fed any input event, never changes the
/// wrapped view and always answers that the event was ignored; inside a
/// tree the disabled node's whole subtree is left untouched the same
/// way.
pub proof fn lemma_disabled_ignores(view: crate::views::any::AnyView, event: Event)
    ensures
        (crate::views::any::AnyView::Enabled { enabled: false, view: Box::new(view) }).on_event_spec(
            event,
        ) == (
            crate::views::any::AnyView::Enabled { enabled: false, view: Box::new(view) },
            EventResult::Ignored,
        ),
{
}

} // verus!
