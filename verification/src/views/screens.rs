//! The screen set: independent layer stacks with exactly one active at a
//! time. Switching screens is an index change, never a tree rebuild, and
//! inactive screens keep their layers.

use vstd::prelude::*;
use crate::direction::Direction;
use crate::event::Event;
use crate::event::EventResult;
use crate::geom::Vec2;
use crate::printer::Printer;
use crate::printer::Surface;
use crate::views::stack::Child;
use crate::views::stack::StackView;

verus! {

/// An ordered set of screens, each an independent child view, with one
/// active screen receiving input, layout and drawing.
#[derive(PartialEq, Eq, Debug)]
pub struct ScreensView<V> {
    /// The screens, in creation order.
    pub screens: Vec<V>,
    /// Index of the active screen.
    pub active: usize,
}

impl<V> ScreensView<V> {
    /// Exactly one screen is present or addressed: the active index lies
    /// inside the set.
    pub open spec fn wf(self) -> bool {
        self.active < self.screens@.len()
    }

    /// A set holding one single screen, active.
    pub fn single_screen(screen: V) -> (r: ScreensView<V>)
        ensures
            r.screens@ =~= seq![screen],
            r.active == 0,
            r.wf(),
    {
        let mut screens: Vec<V> = Vec::new();
        screens.push(screen);
        ScreensView { screens, active: 0 }
    }

    /// A shared reference to the active screen; nothing when the set is
    /// empty or the index points past it.
    pub fn screen(&self) -> (r: Option<&V>)
        ensures
            self.wf() ==> match r {
                Some(v) => *v == self.screens@[self.active as int],
                None => false,
            },
            !self.wf() ==> r is None,
    {
        if self.active < self.screens.len() {
            Some(&self.screens[self.active])
        } else {
            None
        }
    }

    /// An exclusive reference to the active screen; nothing when the set
    /// is empty or the index points past it.
    pub fn screen_mut(&mut self) -> (r: Option<&mut V>)
        ensures
            old(self).wf() ==> match r {
                Some(v) => {
                    &&& *v == old(self).screens@[old(self).active as int]
                    &&& final(self).active == old(self).active
                    &&& final(self).screens@ =~= old(self).screens@.update(
                        old(self).active as int,
                        *final(v),
                    )
                },
                None => false,
            },
            !old(self).wf() ==> r is None && *final(self) == *old(self),
    {
        if self.active < self.screens.len() {
            Some(&mut self.screens[self.active])
        } else {
            None
        }
    }

    /// The index of the active screen.
    pub fn active_screen(&self) -> (r: usize)
        ensures
            r == self.active,
    {
        self.active
    }

    /// Adds a screen at the end of the set, without activating it, and
    /// returns its index.
    pub fn add_screen(&mut self, screen: V) -> (r: usize)
        ensures
            final(self).screens@ =~= old(self).screens@.push(screen),
            final(self).active == old(self).active,
            r == old(self).screens@.len(),
    {
        let id = self.screens.len();
        self.screens.push(screen);
        id
    }

    /// Makes the screen with the given index the active one. The other
    /// screens keep their state untouched.
    pub fn set_active_screen(&mut self, id: usize)
        requires
            id < old(self).screens@.len(),
        ensures
            final(self).screens@ =~= old(self).screens@,
            final(self).active == id,
            final(self).wf(),
    {
        self.active = id;
    }
}

impl ScreensView<StackView> {
    /// Whether `post` and `r` are the set and result dispatching `e`
    /// leaves behind, as a spec-level value: the event goes to the active
    /// screen's stack only; the other screens are untouched.
    pub open spec fn dispatched(self, e: Event, post: ScreensView<StackView>, r: EventResult) -> bool {
        if self.wf() {
            &&& post.active == self.active
            &&& post.screens@.len() == self.screens@.len()
            &&& forall|j: int|
                0 <= j < self.screens@.len() && j != self.active ==> post.screens@[j]
                    == self.screens@[j]
            &&& post.screens@[self.active as int].layers@
                =~= self.screens@[self.active as int].on_event_spec(e).0
            &&& r == self.screens@[self.active as int].on_event_spec(e).1
        } else {
            post == self && r == EventResult::Ignored
        }
    }

    /// Offers the event to the active screen.
    pub fn on_event(&mut self, event: Event) -> (r: EventResult)
        ensures
            old(self).dispatched(event, *final(self), r),
    {
        let n = self.screens.len();
        if self.active < n {
            let active = self.active;
            let screen = &mut self.screens[active];
            screen.on_event(event)
        } else {
            EventResult::Ignored
        }
    }

    /// Whether the active screen accepts the focus, as a spec-level
    /// value.
    pub open spec fn accepts_focus(self) -> bool {
        self.wf() && self.screens@[self.active as int].accepts_focus()
    }

    /// Asks the active screen to accept the focus.
    pub fn take_focus(&mut self, source: Direction) -> (r: bool)
        ensures
            r == old(self).accepts_focus(),
            final(self).active == old(self).active,
            final(self).screens@.len() == old(self).screens@.len(),
            forall|j: int|
                0 <= j < old(self).screens@.len() ==> final(self).screens@[j].layers@ =~= old(self).screens@[j].layers@,
    {
        let n = self.screens.len();
        if self.active < n {
            let active = self.active;
            let screen = &mut self.screens[active];
            screen.take_focus(source)
        } else {
            false
        }
    }

    /// Runs the two-phase layout of the active screen against the
    /// viewport.
    pub fn layout(&mut self, viewport: Vec2)
        ensures
            final(self).active == old(self).active,
            final(self).screens@.len() == old(self).screens@.len(),
            forall|j: int|
                0 <= j < old(self).screens@.len() && j != old(self).active ==> final(self).screens@[j] == old(self).screens@[j],
            old(self).wf() ==> final(self).screens@[old(self).active as int].layers@ =~= old(self).screens@[old(self).active as int].layers@.map_values(
                |c: Child| c.layout_spec(viewport),
            ),
    {
        let n = self.screens.len();
        if self.active < n {
            let active = self.active;
            let screen = &mut self.screens[active];
            screen.layout(viewport);
        }
    }

    /// The layers of the active screen, as a spec-level value;
    /// meaningful under `wf`.
    pub open spec fn active_layers(self) -> Seq<Child> {
        self.screens@[self.active as int].layers@
    }

    /// Draws the active screen's background pass: every layer below its
    /// topmost full-screen one.
    pub fn draw_bg(&mut self, printer: &Printer, surface: &mut Surface)
        ensures
            final(self).active == old(self).active,
            final(self).screens@.len() == old(self).screens@.len(),
            forall|j: int|
                0 <= j < old(self).screens@.len() && j != old(self).active ==> final(self).screens@[j] == old(self).screens@[j],
            old(self).wf() ==> {
                let layers = old(self).active_layers();
                let k = crate::views::stack::fg_boundary_of(layers);
                &&& final(self).active_layers().len() == layers.len()
                &&& forall|j: int|
                    k <= j < layers.len() ==> final(self).active_layers()[j] == layers[j]
                &&& forall|j: int|
                    0 <= j < k ==> final(self).active_layers()[j] == layers[j].drawn_spec(
                        *printer,
                    )
                &&& final(surface).painted() =~= old(surface).painted()
                    + crate::views::stack::paint_of(layers.subrange(0, k), *printer)
            },
            !old(self).wf() ==> *final(self) == *old(self) && final(surface).painted() =~= old(surface).painted(),
    {
        let n = self.screens.len();
        if self.active < n {
            let active = self.active;
            let screen = &mut self.screens[active];
            screen.draw_bg(printer, surface);
        }
    }

    /// Draws the active screen's foreground pass: its topmost full-screen
    /// layer and everything above it.
    pub fn draw_fg(&mut self, printer: &Printer, surface: &mut Surface)
        ensures
            final(self).active == old(self).active,
            final(self).screens@.len() == old(self).screens@.len(),
            forall|j: int|
                0 <= j < old(self).screens@.len() && j != old(self).active ==> final(self).screens@[j] == old(self).screens@[j],
            old(self).wf() ==> {
                let layers = old(self).active_layers();
                let k = crate::views::stack::fg_boundary_of(layers);
                &&& final(self).active_layers().len() == layers.len()
                &&& forall|j: int| 0 <= j < k ==> final(self).active_layers()[j] == layers[j]
                &&& forall|j: int|
                    k <= j < layers.len() ==> final(self).active_layers()[j] == layers[j].drawn_spec(
                        *printer,
                    )
                &&& final(surface).painted() =~= old(surface).painted()
                    + crate::views::stack::paint_of(
                    layers.subrange(k, layers.len() as int),
                    *printer,
                )
            },
            !old(self).wf() ==> *final(self) == *old(self) && final(surface).painted() =~= old(surface).painted(),
    {
        let n = self.screens.len();
        if self.active < n {
            let active = self.active;
            let screen = &mut self.screens[active];
            screen.draw_fg(printer, surface);
        }
    }
}

} // verus!
