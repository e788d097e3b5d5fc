//! The menu overlay: a top-level bar of labeled entries with autohide, a
//! selection that captures all input, and one level of open submenu.

use vstd::prelude::*;
use vstd::string::*;
use crate::direction::Direction;
use crate::event::Callback;
use crate::event::Event;
use crate::event::EventResult;
use crate::event::Key;
use crate::geom::Vec2;
use crate::printer::PaintSpec;
use crate::printer::Printer;
use crate::printer::Surface;

verus! {

/// One top-level entry of the bar: a leaf runs a deferred callback; a
/// subtree opens a submenu. The submenu's own rows belong to the excluded
/// menu-tree collaborator; the overlay keeps only whether one is open.
#[derive(Clone, PartialEq, Eq, Debug)]
pub struct MenuItem {
    /// The label shown on the bar.
    pub label: String,
    /// The action of a leaf entry; a subtree holds none.
    pub action: Option<Callback>,
}

/// Where the overlay stands in its input cycle.
#[derive(Clone, Copy, PartialEq, Eq, Structural, Debug)]
pub enum MenubarState {
    /// Not selected: input passes through to the component tree. The bar
    /// is still drawn when autohide is off.
    Inactive,
    /// Selected, no submenu open: the overlay captures all input.
    Selected,
    /// Selected with an open submenu: the overlay captures all input and
    /// routes it to the submenu.
    Submenu,
}

/// The menu overlay state machine.
#[derive(PartialEq, Eq, Debug)]
pub struct Menubar {
    /// When true (default) the bar is only visible while selected; when
    /// false it is always visible and reserves the top row.
    pub autohide: bool,
    /// The current state.
    pub state: MenubarState,
    /// The top-level entries.
    pub items: Vec<MenuItem>,
    /// Index of the highlighted entry while selected.
    pub selected_index: usize,
}

impl Menubar {
    /// A selected bar highlights one of its entries.
    pub open spec fn wf(self) -> bool {
        self.state != MenubarState::Inactive ==> self.items@.len() > 0 && self.selected_index
            < self.items@.len()
    }

    /// An empty bar, with autohide on and nothing selected.
    pub fn new() -> (r: Menubar)
        ensures
            r.autohide,
            r.state == MenubarState::Inactive,
            r.items@ =~= Seq::<MenuItem>::empty(),
            r.selected_index == 0,
            r.wf(),
    {
        Menubar {
            autohide: true,
            state: MenubarState::Inactive,
            items: Vec::new(),
            selected_index: 0,
        }
    }

    /// Adds a leaf entry that runs `action` when chosen.
    pub fn add_leaf(&mut self, label: &str, action: Callback)
        ensures
            final(self).items@.len() == old(self).items@.len() + 1,
            final(self).items@.drop_last() =~= old(self).items@,
            final(self).items@.last().label@ == label@,
            final(self).items@.last().action == Some(action),
            final(self).autohide == old(self).autohide,
            final(self).state == old(self).state,
            final(self).selected_index == old(self).selected_index,
            old(self).wf() ==> final(self).wf(),
    {
        self.items.push(MenuItem { label: label.to_owned(), action: Some(action) });
    }

    /// Adds a subtree entry that opens a submenu when chosen.
    pub fn add_subtree(&mut self, label: &str)
        ensures
            final(self).items@.len() == old(self).items@.len() + 1,
            final(self).items@.drop_last() =~= old(self).items@,
            final(self).items@.last().label@ == label@,
            final(self).items@.last().action is None,
            final(self).autohide == old(self).autohide,
            final(self).state == old(self).state,
            final(self).selected_index == old(self).selected_index,
            old(self).wf() ==> final(self).wf(),
    {
        self.items.push(MenuItem { label: label.to_owned(), action: None });
    }

    /// How many top-level entries the bar holds.
    pub fn len(&self) -> (r: usize)
        ensures
            r == self.items@.len(),
    {
        self.items.len()
    }

    /// Whether the bar holds no entry.
    pub fn is_empty(&self) -> (r: bool)
        ensures
            r == (self.items@.len() == 0),
    {
        self.items.len() == 0
    }

    /// Whether the overlay consumes all input before the component tree
    /// sees it.
    pub fn receive_events(&self) -> (r: bool)
        ensures
            r == (self.state != MenubarState::Inactive),
    {
        match self.state {
            MenubarState::Inactive => false,
            _ => true,
        }
    }

    /// Whether a submenu is open.
    pub fn has_submenu(&self) -> (r: bool)
        ensures
            r == (self.state == MenubarState::Submenu),
    {
        match self.state {
            MenubarState::Submenu => true,
            _ => false,
        }
    }

    /// Whether the bar is drawn this frame: always while selected, and
    /// whenever autohide is off.
    pub fn visible(&self) -> (r: bool)
        ensures
            r == (!self.autohide || self.state != MenubarState::Inactive),
    {
        !self.autohide || self.receive_events()
    }

    /// Selects the bar: from the pass-through state it highlights the
    /// first entry; an already selected bar is left as it stands. An
    /// empty bar declines.
    pub fn take_focus(&mut self, source: Direction) -> (r: bool)
        ensures
            old(self).items@.len() == 0 ==> !r && *final(self) == *old(self),
            old(self).items@.len() > 0 ==> {
                &&& r
                &&& final(self).state == (if old(self).state == MenubarState::Inactive {
                    MenubarState::Selected
                } else {
                    old(self).state
                })
                &&& final(self).selected_index == (if old(self).state == MenubarState::Inactive {
                    0int
                } else {
                    old(self).selected_index as int
                })
                &&& final(self).items == old(self).items
                &&& final(self).autohide == old(self).autohide
            },
            old(self).wf() ==> final(self).wf(),
    {
        if self.items.len() == 0 {
            false
        } else {
            match self.state {
                MenubarState::Inactive => {
                    self.state = MenubarState::Selected;
                    self.selected_index = 0;
                },
                _ => (),
            }
            true
        }
    }

    /// The state, highlighted index and result one event produces, as a
    /// spec-level value. While selected the overlay consumes every event:
    /// escape dismisses (or closes the open submenu), the arrows move the
    /// highlight with wrap-around, and the return or down key chooses the
    /// highlighted entry - running a leaf's action and dismissing, or
    /// opening a subtree's submenu.
    pub open spec fn step_spec(self, e: Event) -> (MenubarState, int, EventResult) {
        let len = self.items@.len() as int;
        let idx = self.selected_index as int;
        match self.state {
            MenubarState::Inactive => (self.state, idx, EventResult::Ignored),
            MenubarState::Selected => if len == 0 {
                (MenubarState::Inactive, idx, EventResult::Consumed(None))
            } else if e == Event::Key(Key::Esc) {
                (MenubarState::Inactive, idx, EventResult::Consumed(None))
            } else if e == Event::Key(Key::Left) {
                (
                    MenubarState::Selected,
                    if idx == 0 {
                        len - 1
                    } else {
                        idx - 1
                    },
                    EventResult::Consumed(None),
                )
            } else if e == Event::Key(Key::Right) {
                (
                    MenubarState::Selected,
                    if idx + 1 >= len {
                        0int
                    } else {
                        idx + 1
                    },
                    EventResult::Consumed(None),
                )
            } else if (e == Event::Key(Key::Enter) || e == Event::Key(Key::Down)) && idx < len {
                match self.items@[idx].action {
                    Some(cb) => (MenubarState::Inactive, idx, EventResult::Consumed(Some(cb))),
                    None => (MenubarState::Submenu, idx, EventResult::Consumed(None)),
                }
            } else {
                (MenubarState::Selected, idx, EventResult::Consumed(None))
            },
            MenubarState::Submenu => if e == Event::Key(Key::Esc) || e == Event::Key(Key::Enter) {
                (MenubarState::Inactive, idx, EventResult::Consumed(None))
            } else {
                (MenubarState::Submenu, idx, EventResult::Consumed(None))
            },
        }
    }

    /// Runs one step of the overlay state machine.
    pub fn on_event(&mut self, event: Event) -> (r: EventResult)
        ensures
            final(self).state == old(self).step_spec(event).0,
            final(self).selected_index as int == old(self).step_spec(event).1,
            r == old(self).step_spec(event).2,
            final(self).items == old(self).items,
            final(self).autohide == old(self).autohide,
            old(self).wf() ==> final(self).wf(),
    {
        let len = self.items.len();
        match self.state {
            MenubarState::Inactive => EventResult::Ignored,
            MenubarState::Selected => {
                if len == 0 {
                    self.state = MenubarState::Inactive;
                    return EventResult::Consumed(None);
                }
                match event {
                    Event::Key(Key::Esc) => {
                        self.state = MenubarState::Inactive;
                        EventResult::Consumed(None)
                    },
                    Event::Key(Key::Left) => {
                        if self.selected_index == 0 {
                            self.selected_index = len - 1;
                        } else {
                            self.selected_index = self.selected_index - 1;
                        }
                        EventResult::Consumed(None)
                    },
                    Event::Key(Key::Right) => {
                        if self.selected_index >= len - 1 {
                            self.selected_index = 0;
                        } else {
                            self.selected_index = self.selected_index + 1;
                        }
                        EventResult::Consumed(None)
                    },
                    Event::Key(Key::Enter) | Event::Key(Key::Down) => {
                        if self.selected_index < len {
                            match self.items[self.selected_index].action {
                                Some(cb) => {
                                    self.state = MenubarState::Inactive;
                                    EventResult::Consumed(Some(cb))
                                },
                                None => {
                                    self.state = MenubarState::Submenu;
                                    EventResult::Consumed(None)
                                },
                            }
                        } else {
                            EventResult::Consumed(None)
                        }
                    },
                    _ => EventResult::Consumed(None),
                }
            },
            MenubarState::Submenu => {
                match event {
                    Event::Key(Key::Esc) | Event::Key(Key::Enter) => {
                        self.state = MenubarState::Inactive;
                        EventResult::Consumed(None)
                    },
                    _ => EventResult::Consumed(None),
                }
            },
        }
    }

    /// Draws the bar in the top row: each label in order, separated by
    /// one column.
    pub fn draw(&self, printer: &Printer, surface: &mut Surface)
        ensures
            final(surface).painted() =~= old(surface).painted() + bar_paint_from(
                self.items@,
                *printer,
                0,
            ),
    {
        let n = self.items.len();
        proof {
            assert(self.items@.skip(0) =~= self.items@);
        }
        let mut i: usize = 0;
        let mut x: usize = 0;
        while i < n
            invariant
                i <= n,
                n == self.items@.len(),
                old(surface).painted() + bar_paint_from(self.items@, *printer, 0)
                    =~= surface.painted() + bar_paint_from(
                    self.items@.skip(i as int),
                    *printer,
                    x,
                ),
            decreases n - i,
        {
            let label = self.items[i].label.as_str();
            printer.print(surface, Vec2::new(x, 0), label);
            proof {
                assert(self.items@.skip(i as int)[0] == self.items@[i as int]);
                assert(self.items@.skip(i as int).skip(1) =~= self.items@.skip(i + 1));
            }
            x = x.saturating_add(label.unicode_len()).saturating_add(1);
            i = i + 1;
        }
        proof {
            assert(self.items@.skip(n as int) =~= Seq::<MenuItem>::empty());
        }
    }
}

/// The writes drawing the bar entries appends, starting at column `x`:
/// each label in order, one column apart, as a spec-level value.
pub open spec fn bar_paint_from(items: Seq<MenuItem>, p: Printer, x: usize) -> Seq<PaintSpec>
    decreases items.len(),
{
    if items.len() == 0 {
        Seq::empty()
    } else {
        seq![p.record_for(Vec2 { x, y: 0 }, items[0].label@)] + bar_paint_from(
            items.skip(1),
            p,
            crate::geom::sat_add(crate::geom::sat_add(x, items[0].label@.len() as usize), 1),
        )
    }
}

} // verus!
