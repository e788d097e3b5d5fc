//! Closed model of the terminal backend: the controller's collaborator for
//! input polling, screen size, clearing and presenting. The real terminal
//! adapter is an external collaborator; here a backend is either the silent
//! dummy or a scripted backend that replays a fixed list of events and
//! counts what was asked of it, which makes the loop testable without a
//! terminal or real time.

use vstd::prelude::*;
use crate::event::Event;
use crate::geom::Vec2;

verus! {

/// Spec-level counter bump that never overflows.
pub open spec fn bump(c: u64) -> u64 {
    if c == u64::MAX {
        c
    } else {
        (c + 1) as u64
    }
}

/// A scripted backend: replays `inputs` in order and records every clear,
/// present and teardown it is asked for.
#[derive(Clone, PartialEq, Eq, Debug)]
pub struct ScriptedBackend {
    /// The events still to be delivered, in order; `next` have been taken.
    pub inputs: Vec<Event>,
    /// How many of `inputs` were already delivered.
    pub next: usize,
    /// The screen size reported.
    pub size: Vec2,
    /// How many times the screen was cleared.
    pub clears: u64,
    /// How many frames were presented.
    pub presents: u64,
    /// Whether teardown was requested.
    pub finished: bool,
}

/// The terminal backend, as one of the closed set of adapters.
#[derive(Clone, PartialEq, Eq, Debug)]
pub enum Backend {
    /// Reports no input and a fixed size; output goes nowhere.
    Dummy,
    /// Replays a fixed list of events and counts requests.
    Scripted(ScriptedBackend),
}

impl Backend {
    /// A scripted backend over the given events and screen size.
    pub fn scripted(inputs: Vec<Event>, size: Vec2) -> (r: Backend)
        ensures
            r == Backend::Scripted(
                ScriptedBackend {
                    inputs,
                    next: 0,
                    size,
                    clears: 0,
                    presents: 0,
                    finished: false,
                },
            ),
    {
        Backend::Scripted(
            ScriptedBackend { inputs, next: 0, size, clears: 0, presents: 0, finished: false },
        )
    }

    /// The input events not yet delivered, as a spec-level value.
    pub open spec fn pending(self) -> Seq<Event> {
        match self {
            Backend::Dummy => Seq::empty(),
            Backend::Scripted(s) => if s.next <= s.inputs@.len() {
                s.inputs@.skip(s.next as int)
            } else {
                Seq::empty()
            },
        }
    }

    /// The backend after one successful poll, as a spec-level value.
    pub open spec fn polled(self) -> Backend {
        match self {
            Backend::Dummy => self,
            Backend::Scripted(s) => Backend::Scripted(
                ScriptedBackend { next: (s.next + 1) as usize, ..s },
            ),
        }
    }

    /// Takes the next pending input event, without blocking. Returns
    /// nothing when no input is pending.
    pub fn poll_event(&mut self) -> (r: Option<Event>)
        ensures
            old(self).pending().len() == 0 ==> r is None && *final(self) == *old(self),
            old(self).pending().len() > 0 ==> r == Some(old(self).pending()[0]) && *final(self)
                == old(self).polled() && final(self).pending() =~= old(self).pending().skip(1),
    {
        match self {
            Backend::Dummy => None,
            Backend::Scripted(s) => {
                if s.next < s.inputs.len() {
                    let e = s.inputs[s.next];
                    s.next = s.next + 1;
                    Some(e)
                } else {
                    None
                }
            },
        }
    }

    /// The screen size, in columns and rows, as a spec-level value.
    pub open spec fn spec_screen_size(self) -> Vec2 {
        match self {
            Backend::Dummy => Vec2 { x: 80, y: 24 },
            Backend::Scripted(s) => s.size,
        }
    }

    /// The screen size, in columns and rows.
    pub fn screen_size(&self) -> (r: Vec2)
        ensures
            r == self.spec_screen_size(),
    {
        match self {
            Backend::Dummy => Vec2 { x: 80, y: 24 },
            Backend::Scripted(s) => s.size,
        }
    }

    /// The backend after a clear request, as a spec-level value.
    pub open spec fn cleared(self) -> Backend {
        match self {
            Backend::Dummy => self,
            Backend::Scripted(s) => Backend::Scripted(
                ScriptedBackend { clears: bump(s.clears), ..s },
            ),
        }
    }

    /// Clears the whole screen to the given background color.
    pub fn clear(&mut self, background: u8)
        ensures
            *final(self) == old(self).cleared(),
    {
        match self {
            Backend::Dummy => (),
            Backend::Scripted(s) => {
                if s.clears < u64::MAX {
                    s.clears = s.clears + 1;
                }
            },
        }
    }

    /// The backend after presenting a frame, as a spec-level value.
    pub open spec fn presented(self) -> Backend {
        match self {
            Backend::Dummy => self,
            Backend::Scripted(s) => Backend::Scripted(
                ScriptedBackend { presents: bump(s.presents), ..s },
            ),
        }
    }

    /// Presents the drawn frame.
    pub fn refresh(&mut self)
        ensures
            *final(self) == old(self).presented(),
    {
        match self {
            Backend::Dummy => (),
            Backend::Scripted(s) => {
                if s.presents < u64::MAX {
                    s.presents = s.presents + 1;
                }
            },
        }
    }

    /// Tears the backend down; called exactly once, when the controller is
    /// dropped by its owner.
    pub fn finish(&mut self)
        ensures
            *final(self) == match *old(self) {
                Backend::Dummy => *old(self),
                Backend::Scripted(s) => Backend::Scripted(ScriptedBackend { finished: true, ..s }),
            },
    {
        match self {
            Backend::Dummy => (),
            Backend::Scripted(s) => {
                s.finished = true;
            },
        }
    }

    /// The adapter's name, for diagnostics.
    pub fn name(&self) -> (r: &'static str)
        ensures
            *self is Dummy ==> r@ == "dummy"@,
            *self is Scripted ==> r@ == "scripted"@,
    {
        match self {
            Backend::Dummy => "dummy",
            Backend::Scripted(_) => "scripted",
        }
    }
}

} // verus!
