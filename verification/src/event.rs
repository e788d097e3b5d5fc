//! Input events, the result of handling one, and the deferred callbacks a
//! handler can attach to it.

use vstd::prelude::*;
use crate::geom::Vec2;

verus! {

/// A non-character key on the keyboard.
#[derive(Clone, Copy, PartialEq, Eq, Structural, Debug)]
pub enum Key {
    /// The return key.
    Enter,
    /// The escape key.
    Esc,
    /// The tabulation key.
    Tab,
    /// The backspace key.
    Backspace,
    /// The left arrow.
    Left,
    /// The right arrow.
    Right,
    /// The up arrow.
    Up,
    /// The down arrow.
    Down,
}

/// A mouse button.
#[derive(Clone, Copy, PartialEq, Eq, Structural, Debug)]
pub enum MouseButton {
    /// The left button.
    Left,
    /// The right button.
    Right,
    /// The middle button.
    Middle,
}

/// What the mouse did.
#[derive(Clone, Copy, PartialEq, Eq, Structural, Debug)]
pub enum MouseEvent {
    /// A button was pressed.
    Press(MouseButton),
    /// A button was released.
    Release(MouseButton),
    /// The mouse moved while a button was held.
    Hold(MouseButton),
    /// The wheel rolled up.
    WheelUp,
    /// The wheel rolled down.
    WheelDown,
}

impl MouseEvent {
    /// Whether this action takes the focus to the component under the
    /// cursor, as a spec-level value.
    pub open spec fn spec_grabs_focus(self) -> bool {
        self is Press
    }

    /// Whether this action takes the focus to the component under the cursor.
    pub fn grabs_focus(self) -> (r: bool)
        ensures
            r == self.spec_grabs_focus(),
    {
        match self {
            MouseEvent::Press(_) => true,
            _ => false,
        }
    }
}

/// An input event delivered by the backend or synthesized by the loop.
#[derive(Clone, Copy, PartialEq, Eq, Structural, Debug)]
pub enum Event {
    /// A periodic refresh tick, synthesized when the loop is idle.
    Refresh,
    /// A printable character.
    Char(char),
    /// A control-character chord.
    CtrlChar(char),
    /// A non-character key.
    Key(Key),
    /// A mouse action at an absolute `position`; `offset` is the position
    /// of the receiving view, kept up to date while the event descends.
    Mouse {
        /// Position of the receiving view on the screen.
        offset: Vec2,
        /// Absolute position of the cursor.
        position: Vec2,
        /// What the mouse did.
        event: MouseEvent,
    },
    /// The terminal was resized.
    WindowResize,
    /// An interrupt-style exit request.
    Exit,
}

impl Event {
    /// The same event as seen by a view sitting `top_left` away from the
    /// receiver, as a spec-level value: a mouse event's view offset grows
    /// by `top_left`, every other event is unchanged.
    pub open spec fn spec_relativized(self, top_left: Vec2) -> Event {
        match self {
            Event::Mouse { offset, position, event } => Event::Mouse {
                offset: offset.spec_add(top_left),
                position,
                event,
            },
            _ => self,
        }
    }

    /// The same event as seen by a view sitting `top_left` away from the
    /// receiver.
    pub fn relativized(self, top_left: Vec2) -> (r: Event)
        ensures
            r == self.spec_relativized(top_left),
    {
        match self {
            Event::Mouse { offset, position, event } => Event::Mouse {
                offset: offset.saturating_add(top_left),
                position,
                event,
            },
            _ => self,
        }
    }
}

/// A deferred unit of work against the root controller, carried inside an
/// event result or sent over the cross-thread channel. The set of actions
/// is closed so that executing one is a pure function of the controller.
#[derive(Clone, Copy, PartialEq, Eq, Structural, Debug)]
pub enum Callback {
    /// Stop the event loop.
    Quit,
    /// Clear the whole screen.
    Clear,
    /// Give the menu overlay the focus.
    SelectMenubar,
    /// Add the debug console layer to the active screen.
    ShowDebugConsole,
    /// Add the debug console layer, or remove it if it is present.
    ToggleDebugConsole,
    /// Remove the topmost layer of the active screen.
    PopLayer,
    /// Append a number to the controller's mark journal; stands for an
    /// application-defined action whose execution should be observable.
    Mark(u64),
    /// Do nothing.
    Noop,
}

/// What a component did with an input event.
#[derive(Clone, Copy, PartialEq, Eq, Structural, Debug)]
pub enum EventResult {
    /// The event was not of interest; it keeps bubbling up.
    Ignored,
    /// The event was consumed, possibly with a deferred callback to run
    /// against the root controller once propagation has finished.
    Consumed(Option<Callback>),
}

impl EventResult {
    /// A consumed result carrying the given deferred callback.
    pub fn with_cb(cb: Callback) -> (r: EventResult)
        ensures
            r == EventResult::Consumed(Some(cb)),
    {
        EventResult::Consumed(Some(cb))
    }

    /// Whether the event was consumed.
    pub fn is_consumed(&self) -> (r: bool)
        ensures
            r == (*self is Consumed),
    {
        match self {
            EventResult::Consumed(_) => true,
            EventResult::Ignored => false,
        }
    }
}

/// A condition on events, used to register controller-level callbacks.
#[derive(Clone, Copy, PartialEq, Eq, Structural, Debug)]
pub enum EventTrigger {
    /// Matches exactly the given event.
    Exact(Event),
    /// Matches every key or character event.
    AnyKey,
    /// Matches every mouse event.
    AnyMouse,
    /// Matches every event.
    Always,
}

impl EventTrigger {
    /// Whether the trigger applies to `e`, as a spec-level value.
    pub open spec fn spec_matches(self, e: Event) -> bool {
        match self {
            EventTrigger::Exact(t) => t == e,
            EventTrigger::AnyKey => e is Key || e is Char || e is CtrlChar,
            EventTrigger::AnyMouse => e is Mouse,
            EventTrigger::Always => true,
        }
    }

    /// Whether the trigger applies to `e`.
    pub fn matches(&self, e: &Event) -> (r: bool)
        ensures
            r == self.spec_matches(*e),
    {
        match self {
            EventTrigger::Exact(t) => *t == *e,
            EventTrigger::AnyKey => match e {
                Event::Key(_) => true,
                Event::Char(_) => true,
                Event::CtrlChar(_) => true,
                _ => false,
            },
            EventTrigger::AnyMouse => match e {
                Event::Mouse { .. } => true,
                _ => false,
            },
            EventTrigger::Always => true,
        }
    }
}

} // verus!
