//! A focusable leaf that fires a deferred callback when activated.

use vstd::prelude::*;
use vstd::string::*;
use crate::direction::Direction;
use crate::event::Callback;
use crate::event::Event;
use crate::event::EventResult;
use crate::event::Key;
use crate::geom::Vec2;
use crate::printer::Printer;
use crate::printer::Surface;

verus! {

/// A simple button: draws `<label>`, accepts the focus, and answers an
/// activation with a consumed result carrying its callback.
#[derive(Clone, PartialEq, Eq, Debug)]
pub struct Button {
    /// The label shown between angle brackets.
    pub label: String,
    /// The deferred callback fired on activation.
    pub on_press: Option<Callback>,
}

impl Button {
    /// A button with the given label and activation callback.
    pub fn new(label: &str, on_press: Callback) -> (r: Button)
        ensures
            r.label@ == label@,
            r.on_press == Some(on_press),
    {
        Button { label: label.to_owned(), on_press: Some(on_press) }
    }

    /// Whether `e` activates a button: the return key, the space
    /// character, or a left-button mouse release inside the view.
    pub open spec fn spec_activates(e: Event) -> bool {
        ||| e == Event::Key(Key::Enter)
        ||| e == Event::Char(' ')
        ||| match e {
            Event::Mouse { event, .. } => event is Release,
            _ => false,
        }
    }

    /// The result a button with callback `cb` returns for `e`, as a
    /// spec-level value.
    pub open spec fn spec_result(cb: Option<Callback>, e: Event) -> EventResult {
        if Self::spec_activates(e) {
            EventResult::Consumed(cb)
        } else {
            EventResult::Ignored
        }
    }
}

impl crate::view::View for Button {
    fn draw(&mut self, printer: &Printer, surface: &mut Surface) {
        printer.print(surface, Vec2::new(0, 0), "<");
        printer.print(surface, Vec2::new(1, 0), self.label.as_str());
        let len = self.label.as_str().unicode_len();
        printer.print(surface, Vec2::new(len.saturating_add(1), 0), ">");
    }

    fn required_size(&mut self, constraint: Vec2) -> Vec2 {
        Vec2::new(self.label.as_str().unicode_len().saturating_add(2), 1)
    }

    fn on_event(&mut self, event: Event) -> (r: EventResult)
        ensures
            r == Button::spec_result(old(self).on_press, event),
            *final(self) == *old(self),
    {
        let activated = match event {
            Event::Key(Key::Enter) => true,
            Event::Char(c) => c == ' ',
            Event::Mouse { event: m, .. } => match m {
                crate::event::MouseEvent::Release(_) => true,
                _ => false,
            },
            _ => false,
        };
        if activated {
            EventResult::Consumed(self.on_press)
        } else {
            EventResult::Ignored
        }
    }

    fn take_focus(&mut self, source: Direction) -> (r: bool)
        ensures
            r,
    {
        true
    }
}

} // verus!
