//! Exclusive-selection families: a group coordinating several radio
//! buttons so that selecting one deselects the others.
//!
//! The shared selection record lives in the `RadioGroup`, the arena of
//! the family; each `RadioButton` stores its stable index into it and is
//! handed the group explicitly when it reads or changes the selection.
//! Mutating the selection updates the shared record synchronously, so an
//! observer looking at the group right after a selection sees the new
//! state.

use vstd::prelude::*;
use vstd::string::*;
use crate::direction::Direction;
use crate::event::Callback;
use crate::event::Event;
use crate::event::EventResult;
use crate::event::Key;
use crate::event::MouseButton;
use crate::event::MouseEvent;
use crate::geom::sat_add;
use crate::geom::Vec2;
use crate::printer::PaintSpec;
use crate::printer::Printer;
use crate::printer::Surface;

verus! {

/// What a radio button's marks look like: the check and uncheck marks and
/// the bracket pair around them. The defaults are single characters, but
/// multi-character marks work as well.
#[derive(Clone, Copy, PartialEq, Eq, Debug)]
pub struct RadioButtonConfig {
    /// The mark of a selected button.
    pub check: &'static str,
    /// The mark of an unselected button.
    pub uncheck: &'static str,
    /// The opening bracket.
    pub left_bracket: &'static str,
    /// The closing bracket.
    pub right_bracket: &'static str,
    /// The space between the closing bracket and the label.
    pub post_label_space: &'static str,
}

impl RadioButtonConfig {
    /// Whether this is the default set of marks, as a spec-level value.
    pub open spec fn is_standard(self) -> bool {
        &&& self.check@ == "X"@
        &&& self.uncheck@ == " "@
        &&& self.left_bracket@ == "("@
        &&& self.right_bracket@ == ")"@
        &&& self.post_label_space@ == " "@
    }

    /// The default marks: `(X)` when selected, `( )` when not.
    pub fn standard() -> (r: RadioButtonConfig)
        ensures
            r.is_standard(),
    {
        RadioButtonConfig {
            check: "X",
            uncheck: " ",
            left_bracket: "(",
            right_bracket: ")",
            post_label_space: " ",
        }
    }
}

/// The shared state of an exclusive-selection family: the values embedded
/// in its buttons, the index of the selected one, and the deferred
/// callback fired when the selection changes. Buttons address it by their
/// index; cloning a button's handle is replaced by handing the group to
/// the button explicitly.
#[derive(PartialEq, Eq, Debug)]
pub struct RadioGroup<T> {
    /// Index of the selected button; 0 while the group is empty.
    pub selection: usize,
    /// The values embedded in the buttons, in creation order.
    pub values: Vec<T>,
    /// Fired when the selection changes.
    pub on_change: Option<Callback>,
    /// The marks given to every button of the group.
    pub config: RadioButtonConfig,
}

impl<T> RadioGroup<T> {
    /// The selection points at a member, or the group is still empty.
    pub open spec fn wf(self) -> bool {
        self.values@.len() == 0 ==> self.selection == 0
    }

    /// An empty group with the standard marks.
    pub fn new() -> (r: RadioGroup<T>)
        ensures
            r.selection == 0,
            r.values@ =~= Seq::<T>::empty(),
            r.on_change is None,
            r.config.is_standard(),
    {
        RadioGroup {
            selection: 0,
            values: Vec::new(),
            on_change: None,
            config: RadioButtonConfig::standard(),
        }
    }

    /// An empty group with the given marks.
    pub fn with_config(config: RadioButtonConfig) -> (r: RadioGroup<T>)
        ensures
            r.selection == 0,
            r.values@ =~= Seq::<T>::empty(),
            r.on_change is None,
            r.config == config,
    {
        RadioGroup { selection: 0, values: Vec::new(), on_change: None, config }
    }

    /// Adds a new button to the group, embedding `value` and displaying
    /// `label`. Buttons are indexed in creation order, starting from 0.
    pub fn button(&mut self, value: T, label: &str) -> (r: RadioButton)
        ensures
            final(self).values@ =~= old(self).values@.push(value),
            final(self).selection == old(self).selection,
            final(self).on_change == old(self).on_change,
            final(self).config == old(self).config,
            r.id == old(self).values@.len(),
            r.enabled,
            r.label@ == label@,
            r.config == old(self).config,
    {
        let id = self.values.len();
        self.values.push(value);
        RadioButton { id, enabled: true, label: label.to_owned(), config: self.config }
    }

    /// The index of the selected button.
    pub fn selected_id(&self) -> (r: usize)
        ensures
            r == self.selection,
    {
        self.selection
    }

    /// The value embedded in the selected button. The group must hold at
    /// least one button.
    pub fn selection(&self) -> (r: &T)
        requires
            self.selection < self.values@.len(),
        ensures
            *r == self.values@[self.selection as int],
    {
        &self.values[self.selection]
    }

    /// Sets the deferred callback fired when the selection changes.
    pub fn set_on_change(&mut self, on_change: Callback)
        ensures
            final(self).on_change == Some(on_change),
            final(self).selection == old(self).selection,
            final(self).values@ =~= old(self).values@,
            final(self).config == old(self).config,
    {
        self.on_change = Some(on_change);
    }

    /// Sets the change callback; chainable variant.
    pub fn on_change(self, on_change: Callback) -> (r: RadioGroup<T>)
        ensures
            r.on_change == Some(on_change),
            r.selection == self.selection,
            r.values@ =~= self.values@,
            r.config == self.config,
    {
        RadioGroup { on_change: Some(on_change), ..self }
    }
}

impl RadioGroup<String> {
    /// Adds a button using the label itself as the embedded value.
    pub fn button_str(&mut self, text: &str) -> (r: RadioButton)
        ensures
            final(self).values@.len() == old(self).values@.len() + 1,
            final(self).values@.drop_last() =~= old(self).values@,
            final(self).values@.last()@ == text@,
            final(self).selection == old(self).selection,
            final(self).on_change == old(self).on_change,
            final(self).config == old(self).config,
            r.id == old(self).values@.len(),
            r.enabled,
            r.label@ == text@,
            r.config == old(self).config,
    {
        let value = text.to_owned();
        self.button(value, text)
    }
}

/// One member of an exclusive-selection family. Buttons are not created
/// directly but through `RadioGroup::button`; a button reads and changes
/// the shared selection through the group handed to it.
#[derive(Clone, PartialEq, Eq, Debug)]
pub struct RadioButton {
    /// The button's stable index in its group.
    pub id: usize,
    /// Whether the button reacts to input.
    pub enabled: bool,
    /// The label drawn next to the marks.
    pub label: String,
    /// The marks drawn around the selection state.
    pub config: RadioButtonConfig,
}

impl RadioButton {
    /// Whether this button is the selected member of `group`, as a
    /// spec-level value.
    pub open spec fn is_selected_spec<T>(self, group: RadioGroup<T>) -> bool {
        group.selection == self.id
    }

    /// Disables this button: it no longer reacts to input.
    pub fn disable(&mut self)
        ensures
            *final(self) == (RadioButton { enabled: false, ..*old(self) }),
    {
        self.enabled = false;
    }

    /// Disables this button; chainable variant.
    pub fn disabled(self) -> (r: RadioButton)
        ensures
            r == (RadioButton { enabled: false, ..self }),
    {
        RadioButton { enabled: false, ..self }
    }

    /// Re-enables this button.
    pub fn enable(&mut self)
        ensures
            *final(self) == (RadioButton { enabled: true, ..*old(self) }),
    {
        self.enabled = true;
    }

    /// Enables or disables this button.
    pub fn set_enabled(&mut self, enabled: bool)
        ensures
            *final(self) == (RadioButton { enabled, ..*old(self) }),
    {
        self.enabled = enabled;
    }

    /// Whether this button reacts to input.
    pub fn is_enabled(&self) -> (r: bool)
        ensures
            r == self.enabled,
    {
        self.enabled
    }

    /// Whether this button is the selected member of `group`.
    pub fn is_selected<T>(&self, group: &RadioGroup<T>) -> (r: bool)
        ensures
            r == self.is_selected_spec(*group),
    {
        group.selection == self.id
    }

    /// The result selecting this button produces, as a spec-level value:
    /// consumed, carrying the group's change callback when one is set.
    pub open spec fn select_result_spec<T>(group: RadioGroup<T>) -> EventResult {
        EventResult::Consumed(group.on_change)
    }

    /// Selects this button, un-selecting any other in the same group. The
    /// shared selection is updated before returning, so an observer
    /// reading the group right away sees the new state; the change
    /// callback travels in the result, to run against the controller once
    /// propagation finished.
    pub fn select<T>(&mut self, group: &mut RadioGroup<T>) -> (r: EventResult)
        ensures
            final(group).selection == old(self).id,
            final(group).values@ =~= old(group).values@,
            final(group).on_change == old(group).on_change,
            final(group).config == old(group).config,
            *final(self) == *old(self),
            r == RadioButton::select_result_spec(*old(group)),
    {
        group.selection = self.id;
        EventResult::Consumed(group.on_change)
    }

    /// Selects this button; chainable variant. The change callback is
    /// dropped.
    pub fn selected<T>(self, group: &mut RadioGroup<T>) -> (r: RadioButton)
        ensures
            final(group).selection == self.id,
            final(group).values@ =~= old(group).values@,
            final(group).on_change == old(group).on_change,
            final(group).config == old(group).config,
            r == self,
    {
        group.selection = self.id;
        self
    }

    /// Sets the selection state of the button; chainable variant. The
    /// change callback is dropped.
    pub fn with_selected<T>(self, selection: bool, group: &mut RadioGroup<T>) -> (r: RadioButton)
        ensures
            final(group).selection == (if selection {
                self.id as int
            } else {
                old(group).selection as int
            }),
            final(group).values@ =~= old(group).values@,
            final(group).on_change == old(group).on_change,
            final(group).config == old(group).config,
            r == self,
    {
        if selection {
            group.selection = self.id;
        }
        self
    }

    /// The size this button asks for, as a spec-level value: the bracket
    /// pair around the current mark, then the label after one separator
    /// when there is one; one row high.
    pub open spec fn req_size_spec(self, selected: bool) -> Vec2 {
        let mark = if selected {
            self.config.check@.len()
        } else {
            self.config.uncheck@.len()
        };
        let base = sat_add(
            sat_add(self.config.left_bracket@.len() as usize, mark as usize),
            self.config.right_bracket@.len() as usize,
        );
        if self.label@.len() == 0 {
            Vec2 { x: base, y: 1 }
        } else {
            Vec2 {
                x: sat_add(
                    sat_add(base, self.config.post_label_space@.len() as usize),
                    self.label@.len() as usize,
                ),
                y: 1,
            }
        }
    }

    /// The size this button asks for.
    pub fn req_size<T>(&self, group: &RadioGroup<T>) -> (r: Vec2)
        ensures
            r == self.req_size_spec(self.is_selected_spec(*group)),
    {
        let mark = if self.is_selected(group) {
            self.config.check.unicode_len()
        } else {
            self.config.uncheck.unicode_len()
        };
        let base = self.config.left_bracket.unicode_len().saturating_add(mark).saturating_add(
            self.config.right_bracket.unicode_len(),
        );
        if self.label.as_str().is_empty() {
            Vec2::new(base, 1)
        } else {
            Vec2::new(
                base.saturating_add(self.config.post_label_space.unicode_len()).saturating_add(
                    self.label.as_str().unicode_len(),
                ),
                1,
            )
        }
    }

    /// The size this button asks for under any constraint.
    pub fn required_size<T>(&self, group: &RadioGroup<T>, constraint: Vec2) -> (r: Vec2)
        ensures
            r == self.req_size_spec(self.is_selected_spec(*group)),
    {
        self.req_size(group)
    }

    /// Whether the button accepts the focus: only while enabled.
    pub fn take_focus<T>(&self, group: &RadioGroup<T>, source: Direction) -> (r: bool)
        ensures
            r == self.enabled,
    {
        self.enabled
    }

    /// The writes drawing the marks and label appends, as a spec-level
    /// value: opening bracket, current mark, closing bracket, then the
    /// separator and label when the label is not empty.
    pub open spec fn paint_marks_spec(self, selected: bool, p: Printer) -> Seq<PaintSpec> {
        let mark = if selected {
            self.config.check@
        } else {
            self.config.uncheck@
        };
        let x1 = self.config.left_bracket@.len() as usize;
        let x2 = sat_add(x1, mark.len() as usize);
        let x3 = sat_add(x2, self.config.right_bracket@.len() as usize);
        let x4 = sat_add(x3, self.config.post_label_space@.len() as usize);
        let base = seq![
            p.record_for(Vec2 { x: 0, y: 0 }, self.config.left_bracket@),
            p.record_for(Vec2 { x: x1, y: 0 }, mark),
            p.record_for(Vec2 { x: x2, y: 0 }, self.config.right_bracket@),
        ];
        if self.label@.len() == 0 {
            base
        } else {
            base + seq![
                p.record_for(Vec2 { x: x3, y: 0 }, self.config.post_label_space@),
                p.record_for(Vec2 { x: x4, y: 0 }, self.label@),
            ]
        }
    }

    /// Draws the marks and label: `(X) label` when selected, `( ) label`
    /// when not.
    pub fn draw_internal<T>(&self, group: &RadioGroup<T>, printer: &Printer, surface: &mut Surface)
        ensures
            final(surface).painted() =~= old(surface).painted() + self.paint_marks_spec(
                self.is_selected_spec(*group),
                *printer,
            ),
    {
        let mut x: usize = 0;
        printer.print(surface, Vec2::new(x, 0), self.config.left_bracket);
        x = x.saturating_add(self.config.left_bracket.unicode_len());
        if self.is_selected(group) {
            printer.print(surface, Vec2::new(x, 0), self.config.check);
            x = x.saturating_add(self.config.check.unicode_len());
        } else {
            printer.print(surface, Vec2::new(x, 0), self.config.uncheck);
            x = x.saturating_add(self.config.uncheck.unicode_len());
        }
        printer.print(surface, Vec2::new(x, 0), self.config.right_bracket);
        x = x.saturating_add(self.config.right_bracket.unicode_len());
        if !self.label.as_str().is_empty() {
            printer.print(surface, Vec2::new(x, 0), self.config.post_label_space);
            x = x.saturating_add(self.config.post_label_space.unicode_len());
            printer.print(surface, Vec2::new(x, 0), self.label.as_str());
        }
    }

    /// Draws the button: in the regular style while it and its printer
    /// are enabled, in the inactive style otherwise.
    pub fn draw<T>(&self, group: &RadioGroup<T>, printer: &Printer, surface: &mut Surface)
        ensures
            final(surface).painted() =~= old(surface).painted() + self.paint_marks_spec(
                self.is_selected_spec(*group),
                if self.enabled && printer.enabled {
                    *printer
                } else {
                    Printer { enabled: false, ..*printer }
                },
            ),
    {
        if self.enabled && printer.enabled {
            self.draw_internal(group, printer, surface);
        } else {
            let inactive = printer.enabled(false);
            self.draw_internal(group, &inactive, surface);
        }
    }

    /// Whether `e` activates a button of this shape, as a spec-level
    /// value: the return key, the space character, or a left-button
    /// release inside the button's rectangle.
    pub open spec fn spec_activates(self, selected: bool, e: Event) -> bool {
        ||| e == Event::Key(Key::Enter)
        ||| e == Event::Char(' ')
        ||| match e {
            Event::Mouse { offset, position, event } => event == MouseEvent::Release(
                MouseButton::Left,
            ) && position.spec_fits_in_rect(offset, self.req_size_spec(selected)),
            _ => false,
        }
    }

    /// Offers the button an input event: an activation while enabled
    /// selects it; everything else is ignored.
    pub fn on_event<T>(&mut self, group: &mut RadioGroup<T>, event: Event) -> (r: EventResult)
        ensures
            *final(self) == *old(self),
            ({
                let fires = old(self).enabled && old(self).spec_activates(
                    old(self).is_selected_spec(*old(group)),
                    event,
                );
                if fires {
                    &&& final(group).selection == old(self).id
                    &&& final(group).values@ =~= old(group).values@
                    &&& final(group).on_change == old(group).on_change
                    &&& final(group).config == old(group).config
                    &&& r == RadioButton::select_result_spec(*old(group))
                } else {
                    &&& *final(group) == *old(group)
                    &&& r == EventResult::Ignored
                }
            }),
    {
        if !self.enabled {
            return EventResult::Ignored;
        }
        let fires = match event {
            Event::Key(Key::Enter) => true,
            Event::Char(c) => c == ' ',
            Event::Mouse { offset, position, event: m } => {
                let released = match m {
                    MouseEvent::Release(MouseButton::Left) => true,
                    _ => false,
                };
                released && position.fits_in_rect(offset, self.req_size(group))
            },
            _ => false,
        };
        if fires {
            self.select(group)
        } else {
            EventResult::Ignored
        }
    }
}

/// Law: selecting one member of an exclusive-selection family sets the
/// shared selection index to that member's identity, and every other
/// member of the family immediately reports not selected.
pub proof fn lemma_exclusive_selection<T>(
    group: RadioGroup<T>,
    chosen: RadioButton,
    other: RadioButton,
)
    requires
        other.id != chosen.id,
    ensures
        chosen.is_selected_spec(RadioGroup { selection: chosen.id, ..group }),
        !other.is_selected_spec(RadioGroup { selection: chosen.id, ..group }),
{
}

} // verus!
