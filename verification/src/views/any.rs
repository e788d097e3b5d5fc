//! The dynamic view: the closed set of node kinds a tree can hold, with
//! branch-free dispatch of every capability operation and the name-based
//! lookup that descends through wrappers.

use vstd::prelude::*;
use vstd::string::*;
use crate::direction::Direction;
use crate::event::Event;
use crate::event::EventResult;
use crate::geom::Margins;
use crate::geom::Vec2;
use crate::printer::PaintSpec;
use crate::printer::Printer;
use crate::printer::Surface;
use crate::views::boxed::Boxed;
use crate::views::button::Button;
use crate::views::dummy::Dummy;
use crate::views::enableable::Enableable;
use crate::views::named::Named;
use crate::views::padded::PaddedView;
use crate::views::resized::Resized;
use crate::views::resized::SizeConstraint;
use crate::views::scroll::Scroll;
use crate::views::text::Text;
use crate::views::track::TrackedView;

verus! {

/// The runtime kind of a tree node, used by type-checked lookup in place
/// of reflection: the set of node kinds is closed, so a tag comparison
/// replaces a runtime type test.
#[derive(Clone, Copy, PartialEq, Eq, Structural, Debug)]
pub enum ViewType {
    /// A `Dummy` leaf.
    Dummy,
    /// A `Text` leaf.
    Text,
    /// A `Button` leaf.
    Button,
    /// A `Named` wrapper.
    Named,
    /// A `PaddedView` wrapper.
    Padded,
    /// An `Enableable` wrapper.
    Enableable,
    /// A `TrackedView` wrapper.
    TrackedView,
    /// A `Boxed` wrapper.
    Boxed,
    /// A `Resized` wrapper.
    Resized,
    /// A `Scroll` wrapper.
    Scroll,
}

/// A node of the component tree, as one of the closed set of node kinds.
/// Wrappers hold their single child boxed; ownership is strictly
/// tree-shaped.
#[derive(PartialEq, Eq, Debug)]
pub enum AnyView {
    /// A leaf that draws nothing.
    Dummy,
    /// A single-line text leaf.
    Text(Text),
    /// A focusable button leaf.
    Button(Button),
    /// A name attached to a child, for lookup.
    Named {
        /// The identifier.
        name: String,
        /// The wrapped view.
        view: Box<AnyView>,
    },
    /// Margins around a child.
    Padded {
        /// The space taken around the wrapped view.
        margins: Margins,
        /// The wrapped view.
        view: Box<AnyView>,
    },
    /// A child that can be enabled or disabled.
    Enabled {
        /// Whether events are forwarded.
        enabled: bool,
        /// The wrapped view.
        view: Box<AnyView>,
    },
    /// A child remembering where it was last drawn.
    TrackedV {
        /// Offset of the most recent draw.
        last_offset: Vec2,
        /// The wrapped view.
        view: Box<AnyView>,
    },
    /// A plainly boxed child.
    BoxedV(Box<AnyView>),
    /// A child under size constraints.
    ResizedV {
        /// Constraint on the width.
        width: SizeConstraint,
        /// Constraint on the height.
        height: SizeConstraint,
        /// The wrapped view.
        view: Box<AnyView>,
    },
    /// A scrollable child.
    Scrolled {
        /// Whether horizontal scrolling is allowed.
        scroll_x: bool,
        /// Whether vertical scrolling is allowed.
        scroll_y: bool,
        /// The wrapped view.
        view: Box<AnyView>,
    },
}

impl AnyView {
    /// The runtime kind of this node, as a spec-level value.
    pub open spec fn type_of(self) -> ViewType {
        match self {
            AnyView::Dummy => ViewType::Dummy,
            AnyView::Text(_) => ViewType::Text,
            AnyView::Button(_) => ViewType::Button,
            AnyView::Named { .. } => ViewType::Named,
            AnyView::Padded { .. } => ViewType::Padded,
            AnyView::Enabled { .. } => ViewType::Enableable,
            AnyView::TrackedV { .. } => ViewType::TrackedView,
            AnyView::BoxedV(_) => ViewType::Boxed,
            AnyView::ResizedV { .. } => ViewType::Resized,
            AnyView::Scrolled { .. } => ViewType::Scroll,
        }
    }

    /// The runtime kind of this node.
    pub fn tag(&self) -> (r: ViewType)
        ensures
            r == self.type_of(),
    {
        match self {
            AnyView::Dummy => ViewType::Dummy,
            AnyView::Text(_) => ViewType::Text,
            AnyView::Button(_) => ViewType::Button,
            AnyView::Named { .. } => ViewType::Named,
            AnyView::Padded { .. } => ViewType::Padded,
            AnyView::Enabled { .. } => ViewType::Enableable,
            AnyView::TrackedV { .. } => ViewType::TrackedView,
            AnyView::BoxedV(_) => ViewType::Boxed,
            AnyView::ResizedV { .. } => ViewType::Resized,
            AnyView::Scrolled { .. } => ViewType::Scroll,
        }
    }

    /// The node kind's name, for diagnostics.
    pub fn kind_name(&self) -> (r: &'static str)
        ensures
            r@ == type_name_seq(self.type_of()),
    {
        match self {
            AnyView::Dummy => "Dummy",
            AnyView::Text(_) => "Text",
            AnyView::Button(_) => "Button",
            AnyView::Named { .. } => "Named",
            AnyView::Padded { .. } => "PaddedView",
            AnyView::Enabled { .. } => "Enableable",
            AnyView::TrackedV { .. } => "TrackedView",
            AnyView::BoxedV(_) => "Boxed",
            AnyView::ResizedV { .. } => "Resized",
            AnyView::Scrolled { .. } => "Scroll",
        }
    }

    /// The node and result an event produces, as a spec-level value.
    /// Wrappers delegate; a padded child sees the event translated by the
    /// top-left margin; a disabled child never sees it at all.
    pub open spec fn on_event_spec(self, event: Event) -> (AnyView, EventResult)
        decreases self,
    {
        match self {
            AnyView::Dummy => (self, EventResult::Ignored),
            AnyView::Text(_) => (self, EventResult::Ignored),
            AnyView::Button(b) => (self, Button::spec_result(b.on_press, event)),
            AnyView::Named { name, view } => {
                let (v, r) = view.on_event_spec(event);
                (AnyView::Named { name, view: Box::new(v) }, r)
            },
            AnyView::Padded { margins, view } => {
                let (v, r) = view.on_event_spec(
                    event.spec_relativized(Vec2 { x: margins.left, y: margins.top }),
                );
                (AnyView::Padded { margins, view: Box::new(v) }, r)
            },
            AnyView::Enabled { enabled, view } => {
                if enabled {
                    let (v, r) = view.on_event_spec(event);
                    (AnyView::Enabled { enabled, view: Box::new(v) }, r)
                } else {
                    (self, EventResult::Ignored)
                }
            },
            AnyView::TrackedV { last_offset, view } => {
                let (v, r) = view.on_event_spec(event);
                (AnyView::TrackedV { last_offset, view: Box::new(v) }, r)
            },
            AnyView::BoxedV(view) => {
                let (v, r) = view.on_event_spec(event);
                (AnyView::BoxedV(Box::new(v)), r)
            },
            AnyView::ResizedV { width, height, view } => {
                let (v, r) = view.on_event_spec(event);
                (AnyView::ResizedV { width, height, view: Box::new(v) }, r)
            },
            AnyView::Scrolled { scroll_x, scroll_y, view } => {
                let (v, r) = view.on_event_spec(event);
                (AnyView::Scrolled { scroll_x, scroll_y, view: Box::new(v) }, r)
            },
        }
    }

    /// Offers the node an input event.
    pub fn on_event(&mut self, event: Event) -> (r: EventResult)
        ensures
            *final(self) == old(self).on_event_spec(event).0,
            r == old(self).on_event_spec(event).1,
        decreases *old(self),
    {
        match self {
            AnyView::Dummy => EventResult::Ignored,
            AnyView::Text(_) => EventResult::Ignored,
            AnyView::Button(b) => crate::view::View::on_event(b, event),
            AnyView::Named { view, .. } => view.on_event(event),
            AnyView::Padded { margins, view } => {
                let top_left = margins.top_left();
                view.on_event(event.relativized(top_left))
            },
            AnyView::Enabled { enabled, view } => {
                if *enabled {
                    view.on_event(event)
                } else {
                    EventResult::Ignored
                }
            },
            AnyView::TrackedV { view, .. } => view.on_event(event),
            AnyView::BoxedV(view) => view.on_event(event),
            AnyView::ResizedV { view, .. } => view.on_event(event),
            AnyView::Scrolled { view, .. } => view.on_event(event),
        }
    }

    /// Whether this node accepts the focus, as a spec-level value: only a
    /// button does; wrappers follow their child.
    pub open spec fn accepts_focus(self) -> bool
        decreases self,
    {
        match self {
            AnyView::Dummy => false,
            AnyView::Text(_) => false,
            AnyView::Button(_) => true,
            AnyView::Named { view, .. } => view.accepts_focus(),
            AnyView::Padded { view, .. } => view.accepts_focus(),
            AnyView::Enabled { view, .. } => view.accepts_focus(),
            AnyView::TrackedV { view, .. } => view.accepts_focus(),
            AnyView::BoxedV(view) => view.accepts_focus(),
            AnyView::ResizedV { view, .. } => view.accepts_focus(),
            AnyView::Scrolled { view, .. } => view.accepts_focus(),
        }
    }

    /// Asks the node to accept the focus; it keeps its state either way.
    pub fn take_focus(&mut self, source: Direction) -> (r: bool)
        ensures
            r == old(self).accepts_focus(),
            *final(self) == *old(self),
        decreases *old(self),
    {
        match self {
            AnyView::Dummy => false,
            AnyView::Text(_) => false,
            AnyView::Button(_) => true,
            AnyView::Named { view, .. } => view.take_focus(source),
            AnyView::Padded { view, .. } => view.take_focus(source),
            AnyView::Enabled { view, .. } => view.take_focus(source),
            AnyView::TrackedV { view, .. } => view.take_focus(source),
            AnyView::BoxedV(view) => view.take_focus(source),
            AnyView::ResizedV { view, .. } => view.take_focus(source),
            AnyView::Scrolled { view, .. } => view.take_focus(source),
        }
    }

    /// The size this node asks for under `constraint`, as a spec-level
    /// value.
    pub open spec fn required_size_spec(self, constraint: Vec2) -> Vec2
        decreases self,
    {
        match self {
            AnyView::Dummy => Vec2 { x: 1, y: 1 },
            AnyView::Text(t) => Vec2 { x: t.content@.len() as usize, y: 1 },
            AnyView::Button(b) => Vec2 {
                x: crate::geom::sat_add(b.label@.len() as usize, 2),
                y: 1,
            },
            AnyView::Named { view, .. } => view.required_size_spec(constraint),
            AnyView::Padded { margins, view } => {
                let m = margins.spec_combined();
                view.required_size_spec(constraint.spec_sub(m)).spec_add(m)
            },
            AnyView::Enabled { view, .. } => view.required_size_spec(constraint),
            AnyView::TrackedV { view, .. } => view.required_size_spec(constraint),
            AnyView::BoxedV(view) => view.required_size_spec(constraint),
            AnyView::ResizedV { width, height, view } => {
                let inner = view.required_size_spec(constraint);
                Vec2 {
                    x: width.spec_result(constraint.x, inner.x),
                    y: height.spec_result(constraint.y, inner.y),
                }
            },
            AnyView::Scrolled { view, .. } => view.required_size_spec(constraint),
        }
    }

    /// Measures the node: a pure negotiation that changes nothing and may
    /// be called speculatively.
    pub fn required_size(&mut self, constraint: Vec2) -> (r: Vec2)
        ensures
            r == old(self).required_size_spec(constraint),
            *final(self) == *old(self),
        decreases *old(self),
    {
        match self {
            AnyView::Dummy => Vec2::new(1, 1),
            AnyView::Text(t) => Vec2::new(t.content.as_str().unicode_len(), 1),
            AnyView::Button(b) => Vec2::new(b.label.as_str().unicode_len().saturating_add(2), 1),
            AnyView::Named { view, .. } => view.required_size(constraint),
            AnyView::Padded { margins, view } => {
                let m = margins.combined();
                view.required_size(constraint.saturating_sub(m)).saturating_add(m)
            },
            AnyView::Enabled { view, .. } => view.required_size(constraint),
            AnyView::TrackedV { view, .. } => view.required_size(constraint),
            AnyView::BoxedV(view) => view.required_size(constraint),
            AnyView::ResizedV { width, height, view } => {
                let inner = view.required_size(constraint);
                let w = *width;
                let h = *height;
                Vec2::new(w.result(constraint.x, inner.x), h.result(constraint.y, inner.y))
            },
            AnyView::Scrolled { view, .. } => view.required_size(constraint),
        }
    }

    /// Commits the final size for this frame. None of the closed node
    /// kinds caches size-dependent state, so the tree is unchanged; the
    /// walk still follows the two-phase protocol.
    pub fn layout(&mut self, size: Vec2)
        ensures
            *final(self) == *old(self),
        decreases *old(self),
    {
        match self {
            AnyView::Dummy => (),
            AnyView::Text(_) => (),
            AnyView::Button(_) => (),
            AnyView::Named { view, .. } => view.layout(size),
            AnyView::Padded { margins, view } => {
                let m = margins.combined();
                view.layout(size.saturating_sub(m))
            },
            AnyView::Enabled { view, .. } => view.layout(size),
            AnyView::TrackedV { view, .. } => view.layout(size),
            AnyView::BoxedV(view) => view.layout(size),
            AnyView::ResizedV { view, .. } => view.layout(size),
            AnyView::Scrolled { view, .. } => view.layout(size),
        }
    }

    /// The writes a draw of this node appends, as a spec-level value.
    pub open spec fn paint_spec(self, printer: Printer) -> Seq<PaintSpec>
        decreases self,
    {
        match self {
            AnyView::Dummy => Seq::empty(),
            AnyView::Text(t) => seq![printer.record_for(Vec2 { x: 0, y: 0 }, t.content@)],
            AnyView::Button(b) => seq![
                printer.record_for(Vec2 { x: 0, y: 0 }, "<"@),
                printer.record_for(Vec2 { x: 1, y: 0 }, b.label@),
                printer.record_for(
                    Vec2 { x: crate::geom::sat_add(b.label@.len() as usize, 1), y: 0 },
                    ">"@,
                ),
            ],
            AnyView::Named { view, .. } => view.paint_spec(printer),
            AnyView::Padded { margins, view } => view.paint_spec(
                printer.spec_region(margins),
            ),
            AnyView::Enabled { enabled, view } => view.paint_spec(
                Printer { enabled: printer.enabled && enabled, ..printer },
            ),
            AnyView::TrackedV { view, .. } => view.paint_spec(printer),
            AnyView::BoxedV(view) => view.paint_spec(printer),
            AnyView::ResizedV { view, .. } => view.paint_spec(printer),
            AnyView::Scrolled { view, .. } => view.paint_spec(printer),
        }
    }

    /// The node after a draw, as a spec-level value: only the tracking
    /// wrapper changes, recording the offset it was drawn at.
    pub open spec fn drawn_spec(self, printer: Printer) -> AnyView
        decreases self,
    {
        match self {
            AnyView::Dummy => self,
            AnyView::Text(_) => self,
            AnyView::Button(_) => self,
            AnyView::Named { name, view } => AnyView::Named {
                name,
                view: Box::new(view.drawn_spec(printer)),
            },
            AnyView::Padded { margins, view } => AnyView::Padded {
                margins,
                view: Box::new(view.drawn_spec(printer.spec_region(margins))),
            },
            AnyView::Enabled { enabled, view } => AnyView::Enabled {
                enabled,
                view: Box::new(
                    view.drawn_spec(Printer { enabled: printer.enabled && enabled, ..printer }),
                ),
            },
            AnyView::TrackedV { view, .. } => AnyView::TrackedV {
                last_offset: printer.offset,
                view: Box::new(view.drawn_spec(printer)),
            },
            AnyView::BoxedV(view) => AnyView::BoxedV(Box::new(view.drawn_spec(printer))),
            AnyView::ResizedV { width, height, view } => AnyView::ResizedV {
                width,
                height,
                view: Box::new(view.drawn_spec(printer)),
            },
            AnyView::Scrolled { scroll_x, scroll_y, view } => AnyView::Scrolled {
                scroll_x,
                scroll_y,
                view: Box::new(view.drawn_spec(printer)),
            },
        }
    }

    /// Paints the node into `surface`: appends exactly the writes of
    /// `paint_spec`, and records the draw offset in tracking wrappers.
    pub fn draw(&mut self, printer: &Printer, surface: &mut Surface)
        ensures
            *final(self) == old(self).drawn_spec(*printer),
            final(surface).painted() =~= old(surface).painted() + old(self).paint_spec(*printer),
        decreases *old(self),
    {
        match self {
            AnyView::Dummy => (),
            AnyView::Text(t) => {
                printer.print(surface, Vec2::new(0, 0), t.content.as_str());
            },
            AnyView::Button(b) => {
                printer.print(surface, Vec2::new(0, 0), "<");
                printer.print(surface, Vec2::new(1, 0), b.label.as_str());
                let len = b.label.as_str().unicode_len();
                printer.print(surface, Vec2::new(len.saturating_add(1), 0), ">");
            },
            AnyView::Named { view, .. } => view.draw(printer, surface),
            AnyView::Padded { margins, view } => {
                let top_left = margins.top_left();
                let bot_right = margins.bot_right();
                let inner = printer.offset(top_left).shrinked(bot_right);
                view.draw(&inner, surface)
            },
            AnyView::Enabled { enabled, view } => {
                let inner = printer.enabled(*enabled);
                view.draw(&inner, surface)
            },
            AnyView::TrackedV { last_offset, view } => {
                *last_offset = printer.offset;
                view.draw(printer, surface)
            },
            AnyView::BoxedV(view) => view.draw(printer, surface),
            AnyView::ResizedV { view, .. } => view.draw(printer, surface),
            AnyView::Scrolled { view, .. } => view.draw(printer, surface),
        }
    }

    /// The first node found in tree-walk order that is wrapped under
    /// `name` and has the kind `t`, as a spec-level value. Lookup descends
    /// through every wrapper; a name match of the wrong kind does not stop
    /// the walk.
    pub open spec fn find_name_spec(self, name: Seq<char>, t: ViewType) -> Option<AnyView>
        decreases self,
    {
        match self {
            AnyView::Named { name: n, view } => {
                if n@ == name && view.type_of() == t {
                    Some(*view)
                } else {
                    view.find_name_spec(name, t)
                }
            },
            AnyView::Padded { view, .. } => view.find_name_spec(name, t),
            AnyView::Enabled { view, .. } => view.find_name_spec(name, t),
            AnyView::TrackedV { view, .. } => view.find_name_spec(name, t),
            AnyView::BoxedV(view) => view.find_name_spec(name, t),
            AnyView::ResizedV { view, .. } => view.find_name_spec(name, t),
            AnyView::Scrolled { view, .. } => view.find_name_spec(name, t),
            _ => None,
        }
    }

    /// Whether some node is wrapped under `name`, of whatever kind, as a
    /// spec-level value.
    pub open spec fn contains_name_spec(self, name: Seq<char>) -> bool
        decreases self,
    {
        match self {
            AnyView::Named { name: n, view } => n@ == name || view.contains_name_spec(name),
            AnyView::Padded { view, .. } => view.contains_name_spec(name),
            AnyView::Enabled { view, .. } => view.contains_name_spec(name),
            AnyView::TrackedV { view, .. } => view.contains_name_spec(name),
            AnyView::BoxedV(view) => view.contains_name_spec(name),
            AnyView::ResizedV { view, .. } => view.contains_name_spec(name),
            AnyView::Scrolled { view, .. } => view.contains_name_spec(name),
            _ => false,
        }
    }

    /// The tree with the node that lookup finds replaced by `w`, as a
    /// spec-level value; the tree itself where lookup finds nothing.
    pub open spec fn replace_name_spec(self, name: Seq<char>, t: ViewType, w: AnyView) -> AnyView
        decreases self,
    {
        match self {
            AnyView::Named { name: n, view } => {
                if n@ == name && view.type_of() == t {
                    AnyView::Named { name: n, view: Box::new(w) }
                } else {
                    AnyView::Named { name: n, view: Box::new(view.replace_name_spec(name, t, w)) }
                }
            },
            AnyView::Padded { margins, view } => AnyView::Padded {
                margins,
                view: Box::new(view.replace_name_spec(name, t, w)),
            },
            AnyView::Enabled { enabled, view } => AnyView::Enabled {
                enabled,
                view: Box::new(view.replace_name_spec(name, t, w)),
            },
            AnyView::TrackedV { last_offset, view } => AnyView::TrackedV {
                last_offset,
                view: Box::new(view.replace_name_spec(name, t, w)),
            },
            AnyView::BoxedV(view) => AnyView::BoxedV(Box::new(view.replace_name_spec(name, t, w))),
            AnyView::ResizedV { width, height, view } => AnyView::ResizedV {
                width,
                height,
                view: Box::new(view.replace_name_spec(name, t, w)),
            },
            AnyView::Scrolled { scroll_x, scroll_y, view } => AnyView::Scrolled {
                scroll_x,
                scroll_y,
                view: Box::new(view.replace_name_spec(name, t, w)),
            },
            _ => self,
        }
    }

    /// Finds the first node wrapped under `name` with the kind `t`, for
    /// reading. Lookup never mutates the tree.
    pub fn find_name(&self, name: &String, t: ViewType) -> (r: Option<&AnyView>)
        ensures
            match r {
                Some(v) => self.find_name_spec(name@, t) == Some(*v),
                None => self.find_name_spec(name@, t) is None,
            },
        decreases *self,
    {
        match self {
            AnyView::Named { name: n, view } => {
                if *n == *name && view.tag() == t {
                    Some(view)
                } else {
                    view.find_name(name, t)
                }
            },
            AnyView::Padded { view, .. } => view.find_name(name, t),
            AnyView::Enabled { view, .. } => view.find_name(name, t),
            AnyView::TrackedV { view, .. } => view.find_name(name, t),
            AnyView::BoxedV(view) => view.find_name(name, t),
            AnyView::ResizedV { view, .. } => view.find_name(name, t),
            AnyView::Scrolled { view, .. } => view.find_name(name, t),
            _ => None,
        }
    }

    /// Finds the first node wrapped under `name` with the kind `t`, for
    /// mutation: the tree afterwards is the old tree with the found node
    /// replaced by whatever the caller leaves behind the reference.
    pub fn find_name_mut(&mut self, name: &String, t: ViewType) -> (r: Option<&mut AnyView>)
        ensures
            match r {
                Some(v) => old(self).find_name_spec(name@, t) == Some(*v) && *final(self) == old(
                    self,
                ).replace_name_spec(name@, t, *final(v)),
                None => old(self).find_name_spec(name@, t) is None && *final(self) == *old(self),
            },
        decreases *old(self),
    {
        match self {
            AnyView::Named { name: n, view } => {
                if *n == *name && view.tag() == t {
                    Some(view)
                } else {
                    view.find_name_mut(name, t)
                }
            },
            AnyView::Padded { view, .. } => view.find_name_mut(name, t),
            AnyView::Enabled { view, .. } => view.find_name_mut(name, t),
            AnyView::TrackedV { view, .. } => view.find_name_mut(name, t),
            AnyView::BoxedV(view) => view.find_name_mut(name, t),
            AnyView::ResizedV { view, .. } => view.find_name_mut(name, t),
            AnyView::Scrolled { view, .. } => view.find_name_mut(name, t),
            _ => None,
        }
    }

    /// The first node wrapped under `name`, of whatever kind, as a
    /// spec-level value.
    pub open spec fn find_by_name_spec(self, name: Seq<char>) -> Option<AnyView>
        decreases self,
    {
        match self {
            AnyView::Named { name: n, view } => {
                if n@ == name {
                    Some(*view)
                } else {
                    view.find_by_name_spec(name)
                }
            },
            AnyView::Padded { view, .. } => view.find_by_name_spec(name),
            AnyView::Enabled { view, .. } => view.find_by_name_spec(name),
            AnyView::TrackedV { view, .. } => view.find_by_name_spec(name),
            AnyView::BoxedV(view) => view.find_by_name_spec(name),
            AnyView::ResizedV { view, .. } => view.find_by_name_spec(name),
            AnyView::Scrolled { view, .. } => view.find_by_name_spec(name),
            _ => None,
        }
    }

    /// Finds the first node wrapped under `name`, of whatever kind.
    pub fn find_by_name(&self, name: &String) -> (r: Option<&AnyView>)
        ensures
            match r {
                Some(v) => self.find_by_name_spec(name@) == Some(*v),
                None => self.find_by_name_spec(name@) is None,
            },
        decreases *self,
    {
        match self {
            AnyView::Named { name: n, view } => {
                if *n == *name {
                    Some(view)
                } else {
                    view.find_by_name(name)
                }
            },
            AnyView::Padded { view, .. } => view.find_by_name(name),
            AnyView::Enabled { view, .. } => view.find_by_name(name),
            AnyView::TrackedV { view, .. } => view.find_by_name(name),
            AnyView::BoxedV(view) => view.find_by_name(name),
            AnyView::ResizedV { view, .. } => view.find_by_name(name),
            AnyView::Scrolled { view, .. } => view.find_by_name(name),
            _ => None,
        }
    }

    /// Whether this node would accept the focus, without asking it to.
    pub fn focusable(&self) -> (r: bool)
        ensures
            r == self.accepts_focus(),
        decreases *self,
    {
        match self {
            AnyView::Dummy => false,
            AnyView::Text(_) => false,
            AnyView::Button(_) => true,
            AnyView::Named { view, .. } => view.focusable(),
            AnyView::Padded { view, .. } => view.focusable(),
            AnyView::Enabled { view, .. } => view.focusable(),
            AnyView::TrackedV { view, .. } => view.focusable(),
            AnyView::BoxedV(view) => view.focusable(),
            AnyView::ResizedV { view, .. } => view.focusable(),
            AnyView::Scrolled { view, .. } => view.focusable(),
        }
    }

    /// Whether some node is wrapped under `name`, of whatever kind.
    pub fn has_name(&self, name: &String) -> (r: bool)
        ensures
            r == self.contains_name_spec(name@),
        decreases *self,
    {
        match self {
            AnyView::Named { name: n, view } => *n == *name || view.has_name(name),
            AnyView::Padded { view, .. } => view.has_name(name),
            AnyView::Enabled { view, .. } => view.has_name(name),
            AnyView::TrackedV { view, .. } => view.has_name(name),
            AnyView::BoxedV(view) => view.has_name(name),
            AnyView::ResizedV { view, .. } => view.has_name(name),
            AnyView::Scrolled { view, .. } => view.has_name(name),
            _ => false,
        }
    }
}

/// The display name of a node kind, as a spec-level value.
pub open spec fn type_name_seq(t: ViewType) -> Seq<char> {
    match t {
        ViewType::Dummy => "Dummy"@,
        ViewType::Text => "Text"@,
        ViewType::Button => "Button"@,
        ViewType::Named => "Named"@,
        ViewType::Padded => "PaddedView"@,
        ViewType::Enableable => "Enableable"@,
        ViewType::TrackedView => "TrackedView"@,
        ViewType::Boxed => "Boxed"@,
        ViewType::Resized => "Resized"@,
        ViewType::Scroll => "Scroll"@,
    }
}

/// A node holds a given name exactly when lookup by that name finds
/// something.
pub proof fn lemma_contains_iff_found(v: AnyView, name: Seq<char>)
    ensures
        v.contains_name_spec(name) <==> v.find_by_name_spec(name) is Some,
    decreases v,
{
    match v {
        AnyView::Named { name: n, view } => {
            if n@ == name {
            } else {
                lemma_contains_iff_found(*view, name);
            }
        },
        AnyView::Padded { view, .. } => lemma_contains_iff_found(*view, name),
        AnyView::Enabled { view, .. } => lemma_contains_iff_found(*view, name),
        AnyView::TrackedV { view, .. } => lemma_contains_iff_found(*view, name),
        AnyView::BoxedV(view) => lemma_contains_iff_found(*view, name),
        AnyView::ResizedV { view, .. } => lemma_contains_iff_found(*view, name),
        AnyView::Scrolled { view, .. } => lemma_contains_iff_found(*view, name),
        _ => (),
    }
}

/// Law: after wrapping a view under a name, lookup with that name and
/// the view's own kind returns exactly that view.
pub proof fn lemma_find_named_hit(name: String, v: AnyView)
    ensures
        (AnyView::Named { name, view: Box::new(v) }).find_name_spec(name@, v.type_of()) == Some(
            v,
        ),
{
}

/// Law: lookup with a kind other than the wrapped view's own walks on
/// into the wrapped view, and so finds nothing when nothing inside
/// matches; a name match of the wrong kind never produces a result.
pub proof fn lemma_find_named_wrong_type(name: String, v: AnyView, t: ViewType)
    requires
        t != v.type_of(),
    ensures
        (AnyView::Named { name, view: Box::new(v) }).find_name_spec(name@, t)
            == v.find_name_spec(name@, t),
{
}

/// Law: lookup with a name other than the wrapping one walks on into the
/// wrapped view, and so finds nothing when nothing inside matches.
pub proof fn lemma_find_named_wrong_name(name: String, other: Seq<char>, v: AnyView, t: ViewType)
    requires
        other != name@,
    ensures
        (AnyView::Named { name, view: Box::new(v) }).find_name_spec(other, t)
            == v.find_name_spec(other, t),
{
}

/// Lookup for a name that a tree does not hold anywhere misses, for
/// every kind.
pub proof fn lemma_no_name_no_find(v: AnyView, name: Seq<char>, t: ViewType)
    requires
        !v.contains_name_spec(name),
    ensures
        v.find_name_spec(name, t) is None,
    decreases v,
{
    match v {
        AnyView::Named { name: n, view } => lemma_no_name_no_find(*view, name, t),
        AnyView::Padded { view, .. } => lemma_no_name_no_find(*view, name, t),
        AnyView::Enabled { view, .. } => lemma_no_name_no_find(*view, name, t),
        AnyView::TrackedV { view, .. } => lemma_no_name_no_find(*view, name, t),
        AnyView::BoxedV(view) => lemma_no_name_no_find(*view, name, t),
        AnyView::ResizedV { view, .. } => lemma_no_name_no_find(*view, name, t),
        AnyView::Scrolled { view, .. } => lemma_no_name_no_find(*view, name, t),
        _ => (),
    }
}

/// Law: every wrapper is fully transparent to name lookup - the lookup
/// descends through it as if it were not present; only a `Named` wrapper
/// itself takes part in the match.
pub proof fn lemma_wrappers_transparent(v: AnyView, name: Seq<char>, t: ViewType)
    ensures
        forall|margins: Margins|
            (AnyView::Padded { margins, view: Box::new(v) }).find_name_spec(name, t)
                == v.find_name_spec(name, t),
        forall|enabled: bool|
            (AnyView::Enabled { enabled, view: Box::new(v) }).find_name_spec(name, t)
                == v.find_name_spec(name, t),
        forall|last_offset: Vec2|
            (AnyView::TrackedV { last_offset, view: Box::new(v) }).find_name_spec(name, t)
                == v.find_name_spec(name, t),
        (AnyView::BoxedV(Box::new(v))).find_name_spec(name, t) == v.find_name_spec(name, t),
        forall|width: SizeConstraint, height: SizeConstraint|
            (AnyView::ResizedV { width, height, view: Box::new(v) }).find_name_spec(name, t)
                == v.find_name_spec(name, t),
        forall|scroll_x: bool, scroll_y: bool|
            (AnyView::Scrolled { scroll_x, scroll_y, view: Box::new(v) }).find_name_spec(name, t)
                == v.find_name_spec(name, t),
{
}

/// Conversion of a concrete view into a boxed dynamic one, so that it can
/// enter a layer stack or wrap another view of unknown kind.
pub trait IntoBoxedView {
    /// The dynamic view this value becomes, as a spec-level value.
    spec fn to_any_spec(self) -> AnyView;

    /// Moves the view into a boxed dynamic one.
    fn as_boxed_view(self) -> (r: Box<AnyView>)
        ensures
            *r == self.to_any_spec(),
    ;
}

impl IntoBoxedView for AnyView {
    open spec fn to_any_spec(self) -> AnyView {
        self
    }

    fn as_boxed_view(self) -> (r: Box<AnyView>) {
        Box::new(self)
    }
}

impl IntoBoxedView for Dummy {
    open spec fn to_any_spec(self) -> AnyView {
        AnyView::Dummy
    }

    fn as_boxed_view(self) -> (r: Box<AnyView>) {
        Box::new(AnyView::Dummy)
    }
}

impl IntoBoxedView for Text {
    open spec fn to_any_spec(self) -> AnyView {
        AnyView::Text(self)
    }

    fn as_boxed_view(self) -> (r: Box<AnyView>) {
        Box::new(AnyView::Text(self))
    }
}

impl IntoBoxedView for Button {
    open spec fn to_any_spec(self) -> AnyView {
        AnyView::Button(self)
    }

    fn as_boxed_view(self) -> (r: Box<AnyView>) {
        Box::new(AnyView::Button(self))
    }
}

impl<V: IntoBoxedView> IntoBoxedView for Named<V> {
    open spec fn to_any_spec(self) -> AnyView {
        AnyView::Named { name: self.name, view: Box::new(self.view.to_any_spec()) }
    }

    fn as_boxed_view(self) -> (r: Box<AnyView>) {
        Box::new(AnyView::Named { name: self.name, view: self.view.as_boxed_view() })
    }
}

impl<V: IntoBoxedView> IntoBoxedView for PaddedView<V> {
    open spec fn to_any_spec(self) -> AnyView {
        AnyView::Padded { margins: self.margins, view: Box::new(self.view.to_any_spec()) }
    }

    fn as_boxed_view(self) -> (r: Box<AnyView>) {
        Box::new(AnyView::Padded { margins: self.margins, view: self.view.as_boxed_view() })
    }
}

impl<V: IntoBoxedView> IntoBoxedView for Enableable<V> {
    open spec fn to_any_spec(self) -> AnyView {
        AnyView::Enabled { enabled: self.enabled, view: Box::new(self.view.to_any_spec()) }
    }

    fn as_boxed_view(self) -> (r: Box<AnyView>) {
        Box::new(AnyView::Enabled { enabled: self.enabled, view: self.view.as_boxed_view() })
    }
}

impl<V: IntoBoxedView> IntoBoxedView for TrackedView<V> {
    open spec fn to_any_spec(self) -> AnyView {
        AnyView::TrackedV { last_offset: self.last_offset, view: Box::new(self.view.to_any_spec()) }
    }

    fn as_boxed_view(self) -> (r: Box<AnyView>) {
        Box::new(
            AnyView::TrackedV { last_offset: self.last_offset, view: self.view.as_boxed_view() },
        )
    }
}

impl IntoBoxedView for Boxed {
    open spec fn to_any_spec(self) -> AnyView {
        AnyView::BoxedV(self.view)
    }

    fn as_boxed_view(self) -> (r: Box<AnyView>) {
        Box::new(AnyView::BoxedV(self.view))
    }
}

impl<V: IntoBoxedView> IntoBoxedView for Resized<V> {
    open spec fn to_any_spec(self) -> AnyView {
        AnyView::ResizedV {
            width: self.width,
            height: self.height,
            view: Box::new(self.view.to_any_spec()),
        }
    }

    fn as_boxed_view(self) -> (r: Box<AnyView>) {
        Box::new(
            AnyView::ResizedV {
                width: self.width,
                height: self.height,
                view: self.view.as_boxed_view(),
            },
        )
    }
}

impl<V: IntoBoxedView> IntoBoxedView for Scroll<V> {
    open spec fn to_any_spec(self) -> AnyView {
        AnyView::Scrolled {
            scroll_x: self.scroll_x,
            scroll_y: self.scroll_y,
            view: Box::new(self.view.to_any_spec()),
        }
    }

    fn as_boxed_view(self) -> (r: Box<AnyView>) {
        Box::new(
            AnyView::Scrolled {
                scroll_x: self.scroll_x,
                scroll_y: self.scroll_y,
                view: self.view.as_boxed_view(),
            },
        )
    }
}

} // verus!
