//! The layer stack of one screen: an ordered pile of overlays, bottom
//! first, the last layer being the active one for focus and input.

use vstd::prelude::*;
use crate::direction::Direction;
use crate::event::Event;
use crate::event::EventResult;
use crate::geom::sat_sub;
use crate::geom::Vec2;
use crate::printer::PaintSpec;
use crate::printer::Printer;
use crate::printer::Surface;
use crate::views::any::AnyView;
use crate::views::any::IntoBoxedView;
use crate::views::any::ViewType;

verus! {

/// Identifies a layer by its position in the stack.
#[derive(Clone, Copy, PartialEq, Eq, Structural, Debug)]
pub enum LayerPosition {
    /// Counted from the bottom: 0 is the bottom layer.
    FromBack(usize),
    /// Counted from the top: 0 is the topmost layer.
    FromFront(usize),
}

/// One overlay entry of a stack.
#[derive(PartialEq, Eq, Debug)]
pub struct Child {
    /// The layer's view.
    pub view: AnyView,
    /// Whether the layer occupies the full viewport, without the floating
    /// decoration.
    pub fullscreen: bool,
    /// The size committed at the last layout.
    pub size: Vec2,
    /// The position committed at the last layout; floating layers are
    /// centered, full-screen layers sit at the origin.
    pub offset: Vec2,
}

impl Child {
    /// The child after one layout pass against `viewport`, as a
    /// spec-level value: full-screen layers take the whole viewport at
    /// the origin; floating layers take the size they ask for, capped by
    /// the viewport, and sit centered.
    pub open spec fn layout_spec(self, viewport: Vec2) -> Child {
        if self.fullscreen {
            Child { size: viewport, offset: Vec2 { x: 0, y: 0 }, ..self }
        } else {
            let want = self.view.required_size_spec(viewport);
            let w = if want.x <= viewport.x {
                want.x
            } else {
                viewport.x
            };
            let h = if want.y <= viewport.y {
                want.y
            } else {
                viewport.y
            };
            Child {
                size: Vec2 { x: w, y: h },
                offset: Vec2 {
                    x: sat_sub(viewport.x, w) / 2,
                    y: sat_sub(viewport.y, h) / 2,
                },
                ..self
            }
        }
    }

    /// The printer this child draws with, as a spec-level value.
    pub open spec fn printer_spec(self, printer: Printer) -> Printer {
        Printer { offset: printer.offset.spec_add(self.offset), size: self.size, ..printer }
    }

    /// The writes drawing this child appends, as a spec-level value.
    pub open spec fn paint_spec(self, printer: Printer) -> Seq<PaintSpec> {
        self.view.paint_spec(self.printer_spec(printer))
    }

    /// The child after a draw, as a spec-level value.
    pub open spec fn drawn_spec(self, printer: Printer) -> Child {
        Child { view: self.view.drawn_spec(self.printer_spec(printer)), ..self }
    }
}

/// The writes drawing the given layers in order appends, as a spec-level
/// value.
pub open spec fn paint_of(layers: Seq<Child>, printer: Printer) -> Seq<PaintSpec>
    decreases layers.len(),
{
    if layers.len() == 0 {
        Seq::empty()
    } else {
        paint_of(layers.drop_last(), printer) + layers.last().paint_spec(printer)
    }
}

/// A screen's ordered stack of overlay layers, bottom first.
#[derive(PartialEq, Eq, Debug)]
pub struct StackView {
    /// The layers, bottom first; the last one is topmost and active.
    pub layers: Vec<Child>,
}

impl StackView {
    /// An empty stack.
    pub fn new() -> (r: StackView)
        ensures
            r.layers@ =~= Seq::<Child>::empty(),
    {
        StackView { layers: Vec::new() }
    }

    /// How many layers the stack holds.
    pub fn len(&self) -> (r: usize)
        ensures
            r == self.layers@.len(),
    {
        self.layers.len()
    }

    /// Whether the stack holds no layer.
    pub fn is_empty(&self) -> (r: bool)
        ensures
            r == (self.layers@.len() == 0),
    {
        self.layers.len() == 0
    }

    /// The index addressed by `pos`, as a spec-level value; meaningful
    /// only on a non-empty stack.
    pub open spec fn index_of(self, pos: LayerPosition) -> int {
        match pos {
            LayerPosition::FromBack(i) => i as int,
            LayerPosition::FromFront(i) => self.layers@.len() - 1 - i,
        }
    }

    /// Whether `pos` addresses a layer of this stack.
    pub open spec fn valid_pos(self, pos: LayerPosition) -> bool {
        0 <= self.index_of(pos) < self.layers@.len()
    }

    /// Appends a floating layer on top of the stack.
    pub fn add_layer<T: IntoBoxedView>(&mut self, view: T)
        ensures
            final(self).layers@ =~= old(self).layers@.push(
                Child {
                    view: view.to_any_spec(),
                    fullscreen: false,
                    size: Vec2 { x: 0, y: 0 },
                    offset: Vec2 { x: 0, y: 0 },
                },
            ),
    {
        let v = view.as_boxed_view();
        self.layers.push(
            Child { view: *v, fullscreen: false, size: Vec2::zero(), offset: Vec2::zero() },
        );
    }

    /// Appends a full-screen layer on top of the stack: it will occupy
    /// the whole viewport and carry no floating decoration.
    pub fn add_fullscreen_layer<T: IntoBoxedView>(&mut self, view: T)
        ensures
            final(self).layers@ =~= old(self).layers@.push(
                Child {
                    view: view.to_any_spec(),
                    fullscreen: true,
                    size: Vec2 { x: 0, y: 0 },
                    offset: Vec2 { x: 0, y: 0 },
                },
            ),
    {
        let v = view.as_boxed_view();
        self.layers.push(
            Child { view: *v, fullscreen: true, size: Vec2::zero(), offset: Vec2::zero() },
        );
    }

    /// Removes and returns the topmost layer's view; nothing on an empty
    /// stack.
    pub fn pop_layer(&mut self) -> (r: Option<Box<AnyView>>)
        ensures
            old(self).layers@.len() == 0 ==> r is None && final(self).layers@ =~= old(self).layers@,
            old(self).layers@.len() > 0 ==> {
                &&& final(self).layers@ =~= old(self).layers@.drop_last()
                &&& match r {
                    Some(v) => *v == old(self).layers@.last().view,
                    None => false,
                }
            },
    {
        match self.layers.pop() {
            Some(child) => Some(Box::new(child.view)),
            None => None,
        }
    }

    /// The committed sizes of the layers, bottom first. The controller
    /// compares them across frames: when any layer's footprint changed,
    /// the viewport must be cleared before redrawing.
    pub fn layer_sizes(&self) -> (r: Vec<Vec2>)
        ensures
            r@ =~= self.layers@.map_values(|c: Child| c.size),
    {
        let mut sizes: Vec<Vec2> = Vec::new();
        let n = self.layers.len();
        let mut i: usize = 0;
        while i < n
            invariant
                i <= n,
                n == self.layers@.len(),
                sizes@ =~= self.layers@.subrange(0, i as int).map_values(|c: Child| c.size),
            decreases n - i,
        {
            sizes.push(self.layers[i].size);
            proof {
                assert(self.layers@.subrange(0, i + 1 as int).map_values(|c: Child| c.size)
                    =~= self.layers@.subrange(0, i as int).map_values(|c: Child| c.size).push(
                    self.layers@[i as int].size,
                ));
            }
            i = i + 1;
        }
        proof {
            assert(self.layers@.subrange(0, n as int) =~= self.layers@);
        }
        sizes
    }

    /// The position of the first layer, bottom first, holding a node
    /// wrapped under `name`; nothing when no layer does.
    pub fn find_layer_from_name(&self, name: &String) -> (r: Option<LayerPosition>)
        ensures
            match r {
                Some(pos) => {
                    &&& self.valid_pos(pos)
                    &&& self.layers@[self.index_of(pos)].view.contains_name_spec(name@)
                    &&& forall|j: int|
                        0 <= j < self.index_of(pos) ==> !self.layers@[j].view.contains_name_spec(
                            name@,
                        )
                },
                None => forall|j: int|
                    0 <= j < self.layers@.len() ==> !self.layers@[j].view.contains_name_spec(
                        name@,
                    ),
            },
    {
        let n = self.layers.len();
        let mut i: usize = 0;
        while i < n
            invariant
                i <= n,
                n == self.layers@.len(),
                forall|j: int| 0 <= j < i ==> !self.layers@[j].view.contains_name_spec(name@),
            decreases n - i,
        {
            if self.layers[i].view.has_name(name) {
                return Some(LayerPosition::FromBack(i));
            }
            i = i + 1;
        }
        None
    }

    /// Removes the layer at `pos` and returns its view.
    pub fn remove_layer(&mut self, pos: LayerPosition) -> (r: Box<AnyView>)
        requires
            old(self).valid_pos(pos),
        ensures
            final(self).layers@ =~= old(self).layers@.remove(old(self).index_of(pos)),
            *r == old(self).layers@[old(self).index_of(pos)].view,
    {
        let i = match pos {
            LayerPosition::FromBack(i) => i,
            LayerPosition::FromFront(i) => self.layers.len() - 1 - i,
        };
        let child = self.layers.remove(i);
        Box::new(child.view)
    }

    /// The insertion index `pos` addresses in a stack of `len` layers,
    /// clamped into the stack, as a spec-level value.
    pub open spec fn insert_index_of(pos: LayerPosition, len: int) -> int {
        match pos {
            LayerPosition::FromBack(i) => if i as int <= len {
                i as int
            } else {
                len
            },
            LayerPosition::FromFront(i) => if i as int <= len {
                len - i
            } else {
                0
            },
        }
    }

    /// Moves the layer at `layer` to the place addressed by `position`,
    /// without destroying its state: to the front, to the back, or to an
    /// explicit position.
    pub fn reposition_layer(&mut self, layer: LayerPosition, position: LayerPosition)
        requires
            old(self).valid_pos(layer),
        ensures
            final(self).layers@ =~= old(self).layers@.remove(old(self).index_of(layer)).insert(
                StackView::insert_index_of(position, old(self).layers@.len() - 1),
                old(self).layers@[old(self).index_of(layer)],
            ),
    {
        let i = match layer {
            LayerPosition::FromBack(i) => i,
            LayerPosition::FromFront(i) => self.layers.len() - 1 - i,
        };
        let child = self.layers.remove(i);
        let len = self.layers.len();
        let j = match position {
            LayerPosition::FromBack(k) => if k <= len {
                k
            } else {
                len
            },
            LayerPosition::FromFront(k) => if k <= len {
                len - k
            } else {
                0
            },
        };
        self.layers.insert(j, child);
    }

    /// Moves the layer at `layer` to the top of the stack.
    pub fn move_to_front(&mut self, layer: LayerPosition)
        requires
            old(self).valid_pos(layer),
        ensures
            final(self).layers@ =~= old(self).layers@.remove(old(self).index_of(layer)).push(
                old(self).layers@[old(self).index_of(layer)],
            ),
    {
        let ghost removed = old(self).layers@.remove(old(self).index_of(layer));
        let ghost moved = old(self).layers@[old(self).index_of(layer)];
        self.reposition_layer(layer, LayerPosition::FromFront(0));
        proof {
            assert(removed.insert(removed.len() as int, moved) =~= removed.push(moved));
        }
    }

    /// The layers and result an event produces, as a spec-level value:
    /// the event goes to the topmost layer only, translated by that
    /// layer's offset; an empty stack ignores it.
    pub open spec fn on_event_spec(self, event: Event) -> (Seq<Child>, EventResult) {
        if self.layers@.len() == 0 {
            (self.layers@, EventResult::Ignored)
        } else {
            let top = self.layers@.last();
            let (v, r) = top.view.on_event_spec(event.spec_relativized(top.offset));
            (self.layers@.update(self.layers@.len() - 1, Child { view: v, ..top }), r)
        }
    }

    /// Offers the event to the topmost layer.
    pub fn on_event(&mut self, event: Event) -> (r: EventResult)
        ensures
            final(self).layers@ =~= old(self).on_event_spec(event).0,
            r == old(self).on_event_spec(event).1,
    {
        let n = self.layers.len();
        if n == 0 {
            EventResult::Ignored
        } else {
            match self.layers.pop() {
                Some(mut top) => {
                    let off = top.offset;
                    let r = top.view.on_event(event.relativized(off));
                    self.layers.push(top);
                    r
                },
                None => EventResult::Ignored,
            }
        }
    }

    /// Whether the topmost layer accepts the focus, as a spec-level
    /// value; an empty stack declines.
    pub open spec fn accepts_focus(self) -> bool {
        self.layers@.len() > 0 && self.layers@.last().view.accepts_focus()
    }

    /// Asks the topmost layer to accept the focus.
    pub fn take_focus(&mut self, source: Direction) -> (r: bool)
        ensures
            r == old(self).accepts_focus(),
            final(self).layers@ =~= old(self).layers@,
    {
        let n = self.layers.len();
        if n == 0 {
            false
        } else {
            match self.layers.pop() {
                Some(mut top) => {
                    let r = top.view.take_focus(source);
                    self.layers.push(top);
                    proof {
                        assert(self.layers@ =~= old(self).layers@);
                    }
                    r
                },
                None => false,
            }
        }
    }

    /// Runs the two-phase layout against `viewport`: measures each layer,
    /// commits its size, and places it (full-screen at the origin,
    /// floating centered).
    pub fn layout(&mut self, viewport: Vec2)
        ensures
            final(self).layers@ =~= old(self).layers@.map_values(
                |c: Child| c.layout_spec(viewport),
            ),
    {
        let n = self.layers.len();
        let mut i: usize = 0;
        while i < n
            invariant
                i <= n,
                n == self.layers@.len(),
                self.layers@.len() == old(self).layers@.len(),
                forall|j: int|
                    i <= j < n ==> self.layers@[j] == old(self).layers@[j],
                forall|j: int|
                    0 <= j < i ==> self.layers@[j] == old(self).layers@[j].layout_spec(viewport),
            decreases n - i,
        {
            let child = &mut self.layers[i];
            if child.fullscreen {
                child.size = viewport;
                child.offset = Vec2::zero();
                child.view.layout(viewport);
            } else {
                let want = child.view.required_size(viewport);
                let w = if want.x <= viewport.x {
                    want.x
                } else {
                    viewport.x
                };
                let h = if want.y <= viewport.y {
                    want.y
                } else {
                    viewport.y
                };
                child.size = Vec2::new(w, h);
                child.offset = Vec2::new(
                    viewport.x.saturating_sub(w) / 2,
                    viewport.y.saturating_sub(h) / 2,
                );
                let s = child.size;
                child.view.layout(s);
            }
            i = i + 1;
        }
        proof {
            assert(self.layers@ =~= old(self).layers@.map_values(
                |c: Child| c.layout_spec(viewport),
            ));
        }
    }

    /// Draws the layers with indices in `lo .. hi`, bottom first, each
    /// inside its committed region.
    fn draw_range(&mut self, printer: &Printer, surface: &mut Surface, lo: usize, hi: usize)
        requires
            lo <= hi <= old(self).layers@.len(),
        ensures
            final(self).layers@.len() == old(self).layers@.len(),
            forall|j: int|
                0 <= j < old(self).layers@.len() && !(lo <= j < hi) ==> final(self).layers@[j]
                    == old(self).layers@[j],
            forall|j: int|
                lo <= j < hi ==> final(self).layers@[j] == old(self).layers@[j].drawn_spec(
                    *printer,
                ),
            final(surface).painted() =~= old(surface).painted() + paint_of(
                old(self).layers@.subrange(lo as int, hi as int),
                *printer,
            ),
    {
        let mut i: usize = lo;
        while i < hi
            invariant
                lo <= i <= hi <= self.layers@.len(),
                self.layers@.len() == old(self).layers@.len(),
                forall|j: int|
                    0 <= j < old(self).layers@.len() && !(lo <= j < i) ==> self.layers@[j] == old(self).layers@[j],
                forall|j: int|
                    lo <= j < i ==> self.layers@[j] == old(self).layers@[j].drawn_spec(*printer),
                surface.painted() =~= old(surface).painted() + paint_of(
                    old(self).layers@.subrange(lo as int, i as int),
                    *printer,
                ),
            decreases hi - i,
        {
            let child = &mut self.layers[i];
            let inner = Printer {
                offset: printer.offset.saturating_add(child.offset),
                size: child.size,
                focused: printer.focused,
                enabled: printer.enabled,
            };
            child.view.draw(&inner, surface);
            proof {
                let prefix = old(self).layers@.subrange(lo as int, i + 1);
                assert(prefix.drop_last() =~= old(self).layers@.subrange(lo as int, i as int));
            }
            i = i + 1;
        }
        proof {
            assert(old(self).layers@.subrange(lo as int, hi as int) =~= old(self).layers@.subrange(lo as int, hi as int));
        }
    }

    /// The index where the foreground pass begins.
    fn fg_split(&self) -> (r: usize)
        ensures
            r == fg_boundary_of(self.layers@),
            r <= self.layers@.len(),
    {
        let n = self.layers.len();
        proof {
            lemma_fg_boundary_bounds(self.layers@);
            assert(self.layers@.subrange(0, n as int) =~= self.layers@);
        }
        let mut i: usize = n;
        while i > 0
            invariant
                i <= n,
                n == self.layers@.len(),
                fg_boundary_of(self.layers@) == fg_boundary_of(
                    self.layers@.subrange(0, i as int),
                ),
            decreases i,
        {
            if self.layers[i - 1].fullscreen {
                proof {
                    lemma_fg_boundary_bounds(self.layers@);
                }
                return i - 1;
            }
            proof {
                assert(self.layers@.subrange(0, i as int).drop_last() =~= self.layers@.subrange(
                    0,
                    i - 1 as int,
                ));
            }
            i = i - 1;
        }
        0
    }

    /// Draws the background pass: every layer below the topmost
    /// full-screen one. The menu overlay is drawn between the two passes,
    /// so it sits over background layers and only a true full-screen
    /// layer, drawn after it, can cover it.
    pub fn draw_bg(&mut self, printer: &Printer, surface: &mut Surface)
        ensures
            final(self).layers@.len() == old(self).layers@.len(),
            forall|j: int|
                fg_boundary_of(old(self).layers@) <= j < old(self).layers@.len() ==> final(self).layers@[j] == old(self).layers@[j],
            forall|j: int|
                0 <= j < fg_boundary_of(old(self).layers@) ==> final(self).layers@[j] == old(self).layers@[j].drawn_spec(*printer),
            final(surface).painted() =~= old(surface).painted() + paint_of(
                old(self).layers@.subrange(0, fg_boundary_of(old(self).layers@)),
                *printer,
            ),
    {
        proof {
            lemma_fg_boundary_bounds(self.layers@);
        }
        let hi = self.fg_split();
        self.draw_range(printer, surface, 0, hi);
    }

    /// Draws the foreground pass: the topmost full-screen layer and
    /// everything above it.
    pub fn draw_fg(&mut self, printer: &Printer, surface: &mut Surface)
        ensures
            final(self).layers@.len() == old(self).layers@.len(),
            forall|j: int|
                0 <= j < fg_boundary_of(old(self).layers@) ==> final(self).layers@[j] == old(self).layers@[j],
            forall|j: int|
                fg_boundary_of(old(self).layers@) <= j < old(self).layers@.len() ==> final(self).layers@[j] == old(self).layers@[j].drawn_spec(*printer),
            final(surface).painted() =~= old(surface).painted() + paint_of(
                old(self).layers@.subrange(
                    fg_boundary_of(old(self).layers@),
                    old(self).layers@.len() as int,
                ),
                *printer,
            ),
    {
        proof {
            lemma_fg_boundary_bounds(self.layers@);
        }
        let lo = self.fg_split();
        let n = self.layers.len();
        self.draw_range(printer, surface, lo, n);
    }
}

/// The first layer index, bottom first, whose tree holds a node wrapped
/// under `name` with the kind `t`, or the length when none does, as a
/// spec-level value.
pub open spec fn found_layer(layers: Seq<Child>, name: Seq<char>, t: ViewType) -> int
    decreases layers.len(),
{
    if layers.len() == 0 {
        0
    } else if layers[0].view.find_name_spec(name, t) is Some {
        0
    } else {
        1 + found_layer(layers.skip(1), name, t)
    }
}

/// Splitting the search at a miss-only prefix shifts the found index.
pub proof fn lemma_found_layer_split(layers: Seq<Child>, name: Seq<char>, t: ViewType, i: int)
    requires
        0 <= i <= layers.len(),
        forall|j: int| 0 <= j < i ==> layers[j].view.find_name_spec(name, t) is None,
    ensures
        found_layer(layers, name, t) == i + found_layer(layers.skip(i), name, t),
    decreases i,
{
    if i == 0 {
        assert(layers.skip(0) =~= layers);
    } else {
        assert(layers.skip(1).skip(i - 1) =~= layers.skip(i));
        lemma_found_layer_split(layers.skip(1), name, t, i - 1);
    }
}

/// What lookup for `name` and `t` finds in the given layers, bottom
/// first, as a spec-level value.
pub open spec fn find_name_in_layers(layers: Seq<Child>, name: Seq<char>, t: ViewType) -> Option<
    AnyView,
> {
    if found_layer(layers, name, t) < layers.len() {
        layers[found_layer(layers, name, t)].view.find_name_spec(name, t)
    } else {
        None
    }
}

impl StackView {
    /// Finds the first node wrapped under `name` with the kind `t`,
    /// searching the layers bottom first, for reading.
    pub fn find_name(&self, name: &String, t: ViewType) -> (r: Option<&AnyView>)
        ensures
            match r {
                Some(v) => find_name_in_layers(self.layers@, name@, t) == Some(*v),
                None => find_name_in_layers(self.layers@, name@, t) is None,
            },
    {
        let n = self.layers.len();
        let mut i: usize = 0;
        while i < n
            invariant
                i <= n,
                n == self.layers@.len(),
                forall|j: int|
                    0 <= j < i ==> self.layers@[j].view.find_name_spec(name@, t) is None,
            decreases n - i,
        {
            let hit = self.layers[i].view.find_name(name, t);
            match hit {
                Some(v) => {
                    proof {
                        lemma_found_layer_split(self.layers@, name@, t, i as int);
                        assert(self.layers@.skip(i as int)[0] == self.layers@[i as int]);
                    }
                    return Some(v);
                },
                None => (),
            }
            i = i + 1;
        }
        proof {
            lemma_found_layer_split(self.layers@, name@, t, n as int);
        }
        None
    }

    /// Finds the first node wrapped under `name` with the kind `t`, for
    /// mutation: afterwards the found layer's tree carries whatever the
    /// caller leaves behind the reference, the other layers are
    /// untouched.
    pub fn find_name_mut(&mut self, name: &String, t: ViewType) -> (r: Option<&mut AnyView>)
        ensures
            match r {
                Some(v) => {
                    let k = found_layer(old(self).layers@, name@, t);
                    &&& 0 <= k < old(self).layers@.len()
                    &&& old(self).layers@[k].view.find_name_spec(name@, t) == Some(*v)
                    &&& final(self).layers@ =~= old(self).layers@.update(
                        k,
                        Child {
                            view: old(self).layers@[k].view.replace_name_spec(
                                name@,
                                t,
                                *final(v),
                            ),
                            ..old(self).layers@[k]
                        },
                    )
                },
                None => {
                    &&& find_name_in_layers(old(self).layers@, name@, t) is None
                    &&& final(self).layers@ =~= old(self).layers@
                },
            },
    {
        let n = self.layers.len();
        let mut i: usize = 0;
        while i < n
            invariant
                i <= n,
                n == self.layers@.len(),
                self.layers@ =~= old(self).layers@,
                forall|j: int|
                    0 <= j < i ==> self.layers@[j].view.find_name_spec(name@, t) is None,
            decreases n - i,
        {
            let probe = self.layers[i].view.find_name(name, t);
            let hit = match probe {
                Some(_) => true,
                None => false,
            };
            if hit {
                proof {
                    lemma_found_layer_split(self.layers@, name@, t, i as int);
                    assert(self.layers@.skip(i as int)[0] == self.layers@[i as int]);
                }
                let child = &mut self.layers[i];
                return child.view.find_name_mut(name, t);
            }
            i = i + 1;
        }
        proof {
            lemma_found_layer_split(self.layers@, name@, t, n as int);
        }
        None
    }
}

/// One layer operation on a stack, for reasoning about operation
/// sequences.
pub enum LayerOp {
    /// Append a floating layer with the given view.
    Add(AnyView),
    /// Append a full-screen layer with the given view.
    AddFullscreen(AnyView),
    /// Remove the topmost layer; on an empty stack this yields nothing
    /// and removes nothing.
    Pop,
}

/// The layers after one operation, as a spec-level value: exactly what
/// `add_layer`, `add_fullscreen_layer` and `pop_layer` ensure.
pub open spec fn layer_op_step(layers: Seq<Child>, op: LayerOp) -> Seq<Child> {
    match op {
        LayerOp::Add(v) => layers.push(
            Child {
                view: v,
                fullscreen: false,
                size: Vec2 { x: 0, y: 0 },
                offset: Vec2 { x: 0, y: 0 },
            },
        ),
        LayerOp::AddFullscreen(v) => layers.push(
            Child {
                view: v,
                fullscreen: true,
                size: Vec2 { x: 0, y: 0 },
                offset: Vec2 { x: 0, y: 0 },
            },
        ),
        LayerOp::Pop => if layers.len() == 0 {
            layers
        } else {
            layers.drop_last()
        },
    }
}

/// The layers after a whole sequence of operations, first one first, as
/// a spec-level value.
pub open spec fn apply_layer_ops(layers: Seq<Child>, ops: Seq<LayerOp>) -> Seq<Child>
    decreases ops.len(),
{
    if ops.len() == 0 {
        layers
    } else {
        apply_layer_ops(layer_op_step(layers, ops[0]), ops.skip(1))
    }
}

/// How many of the operations add a layer.
pub open spec fn count_adds(ops: Seq<LayerOp>) -> int
    decreases ops.len(),
{
    if ops.len() == 0 {
        0
    } else {
        (if ops[0] is Pop {
            0int
        } else {
            1int
        }) + count_adds(ops.skip(1))
    }
}

/// How many of the operations pop a layer.
pub open spec fn count_pops(ops: Seq<LayerOp>) -> int
    decreases ops.len(),
{
    if ops.len() == 0 {
        0
    } else {
        (if ops[0] is Pop {
            1int
        } else {
            0int
        }) + count_pops(ops.skip(1))
    }
}

/// Whether no pop of the sequence ever meets an empty stack, starting
/// from `len` layers.
pub open spec fn no_pop_on_empty(len: int, ops: Seq<LayerOp>) -> bool
    decreases ops.len(),
{
    if ops.len() == 0 {
        true
    } else {
        match ops[0] {
            LayerOp::Pop => len > 0 && no_pop_on_empty(len - 1, ops.skip(1)),
            _ => no_pop_on_empty(len + 1, ops.skip(1)),
        }
    }
}

/// Law: for every sequence of add-layer and pop-layer operations in
/// which no pop meets an empty stack, the layer count afterwards equals
/// the starting count plus the adds minus the pops. (A pop on an empty
/// stack yields nothing and removes nothing, as `pop_layer` ensures.)
pub proof fn lemma_layer_count(layers: Seq<Child>, ops: Seq<LayerOp>)
    requires
        no_pop_on_empty(layers.len() as int, ops),
    ensures
        apply_layer_ops(layers, ops).len() == layers.len() + count_adds(ops) - count_pops(ops),
    decreases ops.len(),
{
    if ops.len() > 0 {
        lemma_layer_count(layer_op_step(layers, ops[0]), ops.skip(1));
    }
}

/// Law: after a node is wrapped under a fresh name and added as a new
/// layer, lookup with that name and the node's own kind returns exactly
/// that node; lookup with the same name and any other kind finds
/// nothing.
pub proof fn lemma_lookup_after_add(layers: Seq<Child>, c: Child, name: String, v: AnyView)
    requires
        forall|j: int| 0 <= j < layers.len() ==> !layers[j].view.contains_name_spec(name@),
        !v.contains_name_spec(name@),
        c.view == (AnyView::Named { name, view: Box::new(v) }),
    ensures
        find_name_in_layers(layers.push(c), name@, v.type_of()) == Some(v),
        forall|t: ViewType|
            t != v.type_of() ==> #[trigger] find_name_in_layers(layers.push(c), name@, t) is None,
{
    let grown = layers.push(c);
    assert forall|j: int, t: ViewType|
        0 <= j < layers.len() implies #[trigger] grown[j].view.find_name_spec(
        name@,
        t,
    ) is None by {
        assert(grown[j] == layers[j]);
        assert(!layers[j].view.contains_name_spec(name@));
        crate::views::any::lemma_no_name_no_find(grown[j].view, name@, t);
    }
    assert forall|t: ViewType| true implies #[trigger] found_layer(grown, name@, t) == (
    if c.view.find_name_spec(name@, t) is Some {
        layers.len() as int
    } else {
        grown.len() as int
    }) by {
        assert(forall|j: int|
            0 <= j < layers.len() ==> #[trigger] grown[j].view.find_name_spec(name@, t) is None);
        lemma_found_layer_split(grown, name@, t, layers.len() as int);
        assert(grown.skip(layers.len() as int) =~= seq![c]);
        assert(found_layer(seq![c], name@, t) == (if c.view.find_name_spec(name@, t) is Some {
            0int
        } else {
            1int
        })) by {
            assert(seq![c][0] == c);
            assert(seq![c].skip(1) =~= Seq::<Child>::empty());
            assert(found_layer(Seq::<Child>::empty(), name@, t) == 0);
        }
    }
    crate::views::any::lemma_find_named_hit(name, v);
    assert forall|t: ViewType| t != v.type_of() implies #[trigger] find_name_in_layers(
        grown,
        name@,
        t,
    ) is None by {
        crate::views::any::lemma_no_name_no_find(v, name@, t);
        assert(c.view.find_name_spec(name@, t) == v.find_name_spec(name@, t));
    }
}

/// The layer a path addresses within these layers, as a spec-level
/// value: a stack of several layers is a decision node and consumes
/// exactly one branch choice; a single-layer stack consumes none; a path
/// that does not fit addresses nothing.
pub open spec fn stack_path_layer(layers: Seq<Child>, entries: Seq<usize>) -> Option<int> {
    let nl = layers.len() as int;
    if nl == 0 {
        None
    } else if nl > 1 {
        if entries.len() == 1 && (entries[0] as int) < nl {
            Some(entries[0] as int)
        } else {
            None
        }
    } else {
        if entries.len() == 0 {
            Some(0int)
        } else {
            None
        }
    }
}

/// Where the foreground pass begins in the given layers, as a spec-level
/// value: the index of the topmost full-screen layer, or the length when
/// none is full-screen.
pub open spec fn fg_boundary_of(layers: Seq<Child>) -> int
    decreases layers.len(),
{
    if layers.len() == 0 {
        0
    } else if layers.last().fullscreen {
        layers.len() - 1
    } else {
        fg_boundary_of(layers.drop_last())
    }
}

/// The foreground boundary depends on the full-screen flags alone: two
/// layer sequences that agree on them split at the same place.
pub proof fn lemma_fg_boundary_same(s1: Seq<Child>, s2: Seq<Child>)
    requires
        s1.len() == s2.len(),
        forall|j: int| 0 <= j < s1.len() ==> s1[j].fullscreen == s2[j].fullscreen,
    ensures
        fg_boundary_of(s1) == fg_boundary_of(s2),
    decreases s1.len(),
{
    if s1.len() > 0 {
        assert(forall|j: int|
            0 <= j < s1.drop_last().len() ==> s1.drop_last()[j].fullscreen
                == s2.drop_last()[j].fullscreen);
        lemma_fg_boundary_same(s1.drop_last(), s2.drop_last());
    }
}

/// The foreground boundary lies inside the layer sequence.
pub proof fn lemma_fg_boundary_bounds(layers: Seq<Child>)
    ensures
        0 <= fg_boundary_of(layers) <= layers.len(),
    decreases layers.len(),
{
    if layers.len() == 0 {
    } else if layers.last().fullscreen {
    } else {
        lemma_fg_boundary_bounds(layers.drop_last());
    }
}

} // verus!
