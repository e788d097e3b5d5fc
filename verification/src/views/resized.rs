//! A wrapper constraining the size of another view.

use vstd::prelude::*;
use crate::direction::Direction;
use crate::event::Event;
use crate::event::EventResult;
use crate::geom::Vec2;
use crate::printer::Printer;
use crate::printer::Surface;

verus! {

/// A size constraint on one axis.
#[derive(Clone, Copy, PartialEq, Eq, Structural, Debug)]
pub enum SizeConstraint {
    /// No constraint: the wrapped view's answer stands.
    Free,
    /// Takes the full available space.
    Full,
    /// Exactly this many cells.
    Fixed(usize),
    /// At most this many cells.
    AtMost(usize),
    /// At least this many cells.
    AtLeast(usize),
}

impl SizeConstraint {
    /// The resulting size on this axis, given the space available and the
    /// size the wrapped view asked for, as a spec-level value.
    pub open spec fn spec_result(self, available: usize, required: usize) -> usize {
        match self {
            SizeConstraint::Free => required,
            SizeConstraint::Full => available,
            SizeConstraint::Fixed(n) => n,
            SizeConstraint::AtMost(n) => if required <= n {
                required
            } else {
                n
            },
            SizeConstraint::AtLeast(n) => if required >= n {
                required
            } else {
                n
            },
        }
    }

    /// The resulting size on this axis, given the space available and the
    /// size the wrapped view asked for.
    pub fn result(self, available: usize, required: usize) -> (r: usize)
        ensures
            r == self.spec_result(available, required),
    {
        match self {
            SizeConstraint::Free => required,
            SizeConstraint::Full => available,
            SizeConstraint::Fixed(n) => n,
            SizeConstraint::AtMost(n) => if required <= n {
                required
            } else {
                n
            },
            SizeConstraint::AtLeast(n) => if required >= n {
                required
            } else {
                n
            },
        }
    }
}

/// Wrapper imposing size constraints on the wrapped view, one per axis.
#[derive(Clone, PartialEq, Eq, Debug)]
pub struct Resized<V> {
    /// Constraint on the width.
    pub width: SizeConstraint,
    /// Constraint on the height.
    pub height: SizeConstraint,
    /// The wrapped view.
    pub view: V,
}

impl<V> Resized<V> {
    /// Wraps `view` under the two given constraints.
    pub fn new(width: SizeConstraint, height: SizeConstraint, view: V) -> (r: Resized<V>)
        ensures
            r == (Resized { width, height, view }),
    {
        Resized { width, height, view }
    }

    /// A wrapper fixing both dimensions.
    pub fn with_fixed_size(size: Vec2, view: V) -> (r: Resized<V>)
        ensures
            r == (Resized {
                width: SizeConstraint::Fixed(size.x),
                height: SizeConstraint::Fixed(size.y),
                view,
            }),
    {
        Resized {
            width: SizeConstraint::Fixed(size.x),
            height: SizeConstraint::Fixed(size.y),
            view,
        }
    }

    /// A wrapper fixing the width.
    pub fn with_fixed_width(width: usize, view: V) -> (r: Resized<V>)
        ensures
            r == (Resized {
                width: SizeConstraint::Fixed(width),
                height: SizeConstraint::Free,
                view,
            }),
    {
        Resized { width: SizeConstraint::Fixed(width), height: SizeConstraint::Free, view }
    }

    /// A wrapper fixing the height.
    pub fn with_fixed_height(height: usize, view: V) -> (r: Resized<V>)
        ensures
            r == (Resized {
                width: SizeConstraint::Free,
                height: SizeConstraint::Fixed(height),
                view,
            }),
    {
        Resized { width: SizeConstraint::Free, height: SizeConstraint::Fixed(height), view }
    }

    /// A wrapper taking the whole available space.
    pub fn with_full_screen(view: V) -> (r: Resized<V>)
        ensures
            r == (Resized { width: SizeConstraint::Full, height: SizeConstraint::Full, view }),
    {
        Resized { width: SizeConstraint::Full, height: SizeConstraint::Full, view }
    }

    /// A wrapper taking the whole available width.
    pub fn with_full_width(view: V) -> (r: Resized<V>)
        ensures
            r == (Resized { width: SizeConstraint::Full, height: SizeConstraint::Free, view }),
    {
        Resized { width: SizeConstraint::Full, height: SizeConstraint::Free, view }
    }

    /// A wrapper taking the whole available height.
    pub fn with_full_height(view: V) -> (r: Resized<V>)
        ensures
            r == (Resized { width: SizeConstraint::Free, height: SizeConstraint::Full, view }),
    {
        Resized { width: SizeConstraint::Free, height: SizeConstraint::Full, view }
    }

    /// A wrapper capping both dimensions.
    pub fn with_max_size(size: Vec2, view: V) -> (r: Resized<V>)
        ensures
            r == (Resized {
                width: SizeConstraint::AtMost(size.x),
                height: SizeConstraint::AtMost(size.y),
                view,
            }),
    {
        Resized {
            width: SizeConstraint::AtMost(size.x),
            height: SizeConstraint::AtMost(size.y),
            view,
        }
    }

    /// A wrapper capping the width.
    pub fn with_max_width(max_width: usize, view: V) -> (r: Resized<V>)
        ensures
            r == (Resized {
                width: SizeConstraint::AtMost(max_width),
                height: SizeConstraint::Free,
                view,
            }),
    {
        Resized { width: SizeConstraint::AtMost(max_width), height: SizeConstraint::Free, view }
    }

    /// A wrapper capping the height.
    pub fn with_max_height(max_height: usize, view: V) -> (r: Resized<V>)
        ensures
            r == (Resized {
                width: SizeConstraint::Free,
                height: SizeConstraint::AtMost(max_height),
                view,
            }),
    {
        Resized { width: SizeConstraint::Free, height: SizeConstraint::AtMost(max_height), view }
    }

    /// A wrapper granting both dimensions a floor.
    pub fn with_min_size(size: Vec2, view: V) -> (r: Resized<V>)
        ensures
            r == (Resized {
                width: SizeConstraint::AtLeast(size.x),
                height: SizeConstraint::AtLeast(size.y),
                view,
            }),
    {
        Resized {
            width: SizeConstraint::AtLeast(size.x),
            height: SizeConstraint::AtLeast(size.y),
            view,
        }
    }

    /// A wrapper granting the width a floor.
    pub fn with_min_width(min_width: usize, view: V) -> (r: Resized<V>)
        ensures
            r == (Resized {
                width: SizeConstraint::AtLeast(min_width),
                height: SizeConstraint::Free,
                view,
            }),
    {
        Resized { width: SizeConstraint::AtLeast(min_width), height: SizeConstraint::Free, view }
    }

    /// A wrapper granting the height a floor.
    pub fn with_min_height(min_height: usize, view: V) -> (r: Resized<V>)
        ensures
            r == (Resized {
                width: SizeConstraint::Free,
                height: SizeConstraint::AtLeast(min_height),
                view,
            }),
    {
        Resized { width: SizeConstraint::Free, height: SizeConstraint::AtLeast(min_height), view }
    }

    /// A shared reference to the wrapped view.
    pub fn get_inner(&self) -> (r: &V)
        ensures
            r == &self.view,
    {
        &self.view
    }
}

impl<V: crate::view::View> Resized<V> {
    /// Measures the wrapped view and applies both constraints to its
    /// answer.
    pub fn wrap_required_size(&mut self, req: Vec2) -> Vec2 {
        let inner = self.view.required_size(req);
        Vec2::new(self.width.result(req.x, inner.x), self.height.result(req.y, inner.y))
    }
}

impl<V: crate::view::View> crate::view::View for Resized<V> {
    fn draw(&mut self, printer: &Printer, surface: &mut Surface) {
        self.view.draw(printer, surface);
    }

    fn layout(&mut self, size: Vec2) {
        self.view.layout(size);
    }

    fn needs_relayout(&self) -> bool {
        self.view.needs_relayout()
    }

    fn required_size(&mut self, constraint: Vec2) -> Vec2 {
        self.wrap_required_size(constraint)
    }

    fn on_event(&mut self, event: Event) -> EventResult {
        self.view.on_event(event)
    }

    fn take_focus(&mut self, source: Direction) -> bool {
        self.view.take_focus(source)
    }
}

} // verus!
