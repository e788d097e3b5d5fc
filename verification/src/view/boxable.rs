//! Makes any view wrappable under size constraints.

use vstd::prelude::*;
use crate::geom::Vec2;
use crate::views::resized::Resized;
use crate::views::resized::SizeConstraint;

verus! {

/// Makes a view wrappable in a `Resized`.
pub trait Boxable: crate::view::View + Sized {
    /// Wraps `self` in a `Resized` with the given size constraints.
    fn boxed(self, width: SizeConstraint, height: SizeConstraint) -> (r: Resized<Self>)
        ensures
            r == (Resized { width, height, view: self }),
    {
        Resized::new(width, height, self)
    }

    /// Wraps `self` into a fixed-size `Resized`.
    fn fixed_size(self, size: Vec2) -> (r: Resized<Self>)
        ensures
            r == (Resized {
                width: SizeConstraint::Fixed(size.x),
                height: SizeConstraint::Fixed(size.y),
                view: self,
            }),
    {
        Resized::with_fixed_size(size, self)
    }

    /// Wraps `self` into a fixed-width `Resized`.
    fn fixed_width(self, width: usize) -> (r: Resized<Self>)
        ensures
            r == (Resized {
                width: SizeConstraint::Fixed(width),
                height: SizeConstraint::Free,
                view: self,
            }),
    {
        Resized::with_fixed_width(width, self)
    }

    /// Wraps `self` into a fixed-height `Resized`.
    fn fixed_height(self, height: usize) -> (r: Resized<Self>)
        ensures
            r == (Resized {
                width: SizeConstraint::Free,
                height: SizeConstraint::Fixed(height),
                view: self,
            }),
    {
        Resized::with_fixed_height(height, self)
    }

    /// Wraps `self` into a full-screen `Resized`.
    fn full_screen(self) -> (r: Resized<Self>)
        ensures
            r == (Resized { width: SizeConstraint::Full, height: SizeConstraint::Full, view: self }),
    {
        Resized::with_full_screen(self)
    }

    /// Wraps `self` into a full-width `Resized`.
    fn full_width(self) -> (r: Resized<Self>)
        ensures
            r == (Resized { width: SizeConstraint::Full, height: SizeConstraint::Free, view: self }),
    {
        Resized::with_full_width(self)
    }

    /// Wraps `self` into a full-height `Resized`.
    fn full_height(self) -> (r: Resized<Self>)
        ensures
            r == (Resized { width: SizeConstraint::Free, height: SizeConstraint::Full, view: self }),
    {
        Resized::with_full_height(self)
    }

    /// Wraps `self` into a limited-size `Resized`.
    fn max_size(self, size: Vec2) -> (r: Resized<Self>)
        ensures
            r == (Resized {
                width: SizeConstraint::AtMost(size.x),
                height: SizeConstraint::AtMost(size.y),
                view: self,
            }),
    {
        Resized::with_max_size(size, self)
    }

    /// Wraps `self` into a limited-width `Resized`.
    fn max_width(self, max_width: usize) -> (r: Resized<Self>)
        ensures
            r == (Resized {
                width: SizeConstraint::AtMost(max_width),
                height: SizeConstraint::Free,
                view: self,
            }),
    {
        Resized::with_max_width(max_width, self)
    }

    /// Wraps `self` into a limited-height `Resized`.
    fn max_height(self, max_height: usize) -> (r: Resized<Self>)
        ensures
            r == (Resized {
                width: SizeConstraint::Free,
                height: SizeConstraint::AtMost(max_height),
                view: self,
            }),
    {
        Resized::with_max_height(max_height, self)
    }

    /// Wraps `self` into a `Resized` at least as big as `size`.
    fn min_size(self, size: Vec2) -> (r: Resized<Self>)
        ensures
            r == (Resized {
                width: SizeConstraint::AtLeast(size.x),
                height: SizeConstraint::AtLeast(size.y),
                view: self,
            }),
    {
        Resized::with_min_size(size, self)
    }

    /// Wraps `self` in a `Resized` at least `min_width` wide.
    fn min_width(self, min_width: usize) -> (r: Resized<Self>)
        ensures
            r == (Resized {
                width: SizeConstraint::AtLeast(min_width),
                height: SizeConstraint::Free,
                view: self,
            }),
    {
        Resized::with_min_width(min_width, self)
    }

    /// Wraps `self` in a `Resized` at least `min_height` tall.
    fn min_height(self, min_height: usize) -> (r: Resized<Self>)
        ensures
            r == (Resized {
                width: SizeConstraint::Free,
                height: SizeConstraint::AtLeast(min_height),
                view: self,
            }),
    {
        Resized::with_min_height(min_height, self)
    }
}

impl<T: crate::view::View> Boxable for T {

}

} // verus!
