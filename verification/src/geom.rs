//! Sizes, positions and margins on the character grid.

use vstd::prelude::*;

verus! {

/// Saturating addition on `usize`, as a spec-level value.
pub open spec fn sat_add(a: usize, b: usize) -> usize {
    if a + b > usize::MAX {
        usize::MAX
    } else {
        (a + b) as usize
    }
}

/// Saturating subtraction on `usize`, as a spec-level value.
pub open spec fn sat_sub(a: usize, b: usize) -> usize {
    if a >= b {
        (a - b) as usize
    } else {
        0
    }
}

/// A point or size on the grid: `x` columns, `y` rows.
#[derive(Clone, Copy, PartialEq, Eq, Structural, Debug)]
pub struct Vec2 {
    /// Columns, from the left.
    pub x: usize,
    /// Rows, from the top.
    pub y: usize,
}

impl Vec2 {
    /// Builds a point from its two coordinates.
    pub fn new(x: usize, y: usize) -> (r: Vec2)
        ensures
            r == (Vec2 { x, y }),
    {
        Vec2 { x, y }
    }

    /// The origin.
    pub fn zero() -> (r: Vec2)
        ensures
            r == (Vec2 { x: 0, y: 0 }),
    {
        Vec2 { x: 0, y: 0 }
    }

    /// Componentwise saturating addition, as a spec-level value.
    pub open spec fn spec_add(self, o: Vec2) -> Vec2 {
        Vec2 { x: sat_add(self.x, o.x), y: sat_add(self.y, o.y) }
    }

    /// Componentwise saturating subtraction, as a spec-level value.
    pub open spec fn spec_sub(self, o: Vec2) -> Vec2 {
        Vec2 { x: sat_sub(self.x, o.x), y: sat_sub(self.y, o.y) }
    }

    /// Componentwise saturating addition.
    pub fn saturating_add(self, o: Vec2) -> (r: Vec2)
        ensures
            r == self.spec_add(o),
    {
        Vec2 { x: self.x.saturating_add(o.x), y: self.y.saturating_add(o.y) }
    }

    /// Componentwise saturating subtraction.
    pub fn saturating_sub(self, o: Vec2) -> (r: Vec2)
        ensures
            r == self.spec_sub(o),
    {
        Vec2 { x: self.x.saturating_sub(o.x), y: self.y.saturating_sub(o.y) }
    }

    /// Whether `self` lies inside the rectangle starting at `top_left`
    /// with the given `size`, as a spec-level value.
    pub open spec fn spec_fits_in_rect(self, top_left: Vec2, size: Vec2) -> bool {
        &&& top_left.x <= self.x < top_left.x + size.x
        &&& top_left.y <= self.y < top_left.y + size.y
    }

    /// Whether `self` lies inside the rectangle starting at `top_left`
    /// with the given `size`.
    pub fn fits_in_rect(self, top_left: Vec2, size: Vec2) -> (r: bool)
        ensures
            r == self.spec_fits_in_rect(top_left, size),
    {
        self.x >= top_left.x && self.x - top_left.x < size.x && self.y >= top_left.y && self.y
            - top_left.y < size.y
    }
}

/// Margins around a rectangular view: space taken on each side.
#[derive(Clone, Copy, PartialEq, Eq, Structural, Debug)]
pub struct Margins {
    /// Columns taken on the left.
    pub left: usize,
    /// Columns taken on the right.
    pub right: usize,
    /// Rows taken at the top.
    pub top: usize,
    /// Rows taken at the bottom.
    pub bottom: usize,
}

impl Margins {
    /// Builds margins from the four sides: left, right, top, bottom.
    pub fn lrtb(left: usize, right: usize, top: usize, bottom: usize) -> (r: Margins)
        ensures
            r == (Margins { left, right, top, bottom }),
    {
        Margins { left, right, top, bottom }
    }

    /// Total horizontal and vertical space taken, as a spec-level value.
    pub open spec fn spec_combined(self) -> Vec2 {
        Vec2 { x: sat_add(self.left, self.right), y: sat_add(self.top, self.bottom) }
    }

    /// Total horizontal and vertical space taken by the margins.
    pub fn combined(self) -> (r: Vec2)
        ensures
            r == self.spec_combined(),
    {
        Vec2 { x: self.left.saturating_add(self.right), y: self.top.saturating_add(self.bottom) }
    }

    /// The top-left corner offset the margins impose.
    pub fn top_left(self) -> (r: Vec2)
        ensures
            r == (Vec2 { x: self.left, y: self.top }),
    {
        Vec2 { x: self.left, y: self.top }
    }

    /// The bottom-right space the margins impose.
    pub fn bot_right(self) -> (r: Vec2)
        ensures
            r == (Vec2 { x: self.right, y: self.bottom }),
    {
        Vec2 { x: self.right, y: self.bottom }
    }
}

} // verus!
