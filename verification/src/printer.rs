//! Drawing model: a `Printer` describes the rectangular region, focus and
//! enabled state a view draws with; a `Surface` is the ordered journal of
//! text writes produced by a frame. Rendering to a real terminal happens
//! outside this crate; the journal is the verified record of what a frame
//! paints and where.

use vstd::prelude::*;
use crate::geom::Margins;
use crate::geom::Vec2;

verus! {

/// A text write as a spec-level value: the text is a character sequence.
pub struct PaintSpec {
    /// Absolute position of the write on the grid.
    pub pos: Vec2,
    /// The characters written.
    pub text: Seq<char>,
    /// Whether the write was made with the focused style.
    pub focused: bool,
    /// Whether the write was made with the enabled style.
    pub enabled: bool,
}

/// One text write: `text` painted with its first character at `pos`.
#[derive(Clone, PartialEq, Eq, Debug)]
pub struct PaintRecord {
    /// Absolute position of the write on the grid.
    pub pos: Vec2,
    /// The text written.
    pub text: String,
    /// Whether the write was made with the focused style.
    pub focused: bool,
    /// Whether the write was made with the enabled style; disabled views
    /// are painted in a visually distinct inactive style.
    pub enabled: bool,
}

impl PaintRecord {
    /// The record as a spec-level value.
    pub open spec fn spec(self) -> PaintSpec {
        PaintSpec { pos: self.pos, text: self.text@, focused: self.focused, enabled: self.enabled }
    }
}

/// The ordered journal of text writes of a frame.
#[derive(Debug)]
pub struct Surface {
    /// The writes, oldest first. Later writes overpaint earlier ones.
    pub records: Vec<PaintRecord>,
}

impl Surface {
    /// The writes as spec-level values, oldest first.
    pub open spec fn painted(self) -> Seq<PaintSpec> {
        self.records@.map_values(|r: PaintRecord| r.spec())
    }

    /// An empty surface.
    pub fn new() -> (r: Surface)
        ensures
            r.painted() =~= Seq::<PaintSpec>::empty(),
    {
        Surface { records: Vec::new() }
    }

    /// Forgets every write, as the backend does when the screen is cleared.
    pub fn clear(&mut self)
        ensures
            final(self).painted() =~= Seq::<PaintSpec>::empty(),
    {
        self.records = Vec::new();
    }
}

/// The region, focus and enabled state a view draws with. Sub-printers for
/// inner views are derived by value; the surface is passed alongside.
#[derive(Clone, Copy, PartialEq, Eq, Structural, Debug)]
pub struct Printer {
    /// Top-left corner of the region on the grid.
    pub offset: Vec2,
    /// Size of the region.
    pub size: Vec2,
    /// Whether the drawn view currently has the focus.
    pub focused: bool,
    /// Whether the drawn view is enabled.
    pub enabled: bool,
}

impl Printer {
    /// A printer covering the whole grid of the given size, focused and
    /// enabled.
    pub fn new(size: Vec2) -> (r: Printer)
        ensures
            r == (Printer { offset: Vec2 { x: 0, y: 0 }, size, focused: true, enabled: true }),
    {
        Printer { offset: Vec2 { x: 0, y: 0 }, size, focused: true, enabled: true }
    }

    /// The write that `print` makes for `text` at `pos`, as a spec-level
    /// value.
    pub open spec fn record_for(self, pos: Vec2, text: Seq<char>) -> PaintSpec {
        PaintSpec {
            pos: self.offset.spec_add(pos),
            text,
            focused: self.focused,
            enabled: self.enabled,
        }
    }

    /// Writes `text` at `pos`, relative to this printer's region.
    pub fn print(&self, surface: &mut Surface, pos: Vec2, text: &str)
        ensures
            final(surface).painted() =~= old(surface).painted().push(
                self.record_for(pos, text@),
            ),
    {
        let record = PaintRecord {
            pos: self.offset.saturating_add(pos),
            text: text.to_owned(),
            focused: self.focused,
            enabled: self.enabled,
        };
        surface.records.push(record);
    }

    /// A printer for a view sitting `top_left` into this region.
    pub fn offset(self, top_left: Vec2) -> (r: Printer)
        ensures
            r == (Printer {
                offset: self.offset.spec_add(top_left),
                size: self.size.spec_sub(top_left),
                ..self
            }),
    {
        Printer {
            offset: self.offset.saturating_add(top_left),
            size: self.size.saturating_sub(top_left),
            ..self
        }
    }

    /// A printer whose region is shrunk by `bot_right` at the far corner.
    pub fn shrinked(self, bot_right: Vec2) -> (r: Printer)
        ensures
            r == (Printer { size: self.size.spec_sub(bot_right), ..self }),
    {
        Printer { size: self.size.saturating_sub(bot_right), ..self }
    }

    /// A printer that is focused only if both this one and `focused` are.
    pub fn focused(self, focused: bool) -> (r: Printer)
        ensures
            r == (Printer { focused: self.focused && focused, ..self }),
    {
        Printer { focused: self.focused && focused, ..self }
    }

    /// The printer a child inset by `margins` draws with, as a spec-level
    /// value: offset by the top-left corner, shrunk on both ends.
    pub open spec fn spec_region(self, margins: Margins) -> Printer {
        Printer {
            offset: self.offset.spec_add(Vec2 { x: margins.left, y: margins.top }),
            size: self.size.spec_sub(Vec2 { x: margins.left, y: margins.top }).spec_sub(
                Vec2 { x: margins.right, y: margins.bottom },
            ),
            ..self
        }
    }

    /// A printer that is enabled only if both this one and `enabled` are.
    pub fn enabled(self, enabled: bool) -> (r: Printer)
        ensures
            r == (Printer { enabled: self.enabled && enabled, ..self }),
    {
        Printer { enabled: self.enabled && enabled, ..self }
    }
}

} // verus!
