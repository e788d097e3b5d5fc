//! A single-line text leaf: the simplest named-lookup and mutation target.

use vstd::prelude::*;
use vstd::string::*;
use crate::geom::Vec2;
use crate::printer::Printer;
use crate::printer::Surface;

verus! {

/// A leaf view showing one line of text.
#[derive(Clone, PartialEq, Eq, Debug)]
pub struct Text {
    /// The line shown.
    pub content: String,
}

impl Text {
    /// A text view over the given content.
    pub fn new(content: &str) -> (r: Text)
        ensures
            r.content@ == content@,
    {
        Text { content: content.to_owned() }
    }

    /// Replaces the content.
    pub fn set_content(&mut self, content: &str)
        ensures
            final(self).content@ == content@,
    {
        self.content = content.to_owned();
    }

    /// The current content.
    pub fn get_content(&self) -> (r: &str)
        ensures
            r@ == self.content@,
    {
        self.content.as_str()
    }
}

impl crate::view::View for Text {
    fn draw(&mut self, printer: &Printer, surface: &mut Surface) {
        printer.print(surface, Vec2::new(0, 0), self.content.as_str());
    }

    fn required_size(&mut self, constraint: Vec2) -> Vec2 {
        Vec2::new(self.content.as_str().unicode_len(), 1)
    }

    fn needs_relayout(&self) -> bool {
        false
    }
}

} // verus!
