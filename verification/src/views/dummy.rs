//! A view that draws nothing.

use vstd::prelude::*;
use crate::printer::Printer;
use crate::printer::Surface;

verus! {

/// Dummy view: draws nothing and never needs a new layout.
#[derive(Clone, Copy, PartialEq, Eq, Structural, Debug)]
pub struct Dummy;

impl crate::view::View for Dummy {
    fn draw(&mut self, printer: &Printer, surface: &mut Surface) {
    }

    fn needs_relayout(&self) -> bool {
        false
    }
}

} // verus!
