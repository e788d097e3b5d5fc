//! Helper traits with blanket implementations over every view.

pub mod identifiable;

pub use identifiable::Identifiable;
pub use crate::view::boxable::Boxable;
pub use crate::view::scrollable::Scrollable;
