//! Core of a terminal UI toolkit: a composable tree of components, wrapper
//! delegation, name- and path-based lookup, a layered screen stack, a menu
//! overlay state machine, and the cooperative event loop that drives them.
//!
//! Concrete leaf widgets, terminal backends and theme parsing are external
//! collaborators; they appear here only as small closed models.

pub mod backend;
pub mod channel;
pub mod cursive;
pub mod direction;
pub mod event;
pub mod geom;
pub mod printer;
pub mod theme;
pub mod traits;
pub mod view;
pub mod views;

pub use cursive::CbSink;
pub use cursive::Cursive;
pub use cursive::ScreenId;
pub use geom::Margins;
pub use geom::Vec2;
