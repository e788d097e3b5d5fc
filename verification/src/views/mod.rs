//! The views of the toolkit: leaves, wrappers around a single inner view,
//! the closed dynamic view, and the structural views the controller is
//! built from (layer stack, screen set, callback shell, menu overlay).

pub mod any;
pub mod boxed;
pub mod button;
pub mod dummy;
pub mod enableable;
pub mod menubar;
pub mod named;
pub mod on_event;
pub mod resized;
pub mod stack;
pub mod screens;
pub mod scroll;
pub mod padded;
pub mod radio;
pub mod text;
pub mod track;

pub use any::AnyView;
pub use any::IntoBoxedView;
pub use any::ViewType;
pub use boxed::Boxed;
pub use button::Button;
pub use dummy::Dummy;
pub use enableable::Enableable;
pub use menubar::MenuItem;
pub use menubar::Menubar;
pub use menubar::MenubarState;
pub use named::Named;
pub use on_event::OnEventView;
pub use resized::Resized;
pub use resized::SizeConstraint;
pub use screens::ScreensView;
pub use scroll::Scroll;
pub use stack::Child;
pub use stack::LayerPosition;
pub use stack::StackView;
pub use padded::PaddedView;
pub use radio::RadioButton;
pub use radio::RadioButtonConfig;
pub use radio::RadioGroup;
pub use text::Text;
pub use track::TrackedView;
