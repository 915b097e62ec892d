//! Named, inheritable style definitions for the widgets of a user interface,
//! and the engine that resolves a batch of them into concrete styles.
//!
//! A theme is loaded from raw definitions in one go. Colors come first, then
//! the leaf styles that refer to colors and borders by name, then the
//! composite styles, whose states may be given inline, inherited by name from
//! another entry of the same category, or left unset and filled in from a
//! sibling state. Composite categories are resolved by a fixed number of
//! sweeps, so that entries inheriting from entries listed after them, and
//! chains of inheritance up to that length, resolve without any ordering of
//! the input; cycles simply stay unresolved. Resolved styles refer to colors
//! and borders by their position in the registry, so entries that name the
//! same color share it.

pub mod border;
pub mod button;
pub mod checkbox;
pub mod color;
pub mod container;
pub mod laws;
pub mod panegrid;
pub mod picklist;
pub mod progressbar;
pub mod radio;
pub mod resolve;
pub mod scrollable;
pub mod sweep;
pub mod table;
pub mod textinput;
pub mod theme;
pub mod tooltip;

pub use border::Border;
pub use button::Button;
pub use checkbox::Checkbox;
pub use color::Color;
pub use container::Container;
pub use panegrid::PaneGrid;
pub use picklist::Picklist;
pub use progressbar::ProgressBar;
pub use radio::Radio;
pub use scrollable::Scrollable;
pub use textinput::TextInput;
pub use theme::Theme;
pub use tooltip::Tooltip;
