//! A character-grid user interface: a tree of nested rectangles laid out inside
//! one another, and a layered grid of coloured glyphs the interface is drawn into.
pub mod bounds;
pub mod buffer;
pub mod character;
pub mod command;
pub mod component;
pub mod drawer;
pub mod position;
pub mod state;
pub mod style;
pub mod surface;
pub mod text;
pub mod tree;

pub use bounds::{AsciiBounds, AsciiGlobalBounds, HorizontalAlignment, Padding, Value, VerticalAlignment};
pub use buffer::AsciiBuffer;
pub use character::{AsciiCharacter, Character, Color};
pub use drawer::{AsciiBorderDrawer, AsciiBoxDrawer, AsciiTextDrawer};
pub use position::AsciiPosition;
pub use style::{BorderType, TextOverflow};
pub use surface::AsciiSurface;
pub use text::break_string_into_lines;
pub use tree::{AsciiNode, LayoutTree};
pub use command::AsciiUiCommands;
pub use component::{
    extract_ascii_ui, update_components, AsciiButton, AsciiComponentButtonClicked,
    AsciiComponentHoverEnteredEvent, AsciiComponentHoverExitedEvent, AsciiCursor, AsciiMarkDirtyEvent,
    ButtonEvents,
};
pub use state::{AsciiUi, Variable};
