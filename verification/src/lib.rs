//! An embeddable, keyboard-driven selection menu for text terminals.
//!
//! A caller builds a list of [`MenuOption`] entries, each carrying a label,
//! an optional hint, and a deferred zero-argument action, wraps them in a
//! [`Menu`] (optionally titled), and drives the session with key events.
//! The navigation state machine, the wrap-around selection rules, and the
//! rendered frame content are specified and verified here; the terminal
//! itself (raw key reads, cursor control, screen writes) is left to the
//! surrounding program.

pub mod menu;
pub mod nav;
pub mod render;
pub mod style;

pub use menu::Menu;
pub use menu::MenuOption;
pub use nav::KeyEvent;
pub use nav::NavState;
pub use render::Frame;
pub use render::FrameRow;
