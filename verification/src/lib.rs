//! Decision logic of a Wayland windowing backend: popup trees, keyboard
//! focus, drag-and-drop sessions, the per-window state machine, the state
//! kept for compositor extensions, and toplevel icons.
//!
//! Everything here works on plain values; the protocol objects themselves
//! are driven by the caller, which hands in what it observed and carries
//! out what the functions here decide.

pub mod ids;
pub mod popup;
pub mod popup_tree;
pub mod keyboard;
pub mod dnd;
pub mod window;
pub mod embed;
pub mod extensions;
pub mod toplevel_icon;
