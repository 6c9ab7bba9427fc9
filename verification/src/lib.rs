//! Decision logic of a desktop overlay: the overlay's item types and sizes,
//! the window and tray plans of each command, and the macOS Cmd+B hotkey.
//!
//! The application asks a command for its plan, a sequence of
//! [`controller::OverlayAction`]s, and performs it; [`window_model`] gives
//! each action its meaning on the overlay window and proves what the
//! commands achieve.

pub mod controller;
pub mod overlay;
pub mod shortcut;
pub mod text;
pub mod tray;
pub mod window_model;
