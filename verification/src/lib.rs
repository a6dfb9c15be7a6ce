//! Background-presence controller for a desktop application.
//!
//! The library models a system-tray icon with a small attached menu and the
//! visibility lifecycle of the application's single main window, so that
//! closing the window hides the application instead of terminating it. All
//! decisions (which platform action to take on a window, menu or tray event,
//! and how the tracked state changes) are made here and verified; the platform
//! layer merely carries them out.

pub mod laws;
pub mod lifecycle;
pub mod menu;
pub mod startup;
pub mod text;
