//! Decision logic of a virtual-desktop hotkey daemon.
pub mod events;
pub mod hotkeys;
pub mod desktop;
pub mod config;
pub mod app;
pub mod icon;
