//! The single-screen front end: one menu, a fixed key map, and the panes
//! that show them.

pub mod app;
pub mod key_names;
pub mod keymaps;
pub mod menu;
pub mod neviraller;
pub mod ui;
