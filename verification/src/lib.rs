//! Runtime core of a terminal installer: actions, key bindings, chord
//! resolution, screen layout and the lifecycle of the event loop.

pub mod action;
pub mod app;
pub mod bus;
pub mod components;
pub mod config;
pub mod dependencies;
pub mod event;
pub mod keys;
pub mod layout;
pub mod mode;
pub mod neovim_nightly;
pub mod package_manager;
pub mod screen;
pub mod state;
pub mod text;
pub mod tui;
