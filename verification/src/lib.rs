//! The logic of a small autoclicker: the click engine and its run limits, the global
//! hotkey listener, presets, the input sequences sent to the desktop, and the texts
//! shown to the user.
pub mod clicker;
pub mod config;
pub mod durations;
pub mod gtk_form;
pub mod hotkey;
pub mod ico;
pub mod icon;
pub mod input;
pub mod keys;
pub mod labels;
pub mod model;
pub mod presets;
pub mod text;
pub mod tray;
pub mod windows_form;
