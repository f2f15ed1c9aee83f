//! Control core of a terminal manager for named encryption profiles.
//!
//! The crate holds the profile store, the modal popup state machine, the
//! pane registry with its focus ring, and the key dispatcher. Everything
//! here is a function from plain values to plain values: the terminal, the
//! file system and the transform process are driven by the embedding
//! program, which feeds keys in and carries effects out.

pub mod action;
pub mod app_state;
pub mod config;
pub mod encryption;
pub mod environment;
pub mod errors;
pub mod home;
pub mod layout;
pub mod panes;
pub mod popup;
pub mod state;
pub mod text;
pub mod tui;
