//! A terminal podcast browser: feeds, episodes and background downloads.
//!
//! The crate holds the application core: the selectable lists that back
//! each view, the view state machine, the message protocol between the
//! event loop and its background tasks, and the orchestration rules for
//! batch refreshes and downloads.

pub mod download;
pub mod feed;
pub mod keymap;
pub mod list;
pub mod msg;
pub mod state;
pub mod strings;
