//! State coordination for a hotkey-triggered quick-launch panel.
//!
//! The panel is a popup with a single text field that looks its content up
//! in a system search index while the user types. This crate holds the
//! decisions behind it: when the panel is shown and hidden, how the one
//! outstanding search is replaced by a newer one, and how background timers
//! are retired once the state they were started for has moved on.

pub mod blink;
pub mod channels;
pub mod coordinator;
pub mod epoch;
pub mod hotkey;
pub mod outside;
pub mod panel;
pub mod placement;
pub mod predicate;
pub mod search;
pub mod trace;
pub mod view;
