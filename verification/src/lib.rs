//! A keyboard-driven two-list task tracker: items move between a pending
//! list and a done list, can be created, edited in place, deleted, and
//! navigated with a selection cursor per list.  The state machine, the
//! cursor invariants, and the line-oriented persistence format are verified;
//! terminal rendering and raw input acquisition live outside this crate.

pub mod model;
pub mod persist;
pub mod state;
