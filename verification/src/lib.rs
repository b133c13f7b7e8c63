//! Core of a keyboard-driven terminal client for a paginated remote feed.
//!
//! The crate holds the session state machine of such a client: the mode/tab
//! automaton that decides what a key press means, the pagination token
//! history that lets each list page forward and backward through remote
//! result sets, and the planning/apply logic of the worker that carries out
//! the queued commands. Everything here is plain data and pure transitions;
//! the terminal, the network client and the task plumbing live outside and
//! talk to this crate through plain values.

pub mod actions;
pub mod bsky;
pub mod config;
pub mod history;
pub mod io;
pub mod keys;
pub mod state;
pub mod text;
pub mod utils;
pub mod worker;
