//! Input tracking and user preferences for a windowed, event-driven client.
//!
//! - [`keys`]: the identities of keys and buttons and their two states.
//! - [`event`]: the window events that come in and the input events that are
//!   queued.
//! - [`input`]: the tracker, which turns window events into a queryable
//!   press/release table and a FIFO queue of input events.
//! - [`trace`]: what holds of the tracker over several events in a row.
//! - [`settings`]: the preference record, its default, and what a load yields.

pub mod event;
pub mod input;
pub mod keys;
pub mod settings;
pub mod trace;
