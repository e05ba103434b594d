//! Core logic of a small form-logging client and its backend.
//!
//! The client shows a large clock (refreshed by a background poll of the
//! backend), lets the user submit a name/age form, and surfaces persistence
//! errors transiently.  This crate holds the verified core: the shared
//! clock/title/error state and its atomic operations, the decision logic of
//! the time poller and the submission task, and the backend handlers'
//! coercion, time formatting and response construction.  Transport, rendering
//! and the database connection live outside and talk to this crate through
//! plain values.

pub mod client;
pub mod record;
pub mod server;
pub mod state;
pub mod wire;
