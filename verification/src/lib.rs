//! Pseudo-terminal sessions behind move-only handles.
//!
//! A session is opened as a controller and a follower, a child process is
//! attached to the follower, and bytes travel through reader and writer
//! handles derived from the controller. Every operation reports its result as
//! a value: a handle, a count, or a [`status::Failure`] that carries the
//! failure's kind and a diagnostic text fit for a NUL-terminated string.

pub mod backend;
pub mod command;
pub mod exit;
pub mod laws;
pub mod model;
pub mod session;
pub mod status;
