//! The decision core of a small command-line tool that exercises a key-value
//! and pub/sub backend in one of four modes.
//!
//! Nothing here performs I/O; all it asks of the machine is the time of
//! day. A driver owns the connections, the timers and standard output; it
//! feeds each thing that happens to a [`session::Session`] as an
//! [`session::Event`] and carries out the [`session::Effect`]s that come
//! back. [`dispatch::dispatch`] is where an invocation begins, and
//! [`laws`] holds what is proved of every session.

pub mod backend;
pub mod clock;
pub mod dispatch;
pub mod failure;
pub mod laws;
pub mod mode;
pub mod session;
pub mod text;
pub mod wording;
