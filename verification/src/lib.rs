//! Supervision of a single long-running child process: the typed event
//! sequence its output is turned into, the decision logic of the
//! termination supervisor, the migration-log middleware, and the small
//! string computations around launching and installing the sidecar
//! binary.  All decision logic is verified; the asynchronous plumbing
//! that drives it lives outside the library.

pub mod event;
pub mod middleware;
pub mod config;
pub mod control;
pub mod install;
pub mod paths;
pub mod shell;
pub mod reader;
pub mod serve;
pub mod supervisor;
pub mod sync;

pub use event::CommandEvent;
pub use event::StreamKind;
pub use event::TerminatedPayload;
