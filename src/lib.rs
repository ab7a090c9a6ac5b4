//! A process supervisor: the per-process lifecycle state machine with its
//! bounded restart policy, and the registry that records spawned processes in
//! the order their spawn commands arrive.

pub mod process;
pub mod registry;

pub use process::{Action, Event, Lifecycle, Process, Runnable, State};
pub use registry::{Command, Directive, Registry};
