//! Lifecycle supervision for a single bundled sidecar process.
//!
//! A desktop shell launches one helper executable at startup. This crate holds
//! the decisions around that helper; the host performs the operating-system
//! work and reports back what happened.
//!
//! What the supervisor guarantees, for every order of events:
//!
//! - A process is asked for at most once. Further start requests change
//!   nothing, and there is no restart after an exit or a failure.
//! - At most one process is the supervisor's child. Any other process that
//!   the host reports is ordered terminated at once.
//! - A failure to create the process is handed back as a value. The host
//!   decides whether the application can go on without the sidecar.
//! - When the application shuts down, the child is terminated.
//! - The output channel hands out the bytes that it took in, all of them and
//!   in order, until the child exits or the channel is closed.

pub mod greeting;
pub mod process;
pub mod output;
pub mod supervisor;
pub mod history;
