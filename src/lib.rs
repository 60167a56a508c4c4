//! Configuration resolution, frontend bridging and lifecycle coordination for
//! the Intiface device-control server's command-line front end.
//!
//! - [`options`] turns command-line flags into a validated [`options::OptionModel`].
//! - [`frontend`] frames status messages for a parent process and queues them
//!   in order until the bridge is cancelled and drained.
//! - [`lifecycle`] decides, event by event, how a run of the engine races
//!   against an operator interrupt.
pub mod frontend;
pub mod lifecycle;
pub mod options;
