//! Verified core of a host-side flash programmer and run supervisor for
//! microcontroller targets.
//!
//! The crate models the debug transport as a recording `Probe`, drives the
//! CMSIS-style flash algorithm through a typed flasher state machine, decides
//! the pacing and termination of the post-flash supervision loop, and renders
//! stack traces as plain text lines.

pub mod algorithm;
pub mod flasher;
pub mod stacktrace;
pub mod supervision;
pub mod transport;
