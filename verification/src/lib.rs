//! Verified core of a poll-driven audio playback pipeline.
//!
//! The crate models the readiness-bridging write path of a playback stream:
//! translating a descriptor's requested poll-event bits into a wait
//! direction, remapping the driver's misleading event directions into
//! semantic readiness flags, deciding how much a single non-blocking write
//! attempt may push, and draining a backpressure-aware buffered queue of
//! samples into such write attempts.
//!
//! All device and scheduler interaction (opening the stream, waiting on the
//! descriptor, issuing the actual writes) happens outside this crate; the
//! functions here take the device's reported values as plain arguments and
//! are verified for every value the device could report.

pub mod buffer;
pub mod device;
pub mod poll;
pub mod writer;
