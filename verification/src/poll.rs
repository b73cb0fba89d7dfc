//! Poll-event bits, wait directions, and the readiness remap.
//!
//! A playback driver hands out a pollable descriptor together with the event
//! bits it wants waited on. The driver may request a readable wait even
//! though it means "you may write": it is waiting on an internal status
//! pipe, not on the hardware buffer itself. The functions here pick the wait
//! direction from the requested bits and model the remap of raw reported
//! events back into semantic readiness flags.

use vstd::prelude::*;

verus! {

/// Requested or reported event bit: the descriptor is readable.
pub const POLL_IN: u16 = 0x1;

/// Requested or reported event bit: the descriptor is writable.
pub const POLL_OUT: u16 = 0x4;

/// Requested or reported event bit: the descriptor is in an error state.
pub const POLL_ERR: u16 = 0x8;

/// The single direction a readiness wait is registered for.
#[derive(Clone, Copy, Debug, PartialEq, Eq, Structural)]
pub enum Interest {
    Readable,
    Writable,
    Error,
}

/// Semantic readiness of the playback stream, after remapping raw events.
#[derive(Clone, Copy, Debug, PartialEq, Eq, Structural)]
pub struct SemanticFlags {
    /// The stream has data to hand back.
    pub input: bool,
    /// The stream accepts output: a write attempt may proceed.
    pub output: bool,
    /// The stream reports an error condition.
    pub error: bool,
}

/// The wait direction chosen for a requested-event mask: readable wins over
/// writable, which wins over error-only; a mask with none of the three bits
/// names no direction at all.
pub open spec fn spec_interest(events: u16) -> Option<Interest> {
    if events & POLL_IN != 0 {
        Some(Interest::Readable)
    } else if events & POLL_OUT != 0 {
        Some(Interest::Writable)
    } else if events & POLL_ERR != 0 {
        Some(Interest::Error)
    } else {
        None
    }
}

/// Picks the wait direction from the requested-event mask captured when the
/// device was opened. Returns `None` when the mask requests none of the
/// three directions, which a caller must treat as a contract violation by
/// the driver.
pub fn interest_from_events(events: u16) -> (r: Option<Interest>)
    ensures
        r == spec_interest(events),
{
    if events & POLL_IN != 0 {
        Some(Interest::Readable)
    } else if events & POLL_OUT != 0 {
        Some(Interest::Writable)
    } else if events & POLL_ERR != 0 {
        Some(Interest::Error)
    } else {
        None
    }
}

/// The raw event bit that a wait in the given direction reports on wakeup.
pub open spec fn spec_synth_revents(interest: Interest) -> u16 {
    match interest {
        Interest::Readable => POLL_IN,
        Interest::Writable => POLL_OUT,
        Interest::Error => POLL_ERR,
    }
}

/// Reconstructs the raw reported-event bits for a wakeup of a wait in the
/// given direction, as handed to the remap.
pub fn synth_revents(interest: Interest) -> (r: u16)
    ensures
        r == spec_synth_revents(interest),
{
    match interest {
        Interest::Readable => POLL_IN,
        Interest::Writable => POLL_OUT,
        Interest::Error => POLL_ERR,
    }
}

/// The readiness remap for a playback stream. When the driver requested a
/// readable wait it repurposed the readable bit as a write notification, so
/// a raw readable report counts as output readiness and no input readiness
/// is ever reported; otherwise the bits pass through unmodified. The error
/// bit always passes through.
pub open spec fn spec_remap(requested: u16, raw: u16) -> SemanticFlags {
    SemanticFlags {
        input: requested & POLL_IN == 0 && raw & POLL_IN != 0,
        output: if requested & POLL_IN != 0 {
            raw & POLL_IN != 0 || raw & POLL_OUT != 0
        } else {
            raw & POLL_OUT != 0
        },
        error: raw & POLL_ERR != 0,
    }
}

/// Remaps raw reported events into semantic readiness flags, using the
/// originally requested event mask to undo the driver's repurposing of the
/// readable bit as a write notification.
pub fn remap_readiness(requested: u16, raw: u16) -> (r: SemanticFlags)
    ensures
        r == spec_remap(requested, raw),
{
    let output: bool = if requested & POLL_IN != 0 {
        raw & POLL_IN != 0 || raw & POLL_OUT != 0
    } else {
        raw & POLL_OUT != 0
    };
    SemanticFlags {
        input: requested & POLL_IN == 0 && raw & POLL_IN != 0,
        output,
        error: raw & POLL_ERR != 0,
    }
}

/// Law: the readiness remap is deterministic — remapping the same raw
/// reported events with the same requested mask always yields the same
/// semantic flags, so remapping twice changes nothing.
pub proof fn lemma_remap_deterministic(requested1: u16, raw1: u16, requested2: u16, raw2: u16)
    requires
        requested1 == requested2,
        raw1 == raw2,
    ensures
        spec_remap(requested1, raw1) == spec_remap(requested2, raw2),
{
}

} // verus!
