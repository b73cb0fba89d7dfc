//! The single-attempt writer's decision logic.
//!
//! One readiness notification earns exactly one write attempt. The attempt
//! first re-derives the stream's semantic readiness from the remapped
//! flags; only an output-ready stream is written to, and then with no more
//! samples than the device has room for. A stream that is not output-ready
//! yields `NotReady`, which is a signal to wait again, never an error.

use vstd::prelude::*;
use crate::poll::SemanticFlags;

verus! {

/// The outcome of a single write attempt.
#[derive(Clone, Copy, Debug, PartialEq, Eq, Structural)]
pub enum WriteAttemptResult {
    /// This many samples, taken from the front of the candidates, were
    /// accepted by the device. Zero is legal and means zero progress, not
    /// failure.
    Consumed(usize),
    /// The stream is not output-ready; wait again rather than busy-spin.
    NotReady,
    /// The driver rejected the write; unrecoverable in this design.
    Fatal,
}

/// How many samples one attempt pushes: all the device has room for, capped
/// by how many candidates there are.
pub open spec fn write_quota(avail: int, pending: int) -> int {
    if avail <= pending {
        avail
    } else {
        pending
    }
}

/// Decides what a single attempt may do, from the remapped readiness flags,
/// the device's available-frame count, and the number of candidate samples.
/// Returns `Some(n)` with the exact count to write when the stream is
/// output-ready, and `None` when it is not and no write must be issued.
pub fn attempt_plan(flags: SemanticFlags, avail: usize, pending: usize) -> (r: Option<usize>)
    ensures
        match r {
            Some(n) => flags.output && n == write_quota(avail as int, pending as int),
            None => !flags.output,
        },
{
    if flags.output {
        if avail <= pending {
            Some(avail)
        } else {
            Some(pending)
        }
    } else {
        None
    }
}

/// Folds the device's answer to a planned write back into the attempt's
/// outcome: no plan means the stream was not ready, a plan that the driver
/// accepted consumed exactly the planned count, and a rejected write is
/// fatal.
pub fn attempt_outcome(plan: Option<usize>, write_ok: bool) -> (r: WriteAttemptResult)
    ensures
        match plan {
            Some(n) => r == (if write_ok {
                WriteAttemptResult::Consumed(n)
            } else {
                WriteAttemptResult::Fatal
            }),
            None => r == WriteAttemptResult::NotReady,
        },
{
    match plan {
        Some(n) => {
            if write_ok {
                WriteAttemptResult::Consumed(n)
            } else {
                WriteAttemptResult::Fatal
            }
        },
        None => WriteAttemptResult::NotReady,
    }
}

} // verus!
