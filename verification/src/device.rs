//! Model of an opened playback device handle.
//!
//! The real handle owns the native stream; what the verified logic reads of
//! it are plain values fixed at initialization: the pollable descriptor, the
//! requested-event mask, and the negotiated sample rate. A well-formed
//! handle has a positive rate and a mask that names at least one wait
//! direction, and neither changes after construction.

use vstd::prelude::*;
use crate::poll::Interest;
use crate::poll::interest_from_events;
use crate::poll::spec_interest;

verus! {

/// The plain-value view of an opened playback device: its pollable
/// descriptor, the event mask the driver requested for it, and the
/// negotiated sample rate. The fields are fixed at construction.
#[derive(Clone, Copy, Debug)]
pub struct DeviceConfig {
    fd: i32,
    rate: u32,
    events: u16,
}

impl DeviceConfig {
    /// The pollable descriptor captured at initialization.
    pub closed spec fn spec_fd(self) -> i32 {
        self.fd
    }

    /// The negotiated sample rate.
    pub closed spec fn spec_rate(self) -> u32 {
        self.rate
    }

    /// The requested-event mask captured at initialization.
    pub closed spec fn spec_events(self) -> u16 {
        self.events
    }

    /// A handle is well formed when its rate is positive and its mask
    /// requests at least one wait direction.
    pub open spec fn wf(self) -> bool {
        &&& self.spec_rate() > 0
        &&& spec_interest(self.spec_events()) is Some
    }

    /// Builds the handle model from the values the device negotiated.
    /// Returns `None` exactly when the rate is zero or the mask requests no
    /// direction, the two ways the driver can break its contract.
    pub fn new(fd: i32, rate: u32, events: u16) -> (r: Option<DeviceConfig>)
        ensures
            match r {
                Some(c) => {
                    &&& c.spec_fd() == fd
                    &&& c.spec_rate() == rate
                    &&& c.spec_events() == events
                    &&& c.wf()
                },
                None => rate == 0 || spec_interest(events) is None,
            },
    {
        if rate == 0 {
            return None;
        }
        match interest_from_events(events) {
            Some(_) => Some(DeviceConfig { fd, rate, events }),
            None => None,
        }
    }

    /// The pollable descriptor.
    pub fn fd(&self) -> (r: i32)
        ensures
            r == self.spec_fd(),
    {
        self.fd
    }

    /// The negotiated sample rate, read-only for the handle's lifetime.
    pub fn sample_rate(&self) -> (r: u32)
        ensures
            r == self.spec_rate(),
    {
        self.rate
    }

    /// The requested-event mask, unchanged since initialization.
    pub fn requested_events(&self) -> (r: u16)
        ensures
            r == self.spec_events(),
    {
        self.events
    }

    /// The wait direction for this handle, computed from the mask captured
    /// at initialization; fixed for the handle's lifetime.
    pub fn interest(&self) -> (r: Interest)
        requires
            self.wf(),
        ensures
            Some(r) == spec_interest(self.spec_events()),
    {
        match interest_from_events(self.events) {
            Some(i) => i,
            None => {
                // Unreachable: well-formedness guarantees a direction.
                proof {
                    assert(false);
                }
                Interest::Error
            },
        }
    }
}

} // verus!
