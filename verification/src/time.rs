//! Points in time and spans of time, counted in whole nanoseconds.

use vstd::prelude::*;

verus! {

/// A non-negative span of time, counted in whole nanoseconds.
#[derive(Clone, Copy, Debug, PartialEq, Eq, Structural)]
pub struct Duration {
    nanos: u128,
}

impl View for Duration {
    type V = nat;

    closed spec fn view(&self) -> nat {
        self.nanos as nat
    }
}

impl Duration {
    /// The span of `nanos` nanoseconds.
    pub fn from_nanos(nanos: u128) -> (r: Duration)
        ensures
            r@ == nanos as nat,
    {
        Duration { nanos }
    }

    /// The whole number of nanoseconds this span covers.
    pub fn as_nanos(&self) -> (r: u128)
        ensures
            r as nat == self@,
    {
        self.nanos
    }
}

/// A point in time, usable only for computing differences: its view is the
/// number of nanoseconds from a fixed epoch to the point.
#[derive(Clone, Copy, Debug, PartialEq, Eq, Structural)]
pub struct Instant {
    nanos: u128,
}

impl View for Instant {
    type V = nat;

    closed spec fn view(&self) -> nat {
        self.nanos as nat
    }
}

impl Instant {
    /// The instant `nanos` nanoseconds after the epoch.
    pub fn from_nanos(nanos: u128) -> (r: Instant)
        ensures
            r@ == nanos as nat,
    {
        Instant { nanos }
    }

    /// The number of nanoseconds from the epoch to this instant.
    pub fn as_nanos(&self) -> (r: u128)
        ensures
            r as nat == self@,
    {
        self.nanos
    }
}

/// Relies on `std::time::SystemTime::now` and `SystemTime::duration_since`:
/// the returned instant holds the current clock reading, as nanoseconds since
/// the Unix epoch; a reading earlier than the epoch is reported as the epoch
/// itself. Nothing is promised of the value: the system clock may move either
/// way between two reads.
#[verifier::external_body]
pub(crate) fn clock_now() -> (r: Instant)
{
    let nanos = match std::time::SystemTime::now().duration_since(std::time::SystemTime::UNIX_EPOCH) {
        Ok(d) => d.as_nanos(),
        Err(_) => 0,
    };
    Instant { nanos }
}

} // verus!
