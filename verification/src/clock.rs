//! The cluster's clock. A reading can only come from the clock itself: its
//! fields are private to this module, which builds one only out of what
//! `Clock::get` returned.
use vstd::prelude::*;

use anchor_lang::prelude::{Clock, SolanaSysvar};

verus! {

/// A reading of the cluster's clock.
#[derive(Clone, Copy, Debug, PartialEq, Eq, Structural)]
pub struct ClockReading {
    unix_timestamp: i64,
    slot: u64,
}

impl ClockReading {
    /// The reading's Unix timestamp, in seconds.
    pub closed spec fn timestamp_of(self) -> i64 {
        self.unix_timestamp
    }

    /// The reading's slot.
    pub closed spec fn slot_of(self) -> u64 {
        self.slot
    }

    pub fn unix_timestamp(&self) -> (t: i64)
        ensures
            t == self.timestamp_of(),
    {
        self.unix_timestamp
    }

    pub fn slot(&self) -> (s: u64)
        ensures
            s == self.slot_of(),
    {
        self.slot
    }
}

/// Reads the cluster's clock through `anchor_lang::prelude::Clock::get` (the
/// `SolanaSysvar::get` system call). What the clock reads depends on the
/// cluster and the moment, so nothing is stated of it; an error is the
/// runtime's error code, as `solana_program` converts it.
#[verifier::external_body]
pub(crate) fn read_clock() -> (r: Result<ClockReading, u64>) {
    Clock::get().map(|c| ClockReading { unix_timestamp: c.unix_timestamp, slot: c.slot }).map_err(
        u64::from,
    )
}

} // verus!
