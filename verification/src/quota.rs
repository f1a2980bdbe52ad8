//! Request quotas: how fast a provider may be asked.
//!
//! A quota is a token bucket. It holds up to `max_burst` tokens, a request
//! takes one, and one token comes back every `replenish_nanos` nanoseconds.

use vstd::prelude::*;

verus! {

/// The nanoseconds of one second.
pub const NANOS_PER_SECOND: u64 = 1_000_000_000;

/// The nanoseconds of one minute.
pub const NANOS_PER_MINUTE: u64 = 60_000_000_000;

/// A quota of requests.
#[derive(Debug, Clone, Copy, PartialEq, Eq, Structural)]
pub struct Quota {
    /// How many requests may be made at once after a pause.
    pub max_burst: u32,
    /// How long it takes until one more request may be made, in
    /// nanoseconds.
    pub replenish_nanos: u64,
}

impl Quota {
    /// The quota holds at least one token.
    pub open spec fn well_formed(self) -> bool {
        self.max_burst > 0
    }

    /// The time in which an empty bucket fills, in nanoseconds.
    pub open spec fn window_nanos(self) -> int {
        self.max_burst * self.replenish_nanos
    }

    /// `count` requests a second, all of which may be made at once. There
    /// is no quota of no requests.
    pub fn per_second(count: u32) -> (r: Option<Quota>)
        ensures
            count == 0 ==> r is None,
            count > 0 ==> r == Some(
                Quota { max_burst: count, replenish_nanos: NANOS_PER_SECOND / (count as u64) },
            ),
    {
        if count == 0 {
            None
        } else {
            Some(Quota { max_burst: count, replenish_nanos: NANOS_PER_SECOND / (count as u64) })
        }
    }

    /// `count` requests a minute, all of which may be made at once. There
    /// is no quota of no requests.
    pub fn per_minute(count: u32) -> (r: Option<Quota>)
        ensures
            count == 0 ==> r is None,
            count > 0 ==> r == Some(
                Quota { max_burst: count, replenish_nanos: NANOS_PER_MINUTE / (count as u64) },
            ),
    {
        if count == 0 {
            None
        } else {
            Some(Quota { max_burst: count, replenish_nanos: NANOS_PER_MINUTE / (count as u64) })
        }
    }

    /// The same rate with another burst size. A burst of none is refused.
    pub fn allow_burst(self, max_burst: u32) -> (r: Option<Quota>)
        ensures
            max_burst == 0 ==> r is None,
            max_burst > 0 ==> r == Some(
                Quota { max_burst, replenish_nanos: self.replenish_nanos },
            ),
    {
        if max_burst == 0 {
            None
        } else {
            Some(Quota { max_burst, replenish_nanos: self.replenish_nanos })
        }
    }
}

} // verus!
