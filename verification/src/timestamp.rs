//! Time and height primitives used for packet timeout comparisons.

use vstd::prelude::*;

verus! {

/// Number of nanoseconds in one second.
pub const NANOS_PER_SECOND: u64 = 1_000_000_000;

/// A monotonic wall-clock tag, in nanoseconds since the Unix epoch.
///
/// A value of zero stands for "no timestamp" when used as a packet timeout.
#[derive(Clone, Copy, Debug, PartialEq, Eq, Structural)]
pub struct Timestamp {
    pub nanoseconds: u64,
}

impl Timestamp {
    /// Builds a timestamp from a nanosecond count.
    pub fn from_nanoseconds(nanoseconds: u64) -> (r: Timestamp)
        ensures
            r.nanoseconds == nanoseconds,
    {
        Timestamp { nanoseconds }
    }

    /// Returns the nanosecond count.
    pub fn nanoseconds(&self) -> (r: u64)
        ensures
            r == self.nanoseconds,
    {
        self.nanoseconds
    }
}

/// A block height on a counterparty chain, split into a revision number
/// (incremented on chain upgrades) and a height within that revision.
#[derive(Clone, Copy, Debug, PartialEq, Eq, Structural)]
pub struct Height {
    pub revision_number: u64,
    pub revision_height: u64,
}

/// Lexicographic order on (revision_number, revision_height).
pub open spec fn height_lt(a: Height, b: Height) -> bool {
    a.revision_number < b.revision_number || (a.revision_number == b.revision_number
        && a.revision_height < b.revision_height)
}

impl Height {
    /// Builds a height from its two components.
    pub fn new(revision_number: u64, revision_height: u64) -> (r: Height)
        ensures
            r.revision_number == revision_number,
            r.revision_height == revision_height,
    {
        Height { revision_number, revision_height }
    }

    /// Strict lexicographic comparison: `self` is earlier than `other`.
    pub fn lt(&self, other: &Height) -> (r: bool)
        ensures
            r == height_lt(*self, *other),
    {
        self.revision_number < other.revision_number || (self.revision_number
            == other.revision_number && self.revision_height < other.revision_height)
    }
}

/// A packet's timeout height on the destination chain: either no height
/// limit at all, or a concrete height at which the packet expires.
#[derive(Clone, Copy, Debug, PartialEq, Eq, Structural)]
pub enum TimeoutHeight {
    Never,
    At(Height),
}

/// A timeout height has expired relative to the latest height `h` iff it is
/// a concrete bound that is not strictly in the future of `h`.
pub open spec fn timeout_height_expired(t: TimeoutHeight, h: Height) -> bool {
    match t {
        TimeoutHeight::Never => false,
        TimeoutHeight::At(bound) => !height_lt(h, bound),
    }
}

impl TimeoutHeight {
    /// Decides expiry against the latest known counterparty height.
    pub fn has_expired(&self, latest: &Height) -> (r: bool)
        ensures
            r == timeout_height_expired(*self, *latest),
    {
        match self {
            TimeoutHeight::Never => false,
            TimeoutHeight::At(bound) => !latest.lt(bound),
        }
    }
}

/// A timeout timestamp of zero means "no timestamp limit"; otherwise the
/// packet expires once the counterparty clock is at or past the bound.
pub open spec fn timeout_timestamp_expired(t: Timestamp, now: Timestamp) -> bool {
    t.nanoseconds != 0 && t.nanoseconds <= now.nanoseconds
}

/// Decides timestamp expiry against the latest known counterparty time.
pub fn timestamp_has_expired(t: &Timestamp, now: &Timestamp) -> (r: bool)
    ensures
        r == timeout_timestamp_expired(*t, *now),
{
    t.nanoseconds != 0 && t.nanoseconds <= now.nanoseconds
}

} // verus!
