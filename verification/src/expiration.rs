//! Abstract time: durations and absolute expiry points, measured either in
//! block-height units or in wall-clock-time units. Points of different units
//! are incomparable.

use vstd::prelude::*;

verus! {

/// The block context the host hands to every operation: the current block
/// height and the current wall-clock time (seconds).
#[derive(Clone, Copy, Debug, PartialEq, Eq, Structural)]
pub struct BlockInfo {
    pub height: u64,
    pub time: u64,
}

/// A span of time, in block-height units or wall-clock units.
#[derive(Clone, Copy, Debug, PartialEq, Eq, Structural)]
pub enum Duration {
    Height(u64),
    Time(u64),
}

/// An absolute point after which voting closes, in the same two units.
#[derive(Clone, Copy, Debug, PartialEq, Eq, Structural)]
pub enum Expiration {
    AtHeight(u64),
    AtTime(u64),
}

impl Duration {
    /// The absolute expiry point reached `self` after `block`.
    pub open spec fn spec_after(self, block: BlockInfo) -> Expiration {
        match self {
            Duration::Height(h) => Expiration::AtHeight((block.height + h) as u64),
            Duration::Time(t) => Expiration::AtTime((block.time + t) as u64),
        }
    }

    /// The expiry point computed from `block` stays within the machine's range.
    pub open spec fn fits_after(self, block: BlockInfo) -> bool {
        match self {
            Duration::Height(h) => block.height + h <= u64::MAX,
            Duration::Time(t) => block.time + t <= u64::MAX,
        }
    }

    /// The absolute expiry point that lies `self` after the given block.
    pub fn after(&self, block: &BlockInfo) -> (e: Expiration)
        requires
            self.fits_after(*block),
        ensures
            e == self.spec_after(*block),
    {
        match self {
            Duration::Height(h) => Expiration::AtHeight(block.height + *h),
            Duration::Time(t) => Expiration::AtTime(block.time + *t),
        }
    }
}

impl Expiration {
    /// Whether the point has been reached at the given block.
    pub open spec fn spec_is_expired(self, block: BlockInfo) -> bool {
        match self {
            Expiration::AtHeight(h) => block.height >= h,
            Expiration::AtTime(t) => block.time >= t,
        }
    }

    /// Two expiry points are comparable only when measured in the same unit.
    pub open spec fn comparable(self, other: Expiration) -> bool {
        match (self, other) {
            (Expiration::AtHeight(_), Expiration::AtHeight(_)) => true,
            (Expiration::AtTime(_), Expiration::AtTime(_)) => true,
            _ => false,
        }
    }

    /// `self` lies strictly after `other`; meaningful only when comparable.
    pub open spec fn spec_is_after(self, other: Expiration) -> bool {
        match (self, other) {
            (Expiration::AtHeight(a), Expiration::AtHeight(b)) => a > b,
            (Expiration::AtTime(a), Expiration::AtTime(b)) => a > b,
            _ => false,
        }
    }

    /// Whether the point has been reached at the given block.
    pub fn is_expired(&self, block: &BlockInfo) -> (r: bool)
        ensures
            r == self.spec_is_expired(*block),
    {
        match self {
            Expiration::AtHeight(h) => block.height >= *h,
            Expiration::AtTime(t) => block.time >= *t,
        }
    }

    /// Whether `self` and `other` are measured in the same unit.
    pub fn is_comparable(&self, other: &Expiration) -> (r: bool)
        ensures
            r == self.comparable(*other),
    {
        match (self, other) {
            (Expiration::AtHeight(_), Expiration::AtHeight(_)) => true,
            (Expiration::AtTime(_), Expiration::AtTime(_)) => true,
            _ => false,
        }
    }

    /// Whether `self` lies strictly after `other` (same unit).
    pub fn is_after(&self, other: &Expiration) -> (r: bool)
        ensures
            r == self.spec_is_after(*other),
    {
        match (self, other) {
            (Expiration::AtHeight(a), Expiration::AtHeight(b)) => *a > *b,
            (Expiration::AtTime(a), Expiration::AtTime(b)) => *a > *b,
            _ => false,
        }
    }
}

} // verus!
