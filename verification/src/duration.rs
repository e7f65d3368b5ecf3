//! A span of time with millisecond granularity.

use vstd::prelude::*;
use vstd::std_specs::ops::{AddSpecImpl, MulSpecImpl, SubSpecImpl};

verus! {

/// An elapsed or remaining amount of time, counted in whole milliseconds.
#[derive(Clone, Copy, Debug, PartialEq, Eq, Structural, PartialOrd, Ord, Hash)]
pub struct Duration {
    pub milliseconds: u32,
}

impl Duration {
    /// The empty span.
    pub fn zero() -> (d: Self)
        ensures
            d.milliseconds == 0,
    {
        Self { milliseconds: 0 }
    }

    pub fn from_millis(milliseconds: u32) -> (d: Self)
        ensures
            d.milliseconds == milliseconds,
    {
        Self { milliseconds }
    }

    pub fn from_secs(seconds: u32) -> (d: Self)
        requires
            seconds * 1000 <= u32::MAX,
        ensures
            d.milliseconds == seconds * 1000,
    {
        Self { milliseconds: seconds * 1000 }
    }

    pub fn as_millis(&self) -> (ms: u32)
        ensures
            ms == self.milliseconds,
    {
        self.milliseconds
    }

    pub fn is_zero(&self) -> (zero: bool)
        ensures
            zero == (self.milliseconds == 0),
    {
        self.milliseconds == 0
    }

    /// `self - other`, or `None` where `other` is the longer of the two.
    pub fn checked_sub(&self, other: Self) -> (diff: Option<Self>)
        ensures
            self.milliseconds >= other.milliseconds ==> diff == Some(
                Duration { milliseconds: (self.milliseconds - other.milliseconds) as u32 },
            ),
            self.milliseconds < other.milliseconds ==> diff.is_none(),
    {
        if self.milliseconds >= other.milliseconds {
            Some(Self { milliseconds: self.milliseconds - other.milliseconds })
        } else {
            None
        }
    }

    /// The sum of two spans, capped at the longest span there is.
    pub open spec fn capped_sum(self, other: Self) -> Self {
        Duration {
            milliseconds: if self.milliseconds + other.milliseconds > u32::MAX {
                u32::MAX
            } else {
                (self.milliseconds + other.milliseconds) as u32
            },
        }
    }

    pub fn saturating_add(self, other: Self) -> (sum: Self)
        ensures
            sum == self.capped_sum(other),
    {
        Self { milliseconds: self.milliseconds.saturating_add(other.milliseconds) }
    }

    /// `self` taken `times` times, capped at the longest span there is.
    pub open spec fn capped_product(self, times: u32) -> Self {
        Duration {
            milliseconds: if self.milliseconds * times > u32::MAX {
                u32::MAX
            } else {
                (self.milliseconds * times) as u32
            },
        }
    }

    pub fn saturating_mul(self, times: u32) -> (product: Self)
        ensures
            product == self.capped_product(times),
    {
        assert(self.milliseconds * times <= 0xffff_ffff * 0xffff_ffff) by (nonlinear_arith)
            requires
                self.milliseconds <= 0xffff_ffff,
                times <= 0xffff_ffff,
        ;
        let product: u64 = (self.milliseconds as u64) * (times as u64);
        if product > 0xffff_ffff {
            Self { milliseconds: u32::MAX }
        } else {
            Self { milliseconds: product as u32 }
        }
    }

    /// The longer of two spans.
    pub fn max(self, other: Self) -> (m: Self)
        ensures
            m.milliseconds == if self.milliseconds >= other.milliseconds {
                self.milliseconds
            } else {
                other.milliseconds
            },
    {
        if self.milliseconds >= other.milliseconds {
            self
        } else {
            other
        }
    }

    /// The shorter of two spans.
    pub fn min(self, other: Self) -> (m: Self)
        ensures
            m.milliseconds == if self.milliseconds <= other.milliseconds {
                self.milliseconds
            } else {
                other.milliseconds
            },
    {
        if self.milliseconds <= other.milliseconds {
            self
        } else {
            other
        }
    }
}

impl Default for Duration {
    fn default() -> (d: Self)
        ensures
            d.milliseconds == 0,
    {
        Duration { milliseconds: 0 }
    }
}

impl core::ops::Add<Duration> for Duration {
    type Output = Duration;

    fn add(self, rhs: Duration) -> (sum: Duration) {
        Duration { milliseconds: self.milliseconds + rhs.milliseconds }
    }
}

impl AddSpecImpl<Duration> for Duration {
    open spec fn obeys_add_spec() -> bool {
        true
    }

    open spec fn add_req(self, rhs: Duration) -> bool {
        self.milliseconds + rhs.milliseconds <= u32::MAX
    }

    open spec fn add_spec(self, rhs: Duration) -> Duration {
        Duration { milliseconds: (self.milliseconds + rhs.milliseconds) as u32 }
    }
}

impl core::ops::Sub<Duration> for Duration {
    type Output = Duration;

    fn sub(self, rhs: Duration) -> (diff: Duration) {
        Duration { milliseconds: self.milliseconds - rhs.milliseconds }
    }
}

impl SubSpecImpl<Duration> for Duration {
    open spec fn obeys_sub_spec() -> bool {
        true
    }

    open spec fn sub_req(self, rhs: Duration) -> bool {
        self.milliseconds >= rhs.milliseconds
    }

    open spec fn sub_spec(self, rhs: Duration) -> Duration {
        Duration { milliseconds: (self.milliseconds - rhs.milliseconds) as u32 }
    }
}

impl core::ops::Mul<u32> for Duration {
    type Output = Duration;

    fn mul(self, rhs: u32) -> (product: Duration) {
        Duration { milliseconds: self.milliseconds * rhs }
    }
}

impl MulSpecImpl<u32> for Duration {
    open spec fn obeys_mul_spec() -> bool {
        true
    }

    open spec fn mul_req(self, rhs: u32) -> bool {
        self.milliseconds * rhs <= u32::MAX
    }

    open spec fn mul_spec(self, rhs: u32) -> Duration {
        Duration { milliseconds: (self.milliseconds * rhs) as u32 }
    }
}

impl core::ops::Add<u32> for Duration {
    type Output = Duration;

    fn add(self, rhs: u32) -> (sum: Duration) {
        Duration { milliseconds: self.milliseconds + rhs }
    }
}

impl AddSpecImpl<u32> for Duration {
    open spec fn obeys_add_spec() -> bool {
        true
    }

    open spec fn add_req(self, rhs: u32) -> bool {
        self.milliseconds + rhs <= u32::MAX
    }

    open spec fn add_spec(self, rhs: u32) -> Duration {
        Duration { milliseconds: (self.milliseconds + rhs) as u32 }
    }
}

impl core::ops::Sub<u32> for Duration {
    type Output = Duration;

    fn sub(self, rhs: u32) -> (diff: Duration) {
        Duration { milliseconds: self.milliseconds - rhs }
    }
}

impl SubSpecImpl<u32> for Duration {
    open spec fn obeys_sub_spec() -> bool {
        true
    }

    open spec fn sub_req(self, rhs: u32) -> bool {
        self.milliseconds >= rhs
    }

    open spec fn sub_spec(self, rhs: u32) -> Duration {
        Duration { milliseconds: (self.milliseconds - rhs) as u32 }
    }
}

impl core::ops::Mul<Duration> for u32 {
    type Output = Duration;

    fn mul(self, rhs: Duration) -> (product: Duration) {
        Duration { milliseconds: self * rhs.milliseconds }
    }
}

impl MulSpecImpl<Duration> for u32 {
    open spec fn obeys_mul_spec() -> bool {
        true
    }

    open spec fn mul_req(self, rhs: Duration) -> bool {
        self * rhs.milliseconds <= u32::MAX
    }

    open spec fn mul_spec(self, rhs: Duration) -> Duration {
        Duration { milliseconds: (self * rhs.milliseconds) as u32 }
    }
}

} // verus!
