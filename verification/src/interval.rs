use vstd::prelude::*;
use vstd::std_specs::ops::AddSpecImpl;
use vstd::std_specs::ops::DivSpecImpl;
use vstd::std_specs::ops::MulSpecImpl;
use std::ops::Add;
use std::ops::Div;
use std::ops::Mul;

verus! {

/// Centiseconds in one second.
pub const CENTIS_PER_SECOND: u64 = 100;

/// Milliseconds in one centisecond.
pub const MILLIS_PER_CENTI: u64 = 10;

/// Nanoseconds in one centisecond.
pub const NANOS_PER_CENTI: u64 = 10_000_000;

/// A span of time counted in centiseconds, the unit in which VRRP
/// advertises its intervals.
#[derive(Debug, Clone, Copy, PartialEq, Eq, Structural)]
pub struct Interval(u64);

impl Interval {
    /// The number of centiseconds in the interval.
    pub closed spec fn centis(self) -> u64 {
        self.0
    }

    /// The interval that lasts the given number of centiseconds.
    pub closed spec fn of_centis(centiseconds: u64) -> Interval {
        Interval(centiseconds)
    }

    /// The length of the interval in nanoseconds.
    pub open spec fn nanos(self) -> int {
        self.centis() * NANOS_PER_CENTI
    }

    /// An interval is known by its length.
    pub broadcast proof fn lemma_of_centis(centiseconds: u64)
        ensures
            #[trigger] Self::of_centis(centiseconds).centis() == centiseconds,
    {
    }

    /// Two intervals of one length are the same interval.
    pub proof fn lemma_same_length(self, other: Interval)
        ensures
            self.centis() == other.centis() <==> self == other,
    {
    }

    /// An interval of whole seconds.
    pub fn from_secs(seconds: u16) -> (interval: Self)
        ensures
            interval.centis() == CENTIS_PER_SECOND * seconds,
            interval == Self::of_centis((CENTIS_PER_SECOND * seconds) as u64),
    {
        let seconds: u64 = seconds as u64;
        Interval(CENTIS_PER_SECOND * seconds)
    }

    /// An interval of centiseconds, as a VRRP packet carries it.
    pub fn from_centis(centiseconds: u16) -> (interval: Self)
        ensures
            interval.centis() == centiseconds,
            interval == Self::of_centis(centiseconds as u64),
    {
        Interval(centiseconds as u64)
    }

    /// An interval of any length that fits the counter.
    pub fn from_count(centiseconds: u64) -> (interval: Self)
        ensures
            interval.centis() == centiseconds,
            interval == Self::of_centis(centiseconds),
    {
        Interval(centiseconds)
    }

    /// The length of the interval in centiseconds.
    pub fn as_centis(self) -> (centiseconds: u64)
        ensures
            centiseconds == self.centis(),
    {
        self.0
    }

    /// The length of the interval in milliseconds. No interval is too long
    /// for the result.
    pub fn as_millis(self) -> (milliseconds: u128)
        ensures
            milliseconds == self.centis() * MILLIS_PER_CENTI,
    {
        let centiseconds: u128 = self.0 as u128;
        let factor: u128 = MILLIS_PER_CENTI as u128;
        centiseconds * factor
    }

    /// The length of the interval in nanoseconds, unless it is longer than
    /// 64 bits can count.
    pub fn checked_nanos(self) -> (nanoseconds: Option<u64>)
        ensures
            self.nanos() <= u64::MAX ==> nanoseconds == Some(self.nanos() as u64),
            self.nanos() > u64::MAX ==> nanoseconds.is_none(),
    {
        self.0.checked_mul(NANOS_PER_CENTI)
    }
}

impl Add<Interval> for Interval {
    type Output = Interval;

    /// One interval after the other.
    fn add(self, rhs: Interval) -> (sum: Interval)
        ensures
            sum.centis() == self.centis() + rhs.centis(),
    {
        Interval(self.0 + rhs.0)
    }
}

impl AddSpecImpl<Interval> for Interval {
    open spec fn obeys_add_spec() -> bool {
        true
    }

    open spec fn add_req(self, rhs: Interval) -> bool {
        self.centis() + rhs.centis() <= u64::MAX
    }

    open spec fn add_spec(self, rhs: Interval) -> Interval {
        Self::of_centis((self.centis() + rhs.centis()) as u64)
    }
}

impl Mul<Interval> for u16 {
    type Output = Interval;

    /// The interval repeated a number of times.
    fn mul(self, rhs: Interval) -> (product: Interval)
        ensures
            product.centis() == self * rhs.centis(),
    {
        let times: u64 = self as u64;
        Interval(times * rhs.0)
    }
}

impl MulSpecImpl<Interval> for u16 {
    open spec fn obeys_mul_spec() -> bool {
        true
    }

    open spec fn mul_req(self, rhs: Interval) -> bool {
        self * rhs.centis() <= u64::MAX
    }

    open spec fn mul_spec(self, rhs: Interval) -> Interval {
        Interval::of_centis((self * rhs.centis()) as u64)
    }
}

impl Div<u16> for Interval {
    type Output = Interval;

    /// The interval cut into equal parts, rounded down to a centisecond.
    fn div(self, rhs: u16) -> (quotient: Interval)
        ensures
            quotient.centis() == self.centis() / (rhs as u64),
    {
        let parts: u64 = rhs as u64;
        Interval(self.0 / parts)
    }
}

impl DivSpecImpl<u16> for Interval {
    open spec fn obeys_div_spec() -> bool {
        true
    }

    open spec fn div_req(self, rhs: u16) -> bool {
        rhs != 0
    }

    open spec fn div_spec(self, rhs: u16) -> Interval {
        Self::of_centis(self.centis() / (rhs as u64))
    }
}

} // verus!
